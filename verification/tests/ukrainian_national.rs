use translit::ukrainian::translit;
use translit::ukrainian::translit_word_rest;
use translit::ukrainian::translit_word_start;

#[test]
fn smoke_test() {
    assert_eq!(Some("Y"), translit_word_start('Й'));
    assert_eq!(Some("y"), translit_word_start('й'));
    assert_eq!(Some("I"), translit_word_rest('Й'));
    assert_eq!(Some("i"), translit_word_rest('й'));
}

#[test]
fn with_ascii_test() {
    assert_eq!("before Alushta after",  translit("before Алушта after"));
    assert_eq!("before_Alushta_after",  translit("before_Алушта_after"));
    assert_eq!("beforeAlushtaafter",  translit("beforeАлуштаafter"));
}

#[test]
fn edge_cases_test() {
    assert_eq!("ye",   translit("є"));
    assert_eq!("pie",  translit("пє"));
    assert_eq!("pie",  translit("п’є"));
    assert_eq!("pie",  translit("п'є"));
    assert_eq!("'ye",  translit("'є"));
}

#[test]
fn words_test() {
    assert_eq!("Alushta",        translit("Алушта"));
    assert_eq!("Andrii",         translit("Андрій"));
    assert_eq!("Borshchahivka",  translit("Борщагівка"));
    assert_eq!("Borysenko",      translit("Борисенко"));
    assert_eq!("Vinnytsia",      translit("Вінниця"));
    assert_eq!("Volodymyr",      translit("Володимир"));
    assert_eq!("Hadiach",        translit("Гадяч"));
    assert_eq!("Bohdan",         translit("Богдан"));
    assert_eq!("Zghurskyi",      translit("Згурський"));
    assert_eq!("Pidzghurskyi",   translit("Підзгурський"));
    assert_eq!("Galagan",        translit("Ґалаґан"));
    assert_eq!("Gorgany",        translit("Ґорґани"));
    assert_eq!("Donetsk",        translit("Донецьк"));
    assert_eq!("Dmytro",         translit("Дмитро"));
    assert_eq!("Rivne",          translit("Рівне"));
    assert_eq!("Oleh",           translit("Олег"));
    assert_eq!("Esman",          translit("Есмань"));
    assert_eq!("Yenakiieve",     translit("Єнакієве"));
    assert_eq!("Haievych",       translit("Гаєвич"));
    assert_eq!("Koropie",        translit("Короп’є"));
    assert_eq!("Zhytomyr",       translit("Житомир"));
    assert_eq!("Zhanna",         translit("Жанна"));
    assert_eq!("Zhezheliv",      translit("Жежелів"));
    assert_eq!("Zakarpattia",    translit("Закарпаття"));
    assert_eq!("Kazymyrchuk",    translit("Казимирчук"));
    assert_eq!("Medvyn",         translit("Медвин"));
    assert_eq!("Mykhailenko",    translit("Михайленко"));
    assert_eq!("Ivankiv",        translit("Іванків"));
    assert_eq!("Ivashchenko",    translit("Іващенко"));
    assert_eq!("Yizhakevych",    translit("Їжакевич"));
    assert_eq!("Kadyivka",       translit("Кадиївка"));
    assert_eq!("Marine",         translit("Мар’їне"));
    assert_eq!("Yosypivka",      translit("Йосипівка"));
    assert_eq!("Stryi",          translit("Стрий"));
    assert_eq!("Oleksii",        translit("Олексій"));
    assert_eq!("Kyiv",           translit("Київ"));
    assert_eq!("Kovalenko",      translit("Коваленко"));
    assert_eq!("Lebedyn",        translit("Лебедин"));
    assert_eq!("Leonid",         translit("Леонід"));
    assert_eq!("Mykolaiv",       translit("Миколаїв"));
    assert_eq!("Marynych",       translit("Маринич"));
    assert_eq!("Nizhyn",         translit("Ніжин"));
    assert_eq!("Nataliia",       translit("Наталія"));
    assert_eq!("Odesa",          translit("Одеса"));
    assert_eq!("Onyshchenko",    translit("Онищенко"));
    assert_eq!("Poltava",        translit("Полтава"));
    assert_eq!("Petro",          translit("Петро"));
    assert_eq!("Reshetylivka",   translit("Решетилівка"));
    assert_eq!("Rybchynskyi",    translit("Рибчинський"));
    assert_eq!("Sumy",           translit("Суми"));
    assert_eq!("Solomiia",       translit("Соломія"));
    assert_eq!("Ternopil",       translit("Тернопіль"));
    assert_eq!("Trots",          translit("Троць"));
    assert_eq!("Uzhhorod",       translit("Ужгород"));
    assert_eq!("Uliana",         translit("Уляна"));
    assert_eq!("Fastiv",         translit("Фастів"));
    assert_eq!("Filipchuk",      translit("Філіпчук"));
    assert_eq!("Kharkiv",        translit("Харків"));
    assert_eq!("Khrystyna",      translit("Христина"));
    assert_eq!("Bila Tserkva",   translit("Біла Церква"));
    assert_eq!("Stetsenko",      translit("Стеценко"));
    assert_eq!("Chernivtsi",     translit("Чернівці"));
    assert_eq!("Shevchenko",     translit("Шевченко"));
    assert_eq!("Shostka",        translit("Шостка"));
    assert_eq!("Kyshenky",       translit("Кишеньки"));
    assert_eq!("Shcherbukhy",    translit("Щербухи"));
    assert_eq!("Hoshcha",        translit("Гоща"));
    assert_eq!("Harashchenko",   translit("Гаращенко"));
    assert_eq!("Yurii",          translit("Юрій"));
    assert_eq!("Koriukivka",     translit("Корюківка"));
    assert_eq!("Yahotyn",        translit("Яготин"));
    assert_eq!("Yaroshenko",     translit("Ярошенко"));
    assert_eq!("Kostiantyn",     translit("Костянтин"));
    assert_eq!("Znamianka",      translit("Знам’янка"));
    assert_eq!("Feodosiia",      translit("Феодосія"));
}

#[test]
fn words_upper_test() {
    assert_eq!("ALUSHTA",        translit("АЛУШТА"));
    assert_eq!("ANDRII",         translit("АНДРІЙ"));
    assert_eq!("BORSHCHAHIVKA",  translit("БОРЩАГІВКА"));
    assert_eq!("BORYSENKO",      translit("БОРИСЕНКО"));
    assert_eq!("VINNYTSIA",      translit("ВІННИЦЯ"));
    assert_eq!("VOLODYMYR",      translit("ВОЛОДИМИР"));
    assert_eq!("HADIACH",        translit("ГАДЯЧ"));
    assert_eq!("BOHDAN",         translit("БОГДАН"));
    assert_eq!("ZGHURSKYI",     translit("ЗГУРСЬКИЙ"));
    assert_eq!("PIDZGHURSKYI",     translit("ПІДЗГУРСЬКИЙ"));
    assert_eq!("GALAGAN",        translit("ҐАЛАҐАН"));
    assert_eq!("GORGANY",        translit("ҐОРҐАНИ"));
    assert_eq!("DONETSK",        translit("ДОНЕЦЬК"));
    assert_eq!("DMYTRO",         translit("ДМИТРО"));
    assert_eq!("RIVNE",          translit("РІВНЕ"));
    assert_eq!("OLEH",           translit("ОЛЕГ"));
    assert_eq!("ESMAN",          translit("ЕСМАНЬ"));
    assert_eq!("YeNAKIIEVE",     translit("ЄНАКІЄВЕ"));
    assert_eq!("HAIEVYCH",       translit("ГАЄВИЧ"));
    assert_eq!("KOROPIE",        translit("КОРОП’Є"));
    assert_eq!("ZhYTOMYR",       translit("ЖИТОМИР"));
    assert_eq!("ZhANNA",         translit("ЖАННА"));
    assert_eq!("ZhEZHELIV",      translit("ЖЕЖЕЛІВ"));
    assert_eq!("ZAKARPATTIA",    translit("ЗАКАРПАТТЯ"));
    assert_eq!("KAZYMYRCHUK",    translit("КАЗИМИРЧУК"));
    assert_eq!("MEDVYN",         translit("МЕДВИН"));
    assert_eq!("MYKHAILENKO",    translit("МИХАЙЛЕНКО"));
    assert_eq!("IVANKIV",        translit("ІВАНКІВ"));
    assert_eq!("IVASHCHENKO",    translit("ІВАЩЕНКО"));
    assert_eq!("YiZHAKEVYCH",    translit("ЇЖАКЕВИЧ"));
    assert_eq!("KADYIVKA",       translit("КАДИЇВКА"));
    assert_eq!("MARINE",         translit("МАР’ЇНЕ"));
    assert_eq!("YOSYPIVKA",      translit("ЙОСИПІВКА"));
    assert_eq!("STRYI",          translit("СТРИЙ"));
    assert_eq!("OLEKSII",        translit("ОЛЕКСІЙ"));
    assert_eq!("KYIV",           translit("КИЇВ"));
    assert_eq!("KOVALENKO",      translit("КОВАЛЕНКО"));
    assert_eq!("LEBEDYN",        translit("ЛЕБЕДИН"));
    assert_eq!("LEONID",         translit("ЛЕОНІД"));
    assert_eq!("MYKOLAIV",       translit("МИКОЛАЇВ"));
    assert_eq!("MARYNYCH",       translit("МАРИНИЧ"));
    assert_eq!("NIZHYN",         translit("НІЖИН"));
    assert_eq!("NATALIIA",       translit("НАТАЛІЯ"));
    assert_eq!("ODESA",          translit("ОДЕСА"));
    assert_eq!("ONYSHCHENKO",    translit("ОНИЩЕНКО"));
    assert_eq!("POLTAVA",        translit("ПОЛТАВА"));
    assert_eq!("PETRO",          translit("ПЕТРО"));
    assert_eq!("RESHETYLIVKA",   translit("РЕШЕТИЛІВКА"));
    assert_eq!("RYBCHYNSKYI",    translit("РИБЧИНСЬКИЙ"));
    assert_eq!("SUMY",           translit("СУМИ"));
    assert_eq!("SOLOMIIA",       translit("СОЛОМІЯ"));
    assert_eq!("TERNOPIL",       translit("ТЕРНОПІЛЬ"));
    assert_eq!("TROTS",          translit("ТРОЦЬ"));
    assert_eq!("UZHHOROD",       translit("УЖГОРОД"));
    assert_eq!("ULIANA",         translit("УЛЯНА"));
    assert_eq!("FASTIV",         translit("ФАСТІВ"));
    assert_eq!("FILIPCHUK",      translit("ФІЛІПЧУК"));
    assert_eq!("KhARKIV",        translit("ХАРКІВ"));
    assert_eq!("KhRYSTYNA",      translit("ХРИСТИНА"));
    assert_eq!("BILA TsERKVA",   translit("БІЛА ЦЕРКВА"));
    assert_eq!("STETSENKO",      translit("СТЕЦЕНКО"));
    assert_eq!("ChERNIVTSI",     translit("ЧЕРНІВЦІ"));
    assert_eq!("ShEVCHENKO",     translit("ШЕВЧЕНКО"));
    assert_eq!("ShOSTKA",        translit("ШОСТКА"));
    assert_eq!("KYSHENKY",       translit("КИШЕНЬКИ"));
    assert_eq!("ShchERBUKHY",    translit("ЩЕРБУХИ"));
    assert_eq!("HOSHCHA",        translit("ГОЩА"));
    assert_eq!("HARASHCHENKO",   translit("ГАРАЩЕНКО"));
    assert_eq!("YuRII",          translit("ЮРІЙ"));
    assert_eq!("KORIUKIVKA",     translit("КОРЮКІВКА"));
    assert_eq!("YaHOTYN",        translit("ЯГОТИН"));
    assert_eq!("YaROSHENKO",     translit("ЯРОШЕНКО"));
    assert_eq!("KOSTIANTYN",     translit("КОСТЯНТИН"));
    assert_eq!("ZNAMIANKA",      translit("ЗНАМ’ЯНКА"));
    assert_eq!("FEODOSIIA",      translit("ФЕОДОСІЯ"));
}
