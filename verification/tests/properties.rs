use translit::ukrainian::translit;
use translit::TranslitError;
use translit::TranslitMethod;
use translit::Transliterator;

const METHODS: [TranslitMethod; 4] = [
    TranslitMethod::gost779b_ru,
    TranslitMethod::gost779b_by,
    TranslitMethod::gost779b_ua,
    TranslitMethod::iternational_passport_2013_ru,
];

#[test]
fn identity_on_out_of_alphabet_input() {
    let text = "plain ASCII text, digits 0123456789 and marks!?";
    for method in METHODS {
        assert_eq!(Transliterator::new(method).to_latin(text), text);
    }
    assert_eq!(translit("plain text 123 !?"), "plain text 123 !?");
}

#[test]
fn identity_on_out_of_alphabet_reverse_input() {
    let text = " 0123456789 — ,.!? ";
    for method in [
        TranslitMethod::gost779b_ru,
        TranslitMethod::gost779b_by,
        TranslitMethod::gost779b_ua,
    ] {
        assert_eq!(Transliterator::new(method).from_latin(text), text);
    }
}

#[test]
fn round_trip_is_exact_for_reversible_standards() {
    let fixtures = [
        (TranslitMethod::gost779b_ru, "Съешь же ещё этих мягких французских булок, да выпей чаю."),
        (TranslitMethod::gost779b_by, "У рудога вераб'я ў сховішчы ляжаць зёлкі."),
        (TranslitMethod::gost779b_ua, "Гей, хлопці, ваша файна їжа знищується!"),
    ];
    for (method, source) in fixtures {
        let tr = Transliterator::new(method);
        assert_eq!(tr.from_latin(&tr.to_latin(source)), source);
    }
}

#[test]
fn passport_standard_is_forward_only() {
    let tr = Transliterator::new(TranslitMethod::iternational_passport_2013_ru);
    assert_eq!(tr.to_latin("Подъезд и объём"), "Podieezd i obieem");
    assert_eq!(
        tr.try_convert("Podezd", true),
        Err(TranslitError::UnsupportedDirection)
    );
    assert!(!TranslitMethod::iternational_passport_2013_ru.has_reverse());
}

#[test]
fn try_convert_matches_convert_where_supported() {
    let tr = Transliterator::new(TranslitMethod::gost779b_ru);
    assert_eq!(tr.try_convert("Терминал", false), Ok(String::from("Terminal")));
    assert_eq!(tr.try_convert("Terminal", true), Ok(String::from("Терминал")));
}

#[test]
fn positional_mapping_depends_on_word_position() {
    // the same letter at a word start and in the interior of the word
    assert_eq!(translit("єє"), "yeie");
    assert_eq!(translit("Єнакієве"), "Yenakiieve");
}

#[test]
fn digraph_trigger_and_control() {
    // triggered: the letter follows its trigger consonant
    assert_eq!(translit("Згурський"), "Zghurskyi");
    // control: the same letter without the trigger
    assert_eq!(translit("Гадяч"), "Hadiach");
    // the elided soft sign does not disarm the trigger
    assert_eq!(translit("зьг"), "zgh");
    // the trigger is consumed by one character: it does not chain
    assert_eq!(translit("згг"), "zghh");
    // a trigger at the end of the input still emits its own letter
    assert_eq!(translit("з"), "z");
}

#[test]
fn soft_sign_is_always_elided() {
    assert_eq!(translit("Донецьк"), "Donetsk");
    assert_eq!(translit("ьЬ"), "");
    // the Russian GOST standard, by contrast, keeps it as a backtick
    assert_eq!(
        Transliterator::new(TranslitMethod::gost779b_ru).to_latin("ь"),
        "`"
    );
}

#[test]
fn apostrophe_kept_only_at_word_start() {
    assert_eq!(translit("п'є"), "pie");
    assert_eq!(translit("'є"), "'ye");
    assert_eq!(translit("п’є п'є"), "pie pie");
}

#[test]
fn empty_input_gives_empty_output() {
    for method in METHODS {
        let tr = Transliterator::new(method);
        assert_eq!(tr.convert("", false), "");
        assert_eq!(tr.try_convert("", true).unwrap_or_default(), "");
    }
    assert_eq!(
        Transliterator::new(TranslitMethod::gost779b_ru).convert("", true),
        ""
    );
    assert_eq!(translit(""), "");
}

#[test]
fn gost_tables_cover_case_pairs() {
    let tr = Transliterator::new(TranslitMethod::gost779b_ru);
    assert_eq!(tr.to_latin("Щука и щука"), "Shhuka i shhuka");
    assert_eq!(tr.from_latin("Shhuka i shhuka"), "Щука и щука");
    let tr = Transliterator::new(TranslitMethod::gost779b_by);
    assert_eq!(tr.to_latin("Ўмелец ўмелец"), "U`melec u`melec");
    assert_eq!(tr.from_latin("U`melec u`melec"), "Ўмелец ўмелец");
    let tr = Transliterator::new(TranslitMethod::gost779b_ua);
    assert_eq!(tr.to_latin("Ґанок і ґанок"), "G`anok i g`anok");
    assert_eq!(tr.from_latin("G`anok i g`anok"), "Ґанок і ґанок");
}
