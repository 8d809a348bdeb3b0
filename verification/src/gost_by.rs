//! Substitution tables of the Belarusian GOST 7.79 System B style standard.

use vstd::prelude::*;

verus! {

/// Forward table: the Latin output of a single source character, if the
/// character belongs to the standard's alphabet.
pub open spec fn by_fwd_char(c: char) -> Option<Seq<char>> {
    if c == 'а' {
        Some(seq!['a'])
    } else if c == 'А' {
        Some(seq!['A'])
    } else if c == 'б' {
        Some(seq!['b'])
    } else if c == 'Б' {
        Some(seq!['B'])
    } else if c == 'в' {
        Some(seq!['v'])
    } else if c == 'В' {
        Some(seq!['V'])
    } else if c == 'г' {
        Some(seq!['h'])
    } else if c == 'Г' {
        Some(seq!['H'])
    } else if c == 'д' {
        Some(seq!['d'])
    } else if c == 'Д' {
        Some(seq!['D'])
    } else if c == 'е' {
        Some(seq!['e'])
    } else if c == 'Е' {
        Some(seq!['E'])
    } else if c == 'ё' {
        Some(seq!['y', 'o'])
    } else if c == 'Ё' {
        Some(seq!['Y', 'o'])
    } else if c == 'ж' {
        Some(seq!['z', 'h'])
    } else if c == 'Ж' {
        Some(seq!['Z', 'h'])
    } else if c == 'з' {
        Some(seq!['z'])
    } else if c == 'З' {
        Some(seq!['Z'])
    } else if c == 'і' {
        Some(seq!['i'])
    } else if c == 'І' {
        Some(seq!['I'])
    } else if c == 'й' {
        Some(seq!['j'])
    } else if c == 'Й' {
        Some(seq!['J'])
    } else if c == 'к' {
        Some(seq!['k'])
    } else if c == 'К' {
        Some(seq!['K'])
    } else if c == 'л' {
        Some(seq!['l'])
    } else if c == 'Л' {
        Some(seq!['L'])
    } else if c == 'м' {
        Some(seq!['m'])
    } else if c == 'М' {
        Some(seq!['M'])
    } else if c == 'н' {
        Some(seq!['n'])
    } else if c == 'Н' {
        Some(seq!['N'])
    } else if c == 'о' {
        Some(seq!['o'])
    } else if c == 'О' {
        Some(seq!['O'])
    } else if c == 'п' {
        Some(seq!['p'])
    } else if c == 'П' {
        Some(seq!['P'])
    } else if c == 'р' {
        Some(seq!['r'])
    } else if c == 'Р' {
        Some(seq!['R'])
    } else if c == 'с' {
        Some(seq!['s'])
    } else if c == 'С' {
        Some(seq!['S'])
    } else if c == 'т' {
        Some(seq!['t'])
    } else if c == 'Т' {
        Some(seq!['T'])
    } else if c == 'у' {
        Some(seq!['u'])
    } else if c == 'У' {
        Some(seq!['U'])
    } else if c == 'ў' {
        Some(seq!['u', '`'])
    } else if c == 'Ў' {
        Some(seq!['U', '`'])
    } else if c == 'ф' {
        Some(seq!['f'])
    } else if c == 'Ф' {
        Some(seq!['F'])
    } else if c == 'х' {
        Some(seq!['x'])
    } else if c == 'Х' {
        Some(seq!['X'])
    } else if c == 'ц' {
        Some(seq!['c'])
    } else if c == 'Ц' {
        Some(seq!['C'])
    } else if c == 'ч' {
        Some(seq!['c', 'h'])
    } else if c == 'Ч' {
        Some(seq!['C', 'h'])
    } else if c == 'ш' {
        Some(seq!['s', 'h'])
    } else if c == 'Ш' {
        Some(seq!['S', 'h'])
    } else if c == 'ы' {
        Some(seq!['y', '`'])
    } else if c == 'Ы' {
        Some(seq!['Y', '`'])
    } else if c == 'ь' {
        Some(seq!['`'])
    } else if c == 'Ь' {
        Some(seq!['`'])
    } else if c == 'э' {
        Some(seq!['e', '`'])
    } else if c == 'Э' {
        Some(seq!['E', '`'])
    } else if c == 'ю' {
        Some(seq!['y', 'u'])
    } else if c == 'Ю' {
        Some(seq!['Y', 'u'])
    } else if c == 'я' {
        Some(seq!['y', 'a'])
    } else if c == 'Я' {
        Some(seq!['Y', 'a'])
    } else {
        None
    }
}

/// Forward lookup, returning the fixed Latin output of the character.
pub fn by_forward(c: char) -> (r: Option<&'static str>)
    ensures
        (match r {
            Some(t) => by_fwd_char(c) == Some(t@),
            None => by_fwd_char(c) is None,
        }),
{
    match c {
        'а' => {
            proof {
                reveal_strlit("a");
                assert(("a")@ =~= seq!['a']);
            }
            Some("a")
        },
        'А' => {
            proof {
                reveal_strlit("A");
                assert(("A")@ =~= seq!['A']);
            }
            Some("A")
        },
        'б' => {
            proof {
                reveal_strlit("b");
                assert(("b")@ =~= seq!['b']);
            }
            Some("b")
        },
        'Б' => {
            proof {
                reveal_strlit("B");
                assert(("B")@ =~= seq!['B']);
            }
            Some("B")
        },
        'в' => {
            proof {
                reveal_strlit("v");
                assert(("v")@ =~= seq!['v']);
            }
            Some("v")
        },
        'В' => {
            proof {
                reveal_strlit("V");
                assert(("V")@ =~= seq!['V']);
            }
            Some("V")
        },
        'г' => {
            proof {
                reveal_strlit("h");
                assert(("h")@ =~= seq!['h']);
            }
            Some("h")
        },
        'Г' => {
            proof {
                reveal_strlit("H");
                assert(("H")@ =~= seq!['H']);
            }
            Some("H")
        },
        'д' => {
            proof {
                reveal_strlit("d");
                assert(("d")@ =~= seq!['d']);
            }
            Some("d")
        },
        'Д' => {
            proof {
                reveal_strlit("D");
                assert(("D")@ =~= seq!['D']);
            }
            Some("D")
        },
        'е' => {
            proof {
                reveal_strlit("e");
                assert(("e")@ =~= seq!['e']);
            }
            Some("e")
        },
        'Е' => {
            proof {
                reveal_strlit("E");
                assert(("E")@ =~= seq!['E']);
            }
            Some("E")
        },
        'ё' => {
            proof {
                reveal_strlit("yo");
                assert(("yo")@ =~= seq!['y', 'o']);
            }
            Some("yo")
        },
        'Ё' => {
            proof {
                reveal_strlit("Yo");
                assert(("Yo")@ =~= seq!['Y', 'o']);
            }
            Some("Yo")
        },
        'ж' => {
            proof {
                reveal_strlit("zh");
                assert(("zh")@ =~= seq!['z', 'h']);
            }
            Some("zh")
        },
        'Ж' => {
            proof {
                reveal_strlit("Zh");
                assert(("Zh")@ =~= seq!['Z', 'h']);
            }
            Some("Zh")
        },
        'з' => {
            proof {
                reveal_strlit("z");
                assert(("z")@ =~= seq!['z']);
            }
            Some("z")
        },
        'З' => {
            proof {
                reveal_strlit("Z");
                assert(("Z")@ =~= seq!['Z']);
            }
            Some("Z")
        },
        'і' => {
            proof {
                reveal_strlit("i");
                assert(("i")@ =~= seq!['i']);
            }
            Some("i")
        },
        'І' => {
            proof {
                reveal_strlit("I");
                assert(("I")@ =~= seq!['I']);
            }
            Some("I")
        },
        'й' => {
            proof {
                reveal_strlit("j");
                assert(("j")@ =~= seq!['j']);
            }
            Some("j")
        },
        'Й' => {
            proof {
                reveal_strlit("J");
                assert(("J")@ =~= seq!['J']);
            }
            Some("J")
        },
        'к' => {
            proof {
                reveal_strlit("k");
                assert(("k")@ =~= seq!['k']);
            }
            Some("k")
        },
        'К' => {
            proof {
                reveal_strlit("K");
                assert(("K")@ =~= seq!['K']);
            }
            Some("K")
        },
        'л' => {
            proof {
                reveal_strlit("l");
                assert(("l")@ =~= seq!['l']);
            }
            Some("l")
        },
        'Л' => {
            proof {
                reveal_strlit("L");
                assert(("L")@ =~= seq!['L']);
            }
            Some("L")
        },
        'м' => {
            proof {
                reveal_strlit("m");
                assert(("m")@ =~= seq!['m']);
            }
            Some("m")
        },
        'М' => {
            proof {
                reveal_strlit("M");
                assert(("M")@ =~= seq!['M']);
            }
            Some("M")
        },
        'н' => {
            proof {
                reveal_strlit("n");
                assert(("n")@ =~= seq!['n']);
            }
            Some("n")
        },
        'Н' => {
            proof {
                reveal_strlit("N");
                assert(("N")@ =~= seq!['N']);
            }
            Some("N")
        },
        'о' => {
            proof {
                reveal_strlit("o");
                assert(("o")@ =~= seq!['o']);
            }
            Some("o")
        },
        'О' => {
            proof {
                reveal_strlit("O");
                assert(("O")@ =~= seq!['O']);
            }
            Some("O")
        },
        'п' => {
            proof {
                reveal_strlit("p");
                assert(("p")@ =~= seq!['p']);
            }
            Some("p")
        },
        'П' => {
            proof {
                reveal_strlit("P");
                assert(("P")@ =~= seq!['P']);
            }
            Some("P")
        },
        'р' => {
            proof {
                reveal_strlit("r");
                assert(("r")@ =~= seq!['r']);
            }
            Some("r")
        },
        'Р' => {
            proof {
                reveal_strlit("R");
                assert(("R")@ =~= seq!['R']);
            }
            Some("R")
        },
        'с' => {
            proof {
                reveal_strlit("s");
                assert(("s")@ =~= seq!['s']);
            }
            Some("s")
        },
        'С' => {
            proof {
                reveal_strlit("S");
                assert(("S")@ =~= seq!['S']);
            }
            Some("S")
        },
        'т' => {
            proof {
                reveal_strlit("t");
                assert(("t")@ =~= seq!['t']);
            }
            Some("t")
        },
        'Т' => {
            proof {
                reveal_strlit("T");
                assert(("T")@ =~= seq!['T']);
            }
            Some("T")
        },
        'у' => {
            proof {
                reveal_strlit("u");
                assert(("u")@ =~= seq!['u']);
            }
            Some("u")
        },
        'У' => {
            proof {
                reveal_strlit("U");
                assert(("U")@ =~= seq!['U']);
            }
            Some("U")
        },
        'ў' => {
            proof {
                reveal_strlit("u`");
                assert(("u`")@ =~= seq!['u', '`']);
            }
            Some("u`")
        },
        'Ў' => {
            proof {
                reveal_strlit("U`");
                assert(("U`")@ =~= seq!['U', '`']);
            }
            Some("U`")
        },
        'ф' => {
            proof {
                reveal_strlit("f");
                assert(("f")@ =~= seq!['f']);
            }
            Some("f")
        },
        'Ф' => {
            proof {
                reveal_strlit("F");
                assert(("F")@ =~= seq!['F']);
            }
            Some("F")
        },
        'х' => {
            proof {
                reveal_strlit("x");
                assert(("x")@ =~= seq!['x']);
            }
            Some("x")
        },
        'Х' => {
            proof {
                reveal_strlit("X");
                assert(("X")@ =~= seq!['X']);
            }
            Some("X")
        },
        'ц' => {
            proof {
                reveal_strlit("c");
                assert(("c")@ =~= seq!['c']);
            }
            Some("c")
        },
        'Ц' => {
            proof {
                reveal_strlit("C");
                assert(("C")@ =~= seq!['C']);
            }
            Some("C")
        },
        'ч' => {
            proof {
                reveal_strlit("ch");
                assert(("ch")@ =~= seq!['c', 'h']);
            }
            Some("ch")
        },
        'Ч' => {
            proof {
                reveal_strlit("Ch");
                assert(("Ch")@ =~= seq!['C', 'h']);
            }
            Some("Ch")
        },
        'ш' => {
            proof {
                reveal_strlit("sh");
                assert(("sh")@ =~= seq!['s', 'h']);
            }
            Some("sh")
        },
        'Ш' => {
            proof {
                reveal_strlit("Sh");
                assert(("Sh")@ =~= seq!['S', 'h']);
            }
            Some("Sh")
        },
        'ы' => {
            proof {
                reveal_strlit("y`");
                assert(("y`")@ =~= seq!['y', '`']);
            }
            Some("y`")
        },
        'Ы' => {
            proof {
                reveal_strlit("Y`");
                assert(("Y`")@ =~= seq!['Y', '`']);
            }
            Some("Y`")
        },
        'ь' => {
            proof {
                reveal_strlit("`");
                assert(("`")@ =~= seq!['`']);
            }
            Some("`")
        },
        'Ь' => {
            proof {
                reveal_strlit("`");
                assert(("`")@ =~= seq!['`']);
            }
            Some("`")
        },
        'э' => {
            proof {
                reveal_strlit("e`");
                assert(("e`")@ =~= seq!['e', '`']);
            }
            Some("e`")
        },
        'Э' => {
            proof {
                reveal_strlit("E`");
                assert(("E`")@ =~= seq!['E', '`']);
            }
            Some("E`")
        },
        'ю' => {
            proof {
                reveal_strlit("yu");
                assert(("yu")@ =~= seq!['y', 'u']);
            }
            Some("yu")
        },
        'Ю' => {
            proof {
                reveal_strlit("Yu");
                assert(("Yu")@ =~= seq!['Y', 'u']);
            }
            Some("Yu")
        },
        'я' => {
            proof {
                reveal_strlit("ya");
                assert(("ya")@ =~= seq!['y', 'a']);
            }
            Some("ya")
        },
        'Я' => {
            proof {
                reveal_strlit("Ya");
                assert(("Ya")@ =~= seq!['Y', 'a']);
            }
            Some("Ya")
        },
        _ => None,
    }
}

/// Reverse table for one-character Latin keys.
pub open spec fn by_rev1(a: char) -> Option<char> {
    if a == 'a' {
        Some('а')
    } else if a == 'A' {
        Some('А')
    } else if a == 'b' {
        Some('б')
    } else if a == 'B' {
        Some('Б')
    } else if a == 'v' {
        Some('в')
    } else if a == 'V' {
        Some('В')
    } else if a == 'h' {
        Some('г')
    } else if a == 'H' {
        Some('Г')
    } else if a == 'd' {
        Some('д')
    } else if a == 'D' {
        Some('Д')
    } else if a == 'e' {
        Some('е')
    } else if a == 'E' {
        Some('Е')
    } else if a == 'z' {
        Some('з')
    } else if a == 'Z' {
        Some('З')
    } else if a == 'i' {
        Some('і')
    } else if a == 'I' {
        Some('І')
    } else if a == 'j' {
        Some('й')
    } else if a == 'J' {
        Some('Й')
    } else if a == 'k' {
        Some('к')
    } else if a == 'K' {
        Some('К')
    } else if a == 'l' {
        Some('л')
    } else if a == 'L' {
        Some('Л')
    } else if a == 'm' {
        Some('м')
    } else if a == 'M' {
        Some('М')
    } else if a == 'n' {
        Some('н')
    } else if a == 'N' {
        Some('Н')
    } else if a == 'o' {
        Some('о')
    } else if a == 'O' {
        Some('О')
    } else if a == 'p' {
        Some('п')
    } else if a == 'P' {
        Some('П')
    } else if a == 'r' {
        Some('р')
    } else if a == 'R' {
        Some('Р')
    } else if a == 's' {
        Some('с')
    } else if a == 'S' {
        Some('С')
    } else if a == 't' {
        Some('т')
    } else if a == 'T' {
        Some('Т')
    } else if a == 'u' {
        Some('у')
    } else if a == 'U' {
        Some('У')
    } else if a == 'f' {
        Some('ф')
    } else if a == 'F' {
        Some('Ф')
    } else if a == 'x' {
        Some('х')
    } else if a == 'X' {
        Some('Х')
    } else if a == 'c' {
        Some('ц')
    } else if a == 'C' {
        Some('Ц')
    } else if a == '`' {
        Some('ь')
    } else {
        None
    }
}

pub fn by_reverse1(a: char) -> (r: Option<char>)
    ensures
        r == by_rev1(a),
{
    if a == 'a' {
        Some('а')
    } else if a == 'A' {
        Some('А')
    } else if a == 'b' {
        Some('б')
    } else if a == 'B' {
        Some('Б')
    } else if a == 'v' {
        Some('в')
    } else if a == 'V' {
        Some('В')
    } else if a == 'h' {
        Some('г')
    } else if a == 'H' {
        Some('Г')
    } else if a == 'd' {
        Some('д')
    } else if a == 'D' {
        Some('Д')
    } else if a == 'e' {
        Some('е')
    } else if a == 'E' {
        Some('Е')
    } else if a == 'z' {
        Some('з')
    } else if a == 'Z' {
        Some('З')
    } else if a == 'i' {
        Some('і')
    } else if a == 'I' {
        Some('І')
    } else if a == 'j' {
        Some('й')
    } else if a == 'J' {
        Some('Й')
    } else if a == 'k' {
        Some('к')
    } else if a == 'K' {
        Some('К')
    } else if a == 'l' {
        Some('л')
    } else if a == 'L' {
        Some('Л')
    } else if a == 'm' {
        Some('м')
    } else if a == 'M' {
        Some('М')
    } else if a == 'n' {
        Some('н')
    } else if a == 'N' {
        Some('Н')
    } else if a == 'o' {
        Some('о')
    } else if a == 'O' {
        Some('О')
    } else if a == 'p' {
        Some('п')
    } else if a == 'P' {
        Some('П')
    } else if a == 'r' {
        Some('р')
    } else if a == 'R' {
        Some('Р')
    } else if a == 's' {
        Some('с')
    } else if a == 'S' {
        Some('С')
    } else if a == 't' {
        Some('т')
    } else if a == 'T' {
        Some('Т')
    } else if a == 'u' {
        Some('у')
    } else if a == 'U' {
        Some('У')
    } else if a == 'f' {
        Some('ф')
    } else if a == 'F' {
        Some('Ф')
    } else if a == 'x' {
        Some('х')
    } else if a == 'X' {
        Some('Х')
    } else if a == 'c' {
        Some('ц')
    } else if a == 'C' {
        Some('Ц')
    } else if a == '`' {
        Some('ь')
    } else {
        None
    }
}

/// Reverse table for two-character Latin keys.
pub open spec fn by_rev2(a: char, b: char) -> Option<char> {
    if a == 'y' && b == 'o' {
        Some('ё')
    } else if a == 'Y' && b == 'o' {
        Some('Ё')
    } else if a == 'z' && b == 'h' {
        Some('ж')
    } else if a == 'Z' && b == 'h' {
        Some('Ж')
    } else if a == 'u' && b == '`' {
        Some('ў')
    } else if a == 'U' && b == '`' {
        Some('Ў')
    } else if a == 'c' && b == 'h' {
        Some('ч')
    } else if a == 'C' && b == 'h' {
        Some('Ч')
    } else if a == 's' && b == 'h' {
        Some('ш')
    } else if a == 'S' && b == 'h' {
        Some('Ш')
    } else if a == 'y' && b == '`' {
        Some('ы')
    } else if a == 'Y' && b == '`' {
        Some('Ы')
    } else if a == 'e' && b == '`' {
        Some('э')
    } else if a == 'E' && b == '`' {
        Some('Э')
    } else if a == 'y' && b == 'u' {
        Some('ю')
    } else if a == 'Y' && b == 'u' {
        Some('Ю')
    } else if a == 'y' && b == 'a' {
        Some('я')
    } else if a == 'Y' && b == 'a' {
        Some('Я')
    } else {
        None
    }
}

pub fn by_reverse2(a: char, b: char) -> (r: Option<char>)
    ensures
        r == by_rev2(a, b),
{
    if a == 'y' && b == 'o' {
        Some('ё')
    } else if a == 'Y' && b == 'o' {
        Some('Ё')
    } else if a == 'z' && b == 'h' {
        Some('ж')
    } else if a == 'Z' && b == 'h' {
        Some('Ж')
    } else if a == 'u' && b == '`' {
        Some('ў')
    } else if a == 'U' && b == '`' {
        Some('Ў')
    } else if a == 'c' && b == 'h' {
        Some('ч')
    } else if a == 'C' && b == 'h' {
        Some('Ч')
    } else if a == 's' && b == 'h' {
        Some('ш')
    } else if a == 'S' && b == 'h' {
        Some('Ш')
    } else if a == 'y' && b == '`' {
        Some('ы')
    } else if a == 'Y' && b == '`' {
        Some('Ы')
    } else if a == 'e' && b == '`' {
        Some('э')
    } else if a == 'E' && b == '`' {
        Some('Э')
    } else if a == 'y' && b == 'u' {
        Some('ю')
    } else if a == 'Y' && b == 'u' {
        Some('Ю')
    } else if a == 'y' && b == 'a' {
        Some('я')
    } else if a == 'Y' && b == 'a' {
        Some('Я')
    } else {
        None
    }
}

/// Reverse table for three-character Latin keys.
pub open spec fn by_rev3(a: char, b: char, c: char) -> Option<char> {
    None
}

pub fn by_reverse3(a: char, b: char, c: char) -> (r: Option<char>)
    ensures
        r == by_rev3(a, b, c),
{
    None
}

} // verus!
