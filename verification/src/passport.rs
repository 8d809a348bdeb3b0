//! Substitution table of the Russian international passport standard.
//!
//! Forward only: several Cyrillic letters collapse to the same Latin output
//! and the soft signs are dropped, so no reverse table exists.

use vstd::prelude::*;

verus! {

/// Forward table: the Latin output of a single source character, if the
/// character belongs to the standard's alphabet.
pub open spec fn passport_fwd_char(c: char) -> Option<Seq<char>> {
    if c == 'а' {
        Some(seq!['a'])
    } else if c == 'А' {
        Some(seq!['A'])
    } else if c == 'б' {
        Some(seq!['b'])
    } else if c == 'Б' {
        Some(seq!['B'])
    } else if c == 'в' {
        Some(seq!['v'])
    } else if c == 'В' {
        Some(seq!['V'])
    } else if c == 'г' {
        Some(seq!['g'])
    } else if c == 'Г' {
        Some(seq!['G'])
    } else if c == 'д' {
        Some(seq!['d'])
    } else if c == 'Д' {
        Some(seq!['D'])
    } else if c == 'е' {
        Some(seq!['e'])
    } else if c == 'Е' {
        Some(seq!['E'])
    } else if c == 'ё' {
        Some(seq!['e'])
    } else if c == 'Ё' {
        Some(seq!['E'])
    } else if c == 'ж' {
        Some(seq!['z', 'h'])
    } else if c == 'Ж' {
        Some(seq!['Z', 'h'])
    } else if c == 'з' {
        Some(seq!['z'])
    } else if c == 'З' {
        Some(seq!['Z'])
    } else if c == 'и' {
        Some(seq!['i'])
    } else if c == 'И' {
        Some(seq!['I'])
    } else if c == 'й' {
        Some(seq!['i'])
    } else if c == 'Й' {
        Some(seq!['I'])
    } else if c == 'к' {
        Some(seq!['k'])
    } else if c == 'К' {
        Some(seq!['K'])
    } else if c == 'л' {
        Some(seq!['l'])
    } else if c == 'Л' {
        Some(seq!['L'])
    } else if c == 'м' {
        Some(seq!['m'])
    } else if c == 'М' {
        Some(seq!['M'])
    } else if c == 'н' {
        Some(seq!['n'])
    } else if c == 'Н' {
        Some(seq!['N'])
    } else if c == 'о' {
        Some(seq!['o'])
    } else if c == 'О' {
        Some(seq!['O'])
    } else if c == 'п' {
        Some(seq!['p'])
    } else if c == 'П' {
        Some(seq!['P'])
    } else if c == 'р' {
        Some(seq!['r'])
    } else if c == 'Р' {
        Some(seq!['R'])
    } else if c == 'с' {
        Some(seq!['s'])
    } else if c == 'С' {
        Some(seq!['S'])
    } else if c == 'т' {
        Some(seq!['t'])
    } else if c == 'Т' {
        Some(seq!['T'])
    } else if c == 'у' {
        Some(seq!['u'])
    } else if c == 'У' {
        Some(seq!['U'])
    } else if c == 'ф' {
        Some(seq!['f'])
    } else if c == 'Ф' {
        Some(seq!['F'])
    } else if c == 'х' {
        Some(seq!['k', 'h'])
    } else if c == 'Х' {
        Some(seq!['K', 'h'])
    } else if c == 'ц' {
        Some(seq!['t', 's'])
    } else if c == 'Ц' {
        Some(seq!['T', 's'])
    } else if c == 'ч' {
        Some(seq!['c', 'h'])
    } else if c == 'Ч' {
        Some(seq!['C', 'h'])
    } else if c == 'ш' {
        Some(seq!['s', 'h'])
    } else if c == 'Ш' {
        Some(seq!['S', 'h'])
    } else if c == 'щ' {
        Some(seq!['s', 'h', 'c', 'h'])
    } else if c == 'Щ' {
        Some(seq!['S', 'h', 'c', 'h'])
    } else if c == 'ъ' {
        Some(seq!['i', 'e'])
    } else if c == 'Ъ' {
        Some(seq!['I', 'e'])
    } else if c == 'ы' {
        Some(seq!['y'])
    } else if c == 'Ы' {
        Some(seq!['Y'])
    } else if c == 'ь' {
        Some(Seq::<char>::empty())
    } else if c == 'Ь' {
        Some(Seq::<char>::empty())
    } else if c == 'э' {
        Some(seq!['e'])
    } else if c == 'Э' {
        Some(seq!['E'])
    } else if c == 'ю' {
        Some(seq!['i', 'u'])
    } else if c == 'Ю' {
        Some(seq!['I', 'u'])
    } else if c == 'я' {
        Some(seq!['i', 'a'])
    } else if c == 'Я' {
        Some(seq!['I', 'a'])
    } else {
        None
    }
}

/// Forward lookup, returning the fixed Latin output of the character.
pub fn passport_forward(c: char) -> (r: Option<&'static str>)
    ensures
        (match r {
            Some(t) => passport_fwd_char(c) == Some(t@),
            None => passport_fwd_char(c) is None,
        }),
{
    match c {
        'а' => {
            proof {
                reveal_strlit("a");
                assert(("a")@ =~= seq!['a']);
            }
            Some("a")
        },
        'А' => {
            proof {
                reveal_strlit("A");
                assert(("A")@ =~= seq!['A']);
            }
            Some("A")
        },
        'б' => {
            proof {
                reveal_strlit("b");
                assert(("b")@ =~= seq!['b']);
            }
            Some("b")
        },
        'Б' => {
            proof {
                reveal_strlit("B");
                assert(("B")@ =~= seq!['B']);
            }
            Some("B")
        },
        'в' => {
            proof {
                reveal_strlit("v");
                assert(("v")@ =~= seq!['v']);
            }
            Some("v")
        },
        'В' => {
            proof {
                reveal_strlit("V");
                assert(("V")@ =~= seq!['V']);
            }
            Some("V")
        },
        'г' => {
            proof {
                reveal_strlit("g");
                assert(("g")@ =~= seq!['g']);
            }
            Some("g")
        },
        'Г' => {
            proof {
                reveal_strlit("G");
                assert(("G")@ =~= seq!['G']);
            }
            Some("G")
        },
        'д' => {
            proof {
                reveal_strlit("d");
                assert(("d")@ =~= seq!['d']);
            }
            Some("d")
        },
        'Д' => {
            proof {
                reveal_strlit("D");
                assert(("D")@ =~= seq!['D']);
            }
            Some("D")
        },
        'е' => {
            proof {
                reveal_strlit("e");
                assert(("e")@ =~= seq!['e']);
            }
            Some("e")
        },
        'Е' => {
            proof {
                reveal_strlit("E");
                assert(("E")@ =~= seq!['E']);
            }
            Some("E")
        },
        'ё' => {
            proof {
                reveal_strlit("e");
                assert(("e")@ =~= seq!['e']);
            }
            Some("e")
        },
        'Ё' => {
            proof {
                reveal_strlit("E");
                assert(("E")@ =~= seq!['E']);
            }
            Some("E")
        },
        'ж' => {
            proof {
                reveal_strlit("zh");
                assert(("zh")@ =~= seq!['z', 'h']);
            }
            Some("zh")
        },
        'Ж' => {
            proof {
                reveal_strlit("Zh");
                assert(("Zh")@ =~= seq!['Z', 'h']);
            }
            Some("Zh")
        },
        'з' => {
            proof {
                reveal_strlit("z");
                assert(("z")@ =~= seq!['z']);
            }
            Some("z")
        },
        'З' => {
            proof {
                reveal_strlit("Z");
                assert(("Z")@ =~= seq!['Z']);
            }
            Some("Z")
        },
        'и' => {
            proof {
                reveal_strlit("i");
                assert(("i")@ =~= seq!['i']);
            }
            Some("i")
        },
        'И' => {
            proof {
                reveal_strlit("I");
                assert(("I")@ =~= seq!['I']);
            }
            Some("I")
        },
        'й' => {
            proof {
                reveal_strlit("i");
                assert(("i")@ =~= seq!['i']);
            }
            Some("i")
        },
        'Й' => {
            proof {
                reveal_strlit("I");
                assert(("I")@ =~= seq!['I']);
            }
            Some("I")
        },
        'к' => {
            proof {
                reveal_strlit("k");
                assert(("k")@ =~= seq!['k']);
            }
            Some("k")
        },
        'К' => {
            proof {
                reveal_strlit("K");
                assert(("K")@ =~= seq!['K']);
            }
            Some("K")
        },
        'л' => {
            proof {
                reveal_strlit("l");
                assert(("l")@ =~= seq!['l']);
            }
            Some("l")
        },
        'Л' => {
            proof {
                reveal_strlit("L");
                assert(("L")@ =~= seq!['L']);
            }
            Some("L")
        },
        'м' => {
            proof {
                reveal_strlit("m");
                assert(("m")@ =~= seq!['m']);
            }
            Some("m")
        },
        'М' => {
            proof {
                reveal_strlit("M");
                assert(("M")@ =~= seq!['M']);
            }
            Some("M")
        },
        'н' => {
            proof {
                reveal_strlit("n");
                assert(("n")@ =~= seq!['n']);
            }
            Some("n")
        },
        'Н' => {
            proof {
                reveal_strlit("N");
                assert(("N")@ =~= seq!['N']);
            }
            Some("N")
        },
        'о' => {
            proof {
                reveal_strlit("o");
                assert(("o")@ =~= seq!['o']);
            }
            Some("o")
        },
        'О' => {
            proof {
                reveal_strlit("O");
                assert(("O")@ =~= seq!['O']);
            }
            Some("O")
        },
        'п' => {
            proof {
                reveal_strlit("p");
                assert(("p")@ =~= seq!['p']);
            }
            Some("p")
        },
        'П' => {
            proof {
                reveal_strlit("P");
                assert(("P")@ =~= seq!['P']);
            }
            Some("P")
        },
        'р' => {
            proof {
                reveal_strlit("r");
                assert(("r")@ =~= seq!['r']);
            }
            Some("r")
        },
        'Р' => {
            proof {
                reveal_strlit("R");
                assert(("R")@ =~= seq!['R']);
            }
            Some("R")
        },
        'с' => {
            proof {
                reveal_strlit("s");
                assert(("s")@ =~= seq!['s']);
            }
            Some("s")
        },
        'С' => {
            proof {
                reveal_strlit("S");
                assert(("S")@ =~= seq!['S']);
            }
            Some("S")
        },
        'т' => {
            proof {
                reveal_strlit("t");
                assert(("t")@ =~= seq!['t']);
            }
            Some("t")
        },
        'Т' => {
            proof {
                reveal_strlit("T");
                assert(("T")@ =~= seq!['T']);
            }
            Some("T")
        },
        'у' => {
            proof {
                reveal_strlit("u");
                assert(("u")@ =~= seq!['u']);
            }
            Some("u")
        },
        'У' => {
            proof {
                reveal_strlit("U");
                assert(("U")@ =~= seq!['U']);
            }
            Some("U")
        },
        'ф' => {
            proof {
                reveal_strlit("f");
                assert(("f")@ =~= seq!['f']);
            }
            Some("f")
        },
        'Ф' => {
            proof {
                reveal_strlit("F");
                assert(("F")@ =~= seq!['F']);
            }
            Some("F")
        },
        'х' => {
            proof {
                reveal_strlit("kh");
                assert(("kh")@ =~= seq!['k', 'h']);
            }
            Some("kh")
        },
        'Х' => {
            proof {
                reveal_strlit("Kh");
                assert(("Kh")@ =~= seq!['K', 'h']);
            }
            Some("Kh")
        },
        'ц' => {
            proof {
                reveal_strlit("ts");
                assert(("ts")@ =~= seq!['t', 's']);
            }
            Some("ts")
        },
        'Ц' => {
            proof {
                reveal_strlit("Ts");
                assert(("Ts")@ =~= seq!['T', 's']);
            }
            Some("Ts")
        },
        'ч' => {
            proof {
                reveal_strlit("ch");
                assert(("ch")@ =~= seq!['c', 'h']);
            }
            Some("ch")
        },
        'Ч' => {
            proof {
                reveal_strlit("Ch");
                assert(("Ch")@ =~= seq!['C', 'h']);
            }
            Some("Ch")
        },
        'ш' => {
            proof {
                reveal_strlit("sh");
                assert(("sh")@ =~= seq!['s', 'h']);
            }
            Some("sh")
        },
        'Ш' => {
            proof {
                reveal_strlit("Sh");
                assert(("Sh")@ =~= seq!['S', 'h']);
            }
            Some("Sh")
        },
        'щ' => {
            proof {
                reveal_strlit("shch");
                assert(("shch")@ =~= seq!['s', 'h', 'c', 'h']);
            }
            Some("shch")
        },
        'Щ' => {
            proof {
                reveal_strlit("Shch");
                assert(("Shch")@ =~= seq!['S', 'h', 'c', 'h']);
            }
            Some("Shch")
        },
        'ъ' => {
            proof {
                reveal_strlit("ie");
                assert(("ie")@ =~= seq!['i', 'e']);
            }
            Some("ie")
        },
        'Ъ' => {
            proof {
                reveal_strlit("Ie");
                assert(("Ie")@ =~= seq!['I', 'e']);
            }
            Some("Ie")
        },
        'ы' => {
            proof {
                reveal_strlit("y");
                assert(("y")@ =~= seq!['y']);
            }
            Some("y")
        },
        'Ы' => {
            proof {
                reveal_strlit("Y");
                assert(("Y")@ =~= seq!['Y']);
            }
            Some("Y")
        },
        'ь' => {
            proof {
                reveal_strlit("");
                assert(("")@ =~= Seq::<char>::empty());
            }
            Some("")
        },
        'Ь' => {
            proof {
                reveal_strlit("");
                assert(("")@ =~= Seq::<char>::empty());
            }
            Some("")
        },
        'э' => {
            proof {
                reveal_strlit("e");
                assert(("e")@ =~= seq!['e']);
            }
            Some("e")
        },
        'Э' => {
            proof {
                reveal_strlit("E");
                assert(("E")@ =~= seq!['E']);
            }
            Some("E")
        },
        'ю' => {
            proof {
                reveal_strlit("iu");
                assert(("iu")@ =~= seq!['i', 'u']);
            }
            Some("iu")
        },
        'Ю' => {
            proof {
                reveal_strlit("Iu");
                assert(("Iu")@ =~= seq!['I', 'u']);
            }
            Some("Iu")
        },
        'я' => {
            proof {
                reveal_strlit("ia");
                assert(("ia")@ =~= seq!['i', 'a']);
            }
            Some("ia")
        },
        'Я' => {
            proof {
                reveal_strlit("Ia");
                assert(("Ia")@ =~= seq!['I', 'a']);
            }
            Some("Ia")
        },
        _ => None,
    }
}

} // verus!
