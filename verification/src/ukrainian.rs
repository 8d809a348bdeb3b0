//! The Ukrainian national romanization standard.
//!
//! Unlike the uniform table-driven standards, this one is positional: a
//! letter at the start of a word may map differently from the same letter
//! in the interior, the soft sign is always dropped, an apostrophe is kept
//! only at a word start, and the letter after a preceding sibilant takes an
//! irregular digraph.

use crate::engine::push_char;
use vstd::prelude::*;
use vstd::string::StrSliceExecFns;
use vstd::string::StringExecFns;

verus! {

/// Characters of the Ukrainian alphabet handled by this standard,
/// including the always-elided soft sign.
pub open spec fn ukr_alpha(c: char) -> bool {
    ukr_word_start_char(c) is Some || c == 'ь' || c == 'Ь'
}

/// One left-to-right pass of the positional engine over `s`, starting in
/// the given state: `ws` is true at a word start, `az` is true right
/// after the digraph trigger letter.
///
/// The soft sign is dropped and changes no state.  An apostrophe is kept
/// at a word start and dropped elsewhere, without resetting the state.
/// The trigger letter is substituted normally but arms `az`; the letter
/// it affects then takes the irregular digraph (capitalized only in its
/// first output letter at a word start) and disarms it.  Every other
/// character takes its positional table entry, or is copied unchanged,
/// which resets `ws`.
pub open spec fn ukr_translate(s: Seq<char>, ws: bool, az: bool) -> Seq<char>
    decreases s.len(),
{
    if s.len() == 0 {
        Seq::empty()
    } else {
        let c = s[0];
        let t = s.skip(1);
        if c == 'ь' || c == 'Ь' {
            ukr_translate(t, ws, az)
        } else if c == '’' || c == '\'' {
            if ws {
                seq![c] + ukr_translate(t, true, az)
            } else {
                ukr_translate(t, false, az)
            }
        } else if c == 'г' && az {
            seq!['g', 'h'] + ukr_translate(t, false, false)
        } else if c == 'Г' && az {
            (if ws {
                seq!['G', 'h']
            } else {
                seq!['G', 'H']
            }) + ukr_translate(t, false, false)
        } else {
            let arm = c == 'з' || c == 'З';
            if ws {
                match ukr_word_start_char(c) {
                    Some(w) => w + ukr_translate(t, false, arm),
                    None => seq![c] + ukr_translate(t, true, arm),
                }
            } else {
                match ukr_word_rest_char(c) {
                    Some(w) => w + ukr_translate(t, false, arm),
                    None => seq![c] + ukr_translate(t, true, arm),
                }
            }
        }
    }
}

/// Romanizes a whole text under the Ukrainian national standard.
pub fn translit(input: &str) -> (r: String)
    ensures
        r@ == ukr_translate(input@, true, false),
{
    let n = input.unicode_len();
    let mut out = String::new();
    let mut ws = true;
    let mut az = false;
    let mut i: usize = 0;
    proof {
        assert(input@.skip(0) =~= input@);
        assert(out@ + ukr_translate(input@, true, false) =~= ukr_translate(input@, true, false));
    }
    while i < n
        invariant
            i <= n,
            n == input@.len(),
            ukr_translate(input@, true, false) == out@ + ukr_translate(
                input@.skip(i as int),
                ws,
                az,
            ),
        decreases n - i,
    {
        let c = input.get_char(i);
        let ghost rest = input@.skip(i as int);
        let ghost pre = out@;
        let ghost tail = input@.skip(i as int + 1);
        proof {
            assert(rest[0] == c);
            assert(rest.skip(1) =~= tail);
        }
        if c == 'ь' || c == 'Ь' {
            // the soft sign is never emitted and changes no state
        } else if c == '’' || c == '\'' {
            if ws {
                push_char(&mut out, c);
                proof {
                    assert(pre.push(c) =~= pre + seq![c]);
                    assert((pre + seq![c]) + ukr_translate(tail, true, az) =~= pre + (seq![c]
                        + ukr_translate(tail, true, az)));
                }
            }
        } else if c == 'г' && az {
            push_char(&mut out, 'g');
            push_char(&mut out, 'h');
            proof {
                assert(pre.push('g').push('h') =~= pre + seq!['g', 'h']);
                assert((pre + seq!['g', 'h']) + ukr_translate(tail, false, false) =~= pre + (
                seq!['g', 'h'] + ukr_translate(tail, false, false)));
            }
            ws = false;
            az = false;
        } else if c == 'Г' && az {
            push_char(&mut out, 'G');
            if ws {
                push_char(&mut out, 'h');
                proof {
                    assert(pre.push('G').push('h') =~= pre + seq!['G', 'h']);
                    assert((pre + seq!['G', 'h']) + ukr_translate(tail, false, false) =~= pre + (
                    seq!['G', 'h'] + ukr_translate(tail, false, false)));
                }
            } else {
                push_char(&mut out, 'H');
                proof {
                    assert(pre.push('G').push('H') =~= pre + seq!['G', 'H']);
                    assert((pre + seq!['G', 'H']) + ukr_translate(tail, false, false) =~= pre + (
                    seq!['G', 'H'] + ukr_translate(tail, false, false)));
                }
            }
            ws = false;
            az = false;
        } else {
            let arm = c == 'з' || c == 'З';
            let looked = if ws {
                translit_word_start(c)
            } else {
                translit_word_rest(c)
            };
            match looked {
                Some(t) => {
                    out.append(t);
                    proof {
                        assert((pre + t@) + ukr_translate(tail, false, arm) =~= pre + (t@
                            + ukr_translate(tail, false, arm)));
                    }
                    ws = false;
                },
                None => {
                    push_char(&mut out, c);
                    proof {
                        assert(pre.push(c) =~= pre + seq![c]);
                        assert((pre + seq![c]) + ukr_translate(tail, true, arm) =~= pre + (seq![c]
                            + ukr_translate(tail, true, arm)));
                    }
                    ws = true;
                },
            }
            az = arm;
        }
        i = i + 1;
    }
    proof {
        assert(input@.skip(n as int) =~= Seq::<char>::empty());
    }
    out
}

/// Word-start table of the Ukrainian national standard.
pub open spec fn ukr_word_start_char(c: char) -> Option<Seq<char>> {
    if c == 'а' {
        Some(seq!['a'])
    } else if c == 'А' {
        Some(seq!['A'])
    } else if c == 'б' {
        Some(seq!['b'])
    } else if c == 'Б' {
        Some(seq!['B'])
    } else if c == 'в' {
        Some(seq!['v'])
    } else if c == 'В' {
        Some(seq!['V'])
    } else if c == 'г' {
        Some(seq!['h'])
    } else if c == 'Г' {
        Some(seq!['H'])
    } else if c == 'ґ' {
        Some(seq!['g'])
    } else if c == 'Ґ' {
        Some(seq!['G'])
    } else if c == 'д' {
        Some(seq!['d'])
    } else if c == 'Д' {
        Some(seq!['D'])
    } else if c == 'е' {
        Some(seq!['e'])
    } else if c == 'Е' {
        Some(seq!['E'])
    } else if c == 'є' {
        Some(seq!['y', 'e'])
    } else if c == 'Є' {
        Some(seq!['Y', 'e'])
    } else if c == 'ж' {
        Some(seq!['z', 'h'])
    } else if c == 'Ж' {
        Some(seq!['Z', 'h'])
    } else if c == 'з' {
        Some(seq!['z'])
    } else if c == 'З' {
        Some(seq!['Z'])
    } else if c == 'и' {
        Some(seq!['y'])
    } else if c == 'И' {
        Some(seq!['Y'])
    } else if c == 'і' {
        Some(seq!['i'])
    } else if c == 'І' {
        Some(seq!['I'])
    } else if c == 'ї' {
        Some(seq!['y', 'i'])
    } else if c == 'Ї' {
        Some(seq!['Y', 'i'])
    } else if c == 'й' {
        Some(seq!['y'])
    } else if c == 'Й' {
        Some(seq!['Y'])
    } else if c == 'к' {
        Some(seq!['k'])
    } else if c == 'К' {
        Some(seq!['K'])
    } else if c == 'л' {
        Some(seq!['l'])
    } else if c == 'Л' {
        Some(seq!['L'])
    } else if c == 'м' {
        Some(seq!['m'])
    } else if c == 'М' {
        Some(seq!['M'])
    } else if c == 'н' {
        Some(seq!['n'])
    } else if c == 'Н' {
        Some(seq!['N'])
    } else if c == 'о' {
        Some(seq!['o'])
    } else if c == 'О' {
        Some(seq!['O'])
    } else if c == 'п' {
        Some(seq!['p'])
    } else if c == 'П' {
        Some(seq!['P'])
    } else if c == 'р' {
        Some(seq!['r'])
    } else if c == 'Р' {
        Some(seq!['R'])
    } else if c == 'с' {
        Some(seq!['s'])
    } else if c == 'С' {
        Some(seq!['S'])
    } else if c == 'т' {
        Some(seq!['t'])
    } else if c == 'Т' {
        Some(seq!['T'])
    } else if c == 'у' {
        Some(seq!['u'])
    } else if c == 'У' {
        Some(seq!['U'])
    } else if c == 'ф' {
        Some(seq!['f'])
    } else if c == 'Ф' {
        Some(seq!['F'])
    } else if c == 'х' {
        Some(seq!['k', 'h'])
    } else if c == 'Х' {
        Some(seq!['K', 'h'])
    } else if c == 'ц' {
        Some(seq!['t', 's'])
    } else if c == 'Ц' {
        Some(seq!['T', 's'])
    } else if c == 'ч' {
        Some(seq!['c', 'h'])
    } else if c == 'Ч' {
        Some(seq!['C', 'h'])
    } else if c == 'ш' {
        Some(seq!['s', 'h'])
    } else if c == 'Ш' {
        Some(seq!['S', 'h'])
    } else if c == 'щ' {
        Some(seq!['s', 'h', 'c', 'h'])
    } else if c == 'Щ' {
        Some(seq!['S', 'h', 'c', 'h'])
    } else if c == 'ю' {
        Some(seq!['y', 'u'])
    } else if c == 'Ю' {
        Some(seq!['Y', 'u'])
    } else if c == 'я' {
        Some(seq!['y', 'a'])
    } else if c == 'Я' {
        Some(seq!['Y', 'a'])
    } else {
        None
    }
}

/// Latin output of a character standing at the start of a word, if the
/// character belongs to the Ukrainian alphabet.
pub fn translit_word_start(c: char) -> (r: Option<&'static str>)
    ensures
        (match r {
            Some(t) => ukr_word_start_char(c) == Some(t@),
            None => ukr_word_start_char(c) is None,
        }),
{
    match c {
        'а' => {
            proof {
                reveal_strlit("a");
                assert(("a")@ =~= seq!['a']);
            }
            Some("a")
        },
        'А' => {
            proof {
                reveal_strlit("A");
                assert(("A")@ =~= seq!['A']);
            }
            Some("A")
        },
        'б' => {
            proof {
                reveal_strlit("b");
                assert(("b")@ =~= seq!['b']);
            }
            Some("b")
        },
        'Б' => {
            proof {
                reveal_strlit("B");
                assert(("B")@ =~= seq!['B']);
            }
            Some("B")
        },
        'в' => {
            proof {
                reveal_strlit("v");
                assert(("v")@ =~= seq!['v']);
            }
            Some("v")
        },
        'В' => {
            proof {
                reveal_strlit("V");
                assert(("V")@ =~= seq!['V']);
            }
            Some("V")
        },
        'г' => {
            proof {
                reveal_strlit("h");
                assert(("h")@ =~= seq!['h']);
            }
            Some("h")
        },
        'Г' => {
            proof {
                reveal_strlit("H");
                assert(("H")@ =~= seq!['H']);
            }
            Some("H")
        },
        'ґ' => {
            proof {
                reveal_strlit("g");
                assert(("g")@ =~= seq!['g']);
            }
            Some("g")
        },
        'Ґ' => {
            proof {
                reveal_strlit("G");
                assert(("G")@ =~= seq!['G']);
            }
            Some("G")
        },
        'д' => {
            proof {
                reveal_strlit("d");
                assert(("d")@ =~= seq!['d']);
            }
            Some("d")
        },
        'Д' => {
            proof {
                reveal_strlit("D");
                assert(("D")@ =~= seq!['D']);
            }
            Some("D")
        },
        'е' => {
            proof {
                reveal_strlit("e");
                assert(("e")@ =~= seq!['e']);
            }
            Some("e")
        },
        'Е' => {
            proof {
                reveal_strlit("E");
                assert(("E")@ =~= seq!['E']);
            }
            Some("E")
        },
        'є' => {
            proof {
                reveal_strlit("ye");
                assert(("ye")@ =~= seq!['y', 'e']);
            }
            Some("ye")
        },
        'Є' => {
            proof {
                reveal_strlit("Ye");
                assert(("Ye")@ =~= seq!['Y', 'e']);
            }
            Some("Ye")
        },
        'ж' => {
            proof {
                reveal_strlit("zh");
                assert(("zh")@ =~= seq!['z', 'h']);
            }
            Some("zh")
        },
        'Ж' => {
            proof {
                reveal_strlit("Zh");
                assert(("Zh")@ =~= seq!['Z', 'h']);
            }
            Some("Zh")
        },
        'з' => {
            proof {
                reveal_strlit("z");
                assert(("z")@ =~= seq!['z']);
            }
            Some("z")
        },
        'З' => {
            proof {
                reveal_strlit("Z");
                assert(("Z")@ =~= seq!['Z']);
            }
            Some("Z")
        },
        'и' => {
            proof {
                reveal_strlit("y");
                assert(("y")@ =~= seq!['y']);
            }
            Some("y")
        },
        'И' => {
            proof {
                reveal_strlit("Y");
                assert(("Y")@ =~= seq!['Y']);
            }
            Some("Y")
        },
        'і' => {
            proof {
                reveal_strlit("i");
                assert(("i")@ =~= seq!['i']);
            }
            Some("i")
        },
        'І' => {
            proof {
                reveal_strlit("I");
                assert(("I")@ =~= seq!['I']);
            }
            Some("I")
        },
        'ї' => {
            proof {
                reveal_strlit("yi");
                assert(("yi")@ =~= seq!['y', 'i']);
            }
            Some("yi")
        },
        'Ї' => {
            proof {
                reveal_strlit("Yi");
                assert(("Yi")@ =~= seq!['Y', 'i']);
            }
            Some("Yi")
        },
        'й' => {
            proof {
                reveal_strlit("y");
                assert(("y")@ =~= seq!['y']);
            }
            Some("y")
        },
        'Й' => {
            proof {
                reveal_strlit("Y");
                assert(("Y")@ =~= seq!['Y']);
            }
            Some("Y")
        },
        'к' => {
            proof {
                reveal_strlit("k");
                assert(("k")@ =~= seq!['k']);
            }
            Some("k")
        },
        'К' => {
            proof {
                reveal_strlit("K");
                assert(("K")@ =~= seq!['K']);
            }
            Some("K")
        },
        'л' => {
            proof {
                reveal_strlit("l");
                assert(("l")@ =~= seq!['l']);
            }
            Some("l")
        },
        'Л' => {
            proof {
                reveal_strlit("L");
                assert(("L")@ =~= seq!['L']);
            }
            Some("L")
        },
        'м' => {
            proof {
                reveal_strlit("m");
                assert(("m")@ =~= seq!['m']);
            }
            Some("m")
        },
        'М' => {
            proof {
                reveal_strlit("M");
                assert(("M")@ =~= seq!['M']);
            }
            Some("M")
        },
        'н' => {
            proof {
                reveal_strlit("n");
                assert(("n")@ =~= seq!['n']);
            }
            Some("n")
        },
        'Н' => {
            proof {
                reveal_strlit("N");
                assert(("N")@ =~= seq!['N']);
            }
            Some("N")
        },
        'о' => {
            proof {
                reveal_strlit("o");
                assert(("o")@ =~= seq!['o']);
            }
            Some("o")
        },
        'О' => {
            proof {
                reveal_strlit("O");
                assert(("O")@ =~= seq!['O']);
            }
            Some("O")
        },
        'п' => {
            proof {
                reveal_strlit("p");
                assert(("p")@ =~= seq!['p']);
            }
            Some("p")
        },
        'П' => {
            proof {
                reveal_strlit("P");
                assert(("P")@ =~= seq!['P']);
            }
            Some("P")
        },
        'р' => {
            proof {
                reveal_strlit("r");
                assert(("r")@ =~= seq!['r']);
            }
            Some("r")
        },
        'Р' => {
            proof {
                reveal_strlit("R");
                assert(("R")@ =~= seq!['R']);
            }
            Some("R")
        },
        'с' => {
            proof {
                reveal_strlit("s");
                assert(("s")@ =~= seq!['s']);
            }
            Some("s")
        },
        'С' => {
            proof {
                reveal_strlit("S");
                assert(("S")@ =~= seq!['S']);
            }
            Some("S")
        },
        'т' => {
            proof {
                reveal_strlit("t");
                assert(("t")@ =~= seq!['t']);
            }
            Some("t")
        },
        'Т' => {
            proof {
                reveal_strlit("T");
                assert(("T")@ =~= seq!['T']);
            }
            Some("T")
        },
        'у' => {
            proof {
                reveal_strlit("u");
                assert(("u")@ =~= seq!['u']);
            }
            Some("u")
        },
        'У' => {
            proof {
                reveal_strlit("U");
                assert(("U")@ =~= seq!['U']);
            }
            Some("U")
        },
        'ф' => {
            proof {
                reveal_strlit("f");
                assert(("f")@ =~= seq!['f']);
            }
            Some("f")
        },
        'Ф' => {
            proof {
                reveal_strlit("F");
                assert(("F")@ =~= seq!['F']);
            }
            Some("F")
        },
        'х' => {
            proof {
                reveal_strlit("kh");
                assert(("kh")@ =~= seq!['k', 'h']);
            }
            Some("kh")
        },
        'Х' => {
            proof {
                reveal_strlit("Kh");
                assert(("Kh")@ =~= seq!['K', 'h']);
            }
            Some("Kh")
        },
        'ц' => {
            proof {
                reveal_strlit("ts");
                assert(("ts")@ =~= seq!['t', 's']);
            }
            Some("ts")
        },
        'Ц' => {
            proof {
                reveal_strlit("Ts");
                assert(("Ts")@ =~= seq!['T', 's']);
            }
            Some("Ts")
        },
        'ч' => {
            proof {
                reveal_strlit("ch");
                assert(("ch")@ =~= seq!['c', 'h']);
            }
            Some("ch")
        },
        'Ч' => {
            proof {
                reveal_strlit("Ch");
                assert(("Ch")@ =~= seq!['C', 'h']);
            }
            Some("Ch")
        },
        'ш' => {
            proof {
                reveal_strlit("sh");
                assert(("sh")@ =~= seq!['s', 'h']);
            }
            Some("sh")
        },
        'Ш' => {
            proof {
                reveal_strlit("Sh");
                assert(("Sh")@ =~= seq!['S', 'h']);
            }
            Some("Sh")
        },
        'щ' => {
            proof {
                reveal_strlit("shch");
                assert(("shch")@ =~= seq!['s', 'h', 'c', 'h']);
            }
            Some("shch")
        },
        'Щ' => {
            proof {
                reveal_strlit("Shch");
                assert(("Shch")@ =~= seq!['S', 'h', 'c', 'h']);
            }
            Some("Shch")
        },
        'ю' => {
            proof {
                reveal_strlit("yu");
                assert(("yu")@ =~= seq!['y', 'u']);
            }
            Some("yu")
        },
        'Ю' => {
            proof {
                reveal_strlit("Yu");
                assert(("Yu")@ =~= seq!['Y', 'u']);
            }
            Some("Yu")
        },
        'я' => {
            proof {
                reveal_strlit("ya");
                assert(("ya")@ =~= seq!['y', 'a']);
            }
            Some("ya")
        },
        'Я' => {
            proof {
                reveal_strlit("Ya");
                assert(("Ya")@ =~= seq!['Y', 'a']);
            }
            Some("Ya")
        },
        _ => None,
    }
}

/// Word-interior table of the Ukrainian national standard.
pub open spec fn ukr_word_rest_char(c: char) -> Option<Seq<char>> {
    if c == 'а' {
        Some(seq!['a'])
    } else if c == 'А' {
        Some(seq!['A'])
    } else if c == 'б' {
        Some(seq!['b'])
    } else if c == 'Б' {
        Some(seq!['B'])
    } else if c == 'в' {
        Some(seq!['v'])
    } else if c == 'В' {
        Some(seq!['V'])
    } else if c == 'г' {
        Some(seq!['h'])
    } else if c == 'Г' {
        Some(seq!['H'])
    } else if c == 'ґ' {
        Some(seq!['g'])
    } else if c == 'Ґ' {
        Some(seq!['G'])
    } else if c == 'д' {
        Some(seq!['d'])
    } else if c == 'Д' {
        Some(seq!['D'])
    } else if c == 'е' {
        Some(seq!['e'])
    } else if c == 'Е' {
        Some(seq!['E'])
    } else if c == 'є' {
        Some(seq!['i', 'e'])
    } else if c == 'Є' {
        Some(seq!['I', 'E'])
    } else if c == 'ж' {
        Some(seq!['z', 'h'])
    } else if c == 'Ж' {
        Some(seq!['Z', 'H'])
    } else if c == 'з' {
        Some(seq!['z'])
    } else if c == 'З' {
        Some(seq!['Z'])
    } else if c == 'и' {
        Some(seq!['y'])
    } else if c == 'И' {
        Some(seq!['Y'])
    } else if c == 'і' {
        Some(seq!['i'])
    } else if c == 'І' {
        Some(seq!['I'])
    } else if c == 'ї' {
        Some(seq!['i'])
    } else if c == 'Ї' {
        Some(seq!['I'])
    } else if c == 'й' {
        Some(seq!['i'])
    } else if c == 'Й' {
        Some(seq!['I'])
    } else if c == 'к' {
        Some(seq!['k'])
    } else if c == 'К' {
        Some(seq!['K'])
    } else if c == 'л' {
        Some(seq!['l'])
    } else if c == 'Л' {
        Some(seq!['L'])
    } else if c == 'м' {
        Some(seq!['m'])
    } else if c == 'М' {
        Some(seq!['M'])
    } else if c == 'н' {
        Some(seq!['n'])
    } else if c == 'Н' {
        Some(seq!['N'])
    } else if c == 'о' {
        Some(seq!['o'])
    } else if c == 'О' {
        Some(seq!['O'])
    } else if c == 'п' {
        Some(seq!['p'])
    } else if c == 'П' {
        Some(seq!['P'])
    } else if c == 'р' {
        Some(seq!['r'])
    } else if c == 'Р' {
        Some(seq!['R'])
    } else if c == 'с' {
        Some(seq!['s'])
    } else if c == 'С' {
        Some(seq!['S'])
    } else if c == 'т' {
        Some(seq!['t'])
    } else if c == 'Т' {
        Some(seq!['T'])
    } else if c == 'у' {
        Some(seq!['u'])
    } else if c == 'У' {
        Some(seq!['U'])
    } else if c == 'ф' {
        Some(seq!['f'])
    } else if c == 'Ф' {
        Some(seq!['F'])
    } else if c == 'х' {
        Some(seq!['k', 'h'])
    } else if c == 'Х' {
        Some(seq!['K', 'H'])
    } else if c == 'ц' {
        Some(seq!['t', 's'])
    } else if c == 'Ц' {
        Some(seq!['T', 'S'])
    } else if c == 'ч' {
        Some(seq!['c', 'h'])
    } else if c == 'Ч' {
        Some(seq!['C', 'H'])
    } else if c == 'ш' {
        Some(seq!['s', 'h'])
    } else if c == 'Ш' {
        Some(seq!['S', 'H'])
    } else if c == 'щ' {
        Some(seq!['s', 'h', 'c', 'h'])
    } else if c == 'Щ' {
        Some(seq!['S', 'H', 'C', 'H'])
    } else if c == 'ю' {
        Some(seq!['i', 'u'])
    } else if c == 'Ю' {
        Some(seq!['I', 'U'])
    } else if c == 'я' {
        Some(seq!['i', 'a'])
    } else if c == 'Я' {
        Some(seq!['I', 'A'])
    } else {
        None
    }
}

/// Latin output of a character standing in the interior of a word, if the
/// character belongs to the Ukrainian alphabet.
pub fn translit_word_rest(c: char) -> (r: Option<&'static str>)
    ensures
        (match r {
            Some(t) => ukr_word_rest_char(c) == Some(t@),
            None => ukr_word_rest_char(c) is None,
        }),
{
    match c {
        'а' => {
            proof {
                reveal_strlit("a");
                assert(("a")@ =~= seq!['a']);
            }
            Some("a")
        },
        'А' => {
            proof {
                reveal_strlit("A");
                assert(("A")@ =~= seq!['A']);
            }
            Some("A")
        },
        'б' => {
            proof {
                reveal_strlit("b");
                assert(("b")@ =~= seq!['b']);
            }
            Some("b")
        },
        'Б' => {
            proof {
                reveal_strlit("B");
                assert(("B")@ =~= seq!['B']);
            }
            Some("B")
        },
        'в' => {
            proof {
                reveal_strlit("v");
                assert(("v")@ =~= seq!['v']);
            }
            Some("v")
        },
        'В' => {
            proof {
                reveal_strlit("V");
                assert(("V")@ =~= seq!['V']);
            }
            Some("V")
        },
        'г' => {
            proof {
                reveal_strlit("h");
                assert(("h")@ =~= seq!['h']);
            }
            Some("h")
        },
        'Г' => {
            proof {
                reveal_strlit("H");
                assert(("H")@ =~= seq!['H']);
            }
            Some("H")
        },
        'ґ' => {
            proof {
                reveal_strlit("g");
                assert(("g")@ =~= seq!['g']);
            }
            Some("g")
        },
        'Ґ' => {
            proof {
                reveal_strlit("G");
                assert(("G")@ =~= seq!['G']);
            }
            Some("G")
        },
        'д' => {
            proof {
                reveal_strlit("d");
                assert(("d")@ =~= seq!['d']);
            }
            Some("d")
        },
        'Д' => {
            proof {
                reveal_strlit("D");
                assert(("D")@ =~= seq!['D']);
            }
            Some("D")
        },
        'е' => {
            proof {
                reveal_strlit("e");
                assert(("e")@ =~= seq!['e']);
            }
            Some("e")
        },
        'Е' => {
            proof {
                reveal_strlit("E");
                assert(("E")@ =~= seq!['E']);
            }
            Some("E")
        },
        'є' => {
            proof {
                reveal_strlit("ie");
                assert(("ie")@ =~= seq!['i', 'e']);
            }
            Some("ie")
        },
        'Є' => {
            proof {
                reveal_strlit("IE");
                assert(("IE")@ =~= seq!['I', 'E']);
            }
            Some("IE")
        },
        'ж' => {
            proof {
                reveal_strlit("zh");
                assert(("zh")@ =~= seq!['z', 'h']);
            }
            Some("zh")
        },
        'Ж' => {
            proof {
                reveal_strlit("ZH");
                assert(("ZH")@ =~= seq!['Z', 'H']);
            }
            Some("ZH")
        },
        'з' => {
            proof {
                reveal_strlit("z");
                assert(("z")@ =~= seq!['z']);
            }
            Some("z")
        },
        'З' => {
            proof {
                reveal_strlit("Z");
                assert(("Z")@ =~= seq!['Z']);
            }
            Some("Z")
        },
        'и' => {
            proof {
                reveal_strlit("y");
                assert(("y")@ =~= seq!['y']);
            }
            Some("y")
        },
        'И' => {
            proof {
                reveal_strlit("Y");
                assert(("Y")@ =~= seq!['Y']);
            }
            Some("Y")
        },
        'і' => {
            proof {
                reveal_strlit("i");
                assert(("i")@ =~= seq!['i']);
            }
            Some("i")
        },
        'І' => {
            proof {
                reveal_strlit("I");
                assert(("I")@ =~= seq!['I']);
            }
            Some("I")
        },
        'ї' => {
            proof {
                reveal_strlit("i");
                assert(("i")@ =~= seq!['i']);
            }
            Some("i")
        },
        'Ї' => {
            proof {
                reveal_strlit("I");
                assert(("I")@ =~= seq!['I']);
            }
            Some("I")
        },
        'й' => {
            proof {
                reveal_strlit("i");
                assert(("i")@ =~= seq!['i']);
            }
            Some("i")
        },
        'Й' => {
            proof {
                reveal_strlit("I");
                assert(("I")@ =~= seq!['I']);
            }
            Some("I")
        },
        'к' => {
            proof {
                reveal_strlit("k");
                assert(("k")@ =~= seq!['k']);
            }
            Some("k")
        },
        'К' => {
            proof {
                reveal_strlit("K");
                assert(("K")@ =~= seq!['K']);
            }
            Some("K")
        },
        'л' => {
            proof {
                reveal_strlit("l");
                assert(("l")@ =~= seq!['l']);
            }
            Some("l")
        },
        'Л' => {
            proof {
                reveal_strlit("L");
                assert(("L")@ =~= seq!['L']);
            }
            Some("L")
        },
        'м' => {
            proof {
                reveal_strlit("m");
                assert(("m")@ =~= seq!['m']);
            }
            Some("m")
        },
        'М' => {
            proof {
                reveal_strlit("M");
                assert(("M")@ =~= seq!['M']);
            }
            Some("M")
        },
        'н' => {
            proof {
                reveal_strlit("n");
                assert(("n")@ =~= seq!['n']);
            }
            Some("n")
        },
        'Н' => {
            proof {
                reveal_strlit("N");
                assert(("N")@ =~= seq!['N']);
            }
            Some("N")
        },
        'о' => {
            proof {
                reveal_strlit("o");
                assert(("o")@ =~= seq!['o']);
            }
            Some("o")
        },
        'О' => {
            proof {
                reveal_strlit("O");
                assert(("O")@ =~= seq!['O']);
            }
            Some("O")
        },
        'п' => {
            proof {
                reveal_strlit("p");
                assert(("p")@ =~= seq!['p']);
            }
            Some("p")
        },
        'П' => {
            proof {
                reveal_strlit("P");
                assert(("P")@ =~= seq!['P']);
            }
            Some("P")
        },
        'р' => {
            proof {
                reveal_strlit("r");
                assert(("r")@ =~= seq!['r']);
            }
            Some("r")
        },
        'Р' => {
            proof {
                reveal_strlit("R");
                assert(("R")@ =~= seq!['R']);
            }
            Some("R")
        },
        'с' => {
            proof {
                reveal_strlit("s");
                assert(("s")@ =~= seq!['s']);
            }
            Some("s")
        },
        'С' => {
            proof {
                reveal_strlit("S");
                assert(("S")@ =~= seq!['S']);
            }
            Some("S")
        },
        'т' => {
            proof {
                reveal_strlit("t");
                assert(("t")@ =~= seq!['t']);
            }
            Some("t")
        },
        'Т' => {
            proof {
                reveal_strlit("T");
                assert(("T")@ =~= seq!['T']);
            }
            Some("T")
        },
        'у' => {
            proof {
                reveal_strlit("u");
                assert(("u")@ =~= seq!['u']);
            }
            Some("u")
        },
        'У' => {
            proof {
                reveal_strlit("U");
                assert(("U")@ =~= seq!['U']);
            }
            Some("U")
        },
        'ф' => {
            proof {
                reveal_strlit("f");
                assert(("f")@ =~= seq!['f']);
            }
            Some("f")
        },
        'Ф' => {
            proof {
                reveal_strlit("F");
                assert(("F")@ =~= seq!['F']);
            }
            Some("F")
        },
        'х' => {
            proof {
                reveal_strlit("kh");
                assert(("kh")@ =~= seq!['k', 'h']);
            }
            Some("kh")
        },
        'Х' => {
            proof {
                reveal_strlit("KH");
                assert(("KH")@ =~= seq!['K', 'H']);
            }
            Some("KH")
        },
        'ц' => {
            proof {
                reveal_strlit("ts");
                assert(("ts")@ =~= seq!['t', 's']);
            }
            Some("ts")
        },
        'Ц' => {
            proof {
                reveal_strlit("TS");
                assert(("TS")@ =~= seq!['T', 'S']);
            }
            Some("TS")
        },
        'ч' => {
            proof {
                reveal_strlit("ch");
                assert(("ch")@ =~= seq!['c', 'h']);
            }
            Some("ch")
        },
        'Ч' => {
            proof {
                reveal_strlit("CH");
                assert(("CH")@ =~= seq!['C', 'H']);
            }
            Some("CH")
        },
        'ш' => {
            proof {
                reveal_strlit("sh");
                assert(("sh")@ =~= seq!['s', 'h']);
            }
            Some("sh")
        },
        'Ш' => {
            proof {
                reveal_strlit("SH");
                assert(("SH")@ =~= seq!['S', 'H']);
            }
            Some("SH")
        },
        'щ' => {
            proof {
                reveal_strlit("shch");
                assert(("shch")@ =~= seq!['s', 'h', 'c', 'h']);
            }
            Some("shch")
        },
        'Щ' => {
            proof {
                reveal_strlit("SHCH");
                assert(("SHCH")@ =~= seq!['S', 'H', 'C', 'H']);
            }
            Some("SHCH")
        },
        'ю' => {
            proof {
                reveal_strlit("iu");
                assert(("iu")@ =~= seq!['i', 'u']);
            }
            Some("iu")
        },
        'Ю' => {
            proof {
                reveal_strlit("IU");
                assert(("IU")@ =~= seq!['I', 'U']);
            }
            Some("IU")
        },
        'я' => {
            proof {
                reveal_strlit("ia");
                assert(("ia")@ =~= seq!['i', 'a']);
            }
            Some("ia")
        },
        'Я' => {
            proof {
                reveal_strlit("IA");
                assert(("IA")@ =~= seq!['I', 'A']);
            }
            Some("IA")
        },
        _ => None,
    }
}

} // verus!
