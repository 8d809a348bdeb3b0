//! The laws the library states about its conversions: identity on text
//! outside a standard's alphabet, exactness of the round trip for the
//! reversible standards, and the positional rules of the Ukrainian
//! national standard.

use crate::engine::fwd_char;
use crate::engine::fwd_out;
use crate::engine::fwd_translate;
use crate::engine::rev_key1;
use crate::engine::rev_key2;
use crate::engine::rev_key3;
use crate::engine::rev_translate;
use crate::gost_by;
use crate::gost_ru;
use crate::gost_ua;
use crate::spec_has_reverse;
use crate::ukrainian::ukr_alpha;
use crate::ukrainian::ukr_translate;
use crate::ukrainian::ukr_word_rest_char;
use crate::ukrainian::ukr_word_start_char;
use crate::TranslitMethod;
use vstd::prelude::*;

verus! {

/// A character that can occur inside a reverse-table key: the Latin
/// letters and the backtick.
pub open spec fn latin_key_char(c: char) -> bool {
    ('a' as int <= c as int && c as int <= 'z' as int) || ('A' as int <= c as int && c as int
        <= 'Z' as int) || c == '`'
}

/// Every reverse key starts with a Latin letter or a backtick, under
/// every standard.
pub proof fn lemma_key_chars(m: TranslitMethod)
    ensures
        forall|a: char| #[trigger] rev_key1(m, a) is Some ==> latin_key_char(a),
        forall|a: char, b: char| #[trigger] rev_key2(m, a, b) is Some ==> latin_key_char(a),
        forall|a: char, b: char, c: char| #[trigger] rev_key3(m, a, b, c) is Some
            ==> latin_key_char(a),
{
}

/// Identity on out-of-alphabet input: a text with no character of the
/// standard's source alphabet is returned unchanged by the forward pass.
pub proof fn lemma_identity_forward(m: TranslitMethod, s: Seq<char>)
    requires
        forall|i: int| 0 <= i < s.len() ==> fwd_char(m, #[trigger] s[i]) is None,
    ensures
        fwd_translate(m, s) == s,
    decreases s.len(),
{
    if s.len() == 0 {
        assert(fwd_translate(m, s) =~= s);
    } else {
        let t = s.skip(1);
        assert forall|i: int| 0 <= i < t.len() implies fwd_char(m, #[trigger] t[i]) is None by {
            assert(t[i] == s[i + 1]);
        }
        lemma_identity_forward(m, t);
        assert(s[0] == s.index(0));
        assert(fwd_out(m, s[0]) == seq![s[0]]);
        assert(seq![s[0]] + t =~= s);
    }
}

/// Identity on out-of-alphabet input for the reverse pass: a text with no
/// Latin letter and no backtick is returned unchanged.
pub proof fn lemma_identity_reverse(m: TranslitMethod, s: Seq<char>)
    requires
        forall|i: int| 0 <= i < s.len() ==> !latin_key_char(#[trigger] s[i]),
    ensures
        rev_translate(m, s) == s,
    decreases s.len(),
{
    lemma_key_chars(m);
    if s.len() == 0 {
        assert(rev_translate(m, s) =~= s);
    } else {
        let t = s.skip(1);
        assert forall|i: int| 0 <= i < t.len() implies !latin_key_char(#[trigger] t[i]) by {
            assert(t[i] == s[i + 1]);
        }
        lemma_identity_reverse(m, t);
        assert(!latin_key_char(s[0]));
        assert(rev_translate(m, s) == seq![s[0]] + t);
        assert(seq![s[0]] + t =~= s);
    }
}

/// Empty input converts to empty output, in both directions, for every
/// standard.
pub proof fn lemma_empty_input(m: TranslitMethod)
    ensures
        fwd_translate(m, Seq::empty()) == Seq::<char>::empty(),
        rev_translate(m, Seq::empty()) == Seq::<char>::empty(),
{
}

/// Empty input gives empty output under the Ukrainian national standard,
/// from any engine state.
pub proof fn lemma_empty_input_ukrainian(ws: bool, az: bool)
    ensures
        ukr_translate(Seq::empty(), ws, az) == Seq::<char>::empty(),
{
}

/// Identity on out-of-alphabet input for the Ukrainian national
/// standard: with no letter of its alphabet in the text, every character
/// (apostrophes included, which stand at word starts throughout) is kept.
pub proof fn lemma_identity_ukrainian(s: Seq<char>)
    requires
        forall|i: int| 0 <= i < s.len() ==> !ukr_alpha(#[trigger] s[i]),
    ensures
        ukr_translate(s, true, false) == s,
    decreases s.len(),
{
    if s.len() == 0 {
        assert(ukr_translate(s, true, false) =~= s);
    } else {
        let t = s.skip(1);
        assert forall|i: int| 0 <= i < t.len() implies !ukr_alpha(#[trigger] t[i]) by {
            assert(t[i] == s[i + 1]);
        }
        lemma_identity_ukrainian(t);
        assert(!ukr_alpha(s[0]));
        assert(ukr_translate(s, true, false) == seq![s[0]] + ukr_translate(t, true, false));
        assert(seq![s[0]] + t =~= s);
    }
}

/// Positional sensitivity: a letter of the Ukrainian alphabet takes its
/// word-start table entry at a word start and its word-interior entry
/// elsewhere, with the trigger letters arming the digraph state.
pub proof fn lemma_positional_ukrainian(c: char, t: Seq<char>)
    requires
        ukr_word_start_char(c) is Some,
        ukr_word_rest_char(c) is Some,
    ensures
        ukr_translate(seq![c] + t, true, false) == ukr_word_start_char(c)->0 + ukr_translate(
            t,
            false,
            c == 'з' || c == 'З',
        ),
        ukr_translate(seq![c] + t, false, false) == ukr_word_rest_char(c)->0 + ukr_translate(
            t,
            false,
            c == 'з' || c == 'З',
        ),
{
    assert((seq![c] + t)[0] == c);
    assert((seq![c] + t).skip(1) =~= t);
}

/// Digraph exception: right after a trigger letter, the affected letter
/// takes the irregular digraph instead of its table entry, and disarms
/// the state.
pub proof fn lemma_digraph_trigger(t: Seq<char>, ws: bool, az: bool)
    ensures
        ukr_translate(seq!['з', 'г'] + t, ws, az) == seq!['z', 'g', 'h'] + ukr_translate(
            t,
            false,
            false,
        ),
{
    let s = seq!['з', 'г'] + t;
    assert(s[0] == 'з');
    assert(s.skip(1) =~= seq!['г'] + t);
    assert((seq!['г'] + t)[0] == 'г');
    assert((seq!['г'] + t).skip(1) =~= t);
    assert(ukr_translate(seq!['г'] + t, false, true) == seq!['g', 'h'] + ukr_translate(
        t,
        false,
        false,
    ));
    assert(ukr_translate(s, ws, az) == seq!['z'] + ukr_translate(seq!['г'] + t, false, true));
    assert(seq!['z'] + (seq!['g', 'h'] + ukr_translate(t, false, false)) =~= seq!['z', 'g', 'h']
        + ukr_translate(t, false, false));
}

/// Control for the digraph exception: the same letter without the
/// trigger before it takes its regular table entry.
pub proof fn lemma_digraph_control(t: Seq<char>, ws: bool)
    ensures
        ukr_translate(seq!['г'] + t, ws, false) == seq!['h'] + ukr_translate(t, false, false),
{
    assert((seq!['г'] + t)[0] == 'г');
    assert((seq!['г'] + t).skip(1) =~= t);
}

/// Elision: a soft sign is always dropped from the output and affects
/// neither the word-boundary state nor the digraph state, wherever it
/// stands.
pub proof fn lemma_soft_sign_elided(s1: Seq<char>, s2: Seq<char>, c: char, ws: bool, az: bool)
    requires
        c == 'ь' || c == 'Ь',
    ensures
        ukr_translate(s1 + seq![c] + s2, ws, az) == ukr_translate(s1 + s2, ws, az),
    decreases s1.len(),
{
    if s1.len() == 0 {
        assert(s1 + seq![c] + s2 =~= seq![c] + s2);
        assert((seq![c] + s2)[0] == c);
        assert((seq![c] + s2).skip(1) =~= s2);
        assert(s1 + s2 =~= s2);
    } else {
        let d = s1[0];
        let r1 = s1.skip(1);
        assert((s1 + seq![c] + s2)[0] == d);
        assert((s1 + seq![c] + s2).skip(1) =~= r1 + seq![c] + s2);
        assert((s1 + s2)[0] == d);
        assert((s1 + s2).skip(1) =~= r1 + s2);
        if d == 'ь' || d == 'Ь' {
            lemma_soft_sign_elided(r1, s2, c, ws, az);
        } else if d == '’' || d == '\'' {
            if ws {
                lemma_soft_sign_elided(r1, s2, c, true, az);
            } else {
                lemma_soft_sign_elided(r1, s2, c, false, az);
            }
        } else if (d == 'г' || d == 'Г') && az {
            lemma_soft_sign_elided(r1, s2, c, false, false);
        } else {
            let arm = d == 'з' || d == 'З';
            if ws {
                if ukr_word_start_char(d) is Some {
                    lemma_soft_sign_elided(r1, s2, c, false, arm);
                } else {
                    lemma_soft_sign_elided(r1, s2, c, true, arm);
                }
            } else {
                if ukr_word_rest_char(d) is Some {
                    lemma_soft_sign_elided(r1, s2, c, false, arm);
                } else {
                    lemma_soft_sign_elided(r1, s2, c, true, arm);
                }
            }
        }
    }
}

/// Apostrophe handling: kept as a literal at a word start without ending
/// the word start, dropped elsewhere without resetting the state.
pub proof fn lemma_apostrophe(c: char, t: Seq<char>, az: bool)
    requires
        c == '’' || c == '\'',
    ensures
        ukr_translate(seq![c] + t, true, az) == seq![c] + ukr_translate(t, true, az),
        ukr_translate(seq![c] + t, false, az) == ukr_translate(t, false, az),
{
    assert((seq![c] + t)[0] == c);
    assert((seq![c] + t).skip(1) =~= t);
}

/// A character with no table entry that both passes copy unchanged: it
/// is outside the standard's alphabet and can be no part of a reverse
/// key.  Spaces, digits, punctuation and dashes all qualify.
pub open spec fn neutral_char(m: TranslitMethod, c: char) -> bool {
    fwd_char(m, c) is None && !latin_key_char(c)
}

/// A Russian character whose Latin output reverses to it exactly.  The
/// capital soft and hard signs share their output with the small ones,
/// so only the small ones reverse exactly.
pub open spec fn ru_exact_char(c: char) -> bool {
    gost_ru::ru_fwd_char(c) is Some && c != 'Ь' && c != 'Ъ'
}

/// Adjacent Russian characters whose Latin outputs the longest-key scan
/// cannot merge: a soft or hard sign (whose output starts with a
/// backtick) may not directly follow a letter whose output is `e`, `E`
/// or a lone backtick, else the scan would read the pair as one key.
pub open spec fn ru_pair_ok(c1: char, c2: char) -> bool {
    !((c1 == 'е' || c1 == 'Е' || c1 == 'ь') && (c2 == 'ь' || c2 == 'ъ'))
}

/// Input on which the Russian round trip is exact: every character
/// either reverses exactly or is neutral, and no adjacent pair merges.
pub open spec fn ru_reversible_input(s: Seq<char>) -> bool {
    let m = TranslitMethod::gost779b_ru;
    (forall|i: int|
        0 <= i < s.len() ==> ru_exact_char(#[trigger] s[i]) || neutral_char(m, s[i])) && (forall|
        i: int,
    |
        0 <= i && i + 1 < s.len() ==> ru_pair_ok(#[trigger] s[i], s[i + 1]))
}

/// What the Latin text of a reversible Russian input can start with:
/// never an `h`, and a backtick only for a soft or hard sign.
proof fn lemma_ru_head(s: Seq<char>)
    requires
        ru_reversible_input(s),
        s.len() > 0,
    ensures
        fwd_translate(TranslitMethod::gost779b_ru, s).len() > 0,
        fwd_translate(TranslitMethod::gost779b_ru, s)[0] != 'h',
        fwd_translate(TranslitMethod::gost779b_ru, s)[0] == '`' ==> s[0] == 'ь' || s[0] == 'ъ',
{
    let m = TranslitMethod::gost779b_ru;
    let c = s[0];
    assert(ru_exact_char(c) || neutral_char(m, c));
    assert(fwd_translate(m, s) == fwd_out(m, c) + fwd_translate(m, s.skip(1)));
    assert(fwd_out(m, c).len() > 0);
    assert(fwd_translate(m, s)[0] == fwd_out(m, c)[0]);
}

/// One step of the Russian round trip: the longest-key scan takes back
/// exactly the output of the first character.
proof fn lemma_ru_step(c: char, s1: Seq<char>)
    requires
        ru_exact_char(c) || neutral_char(TranslitMethod::gost779b_ru, c),
        ru_reversible_input(s1),
        s1.len() > 0 ==> ru_pair_ok(c, s1[0]),
    ensures
        rev_translate(
            TranslitMethod::gost779b_ru,
            fwd_out(TranslitMethod::gost779b_ru, c) + fwd_translate(
                TranslitMethod::gost779b_ru,
                s1,
            ),
        ) == seq![c] + rev_translate(
            TranslitMethod::gost779b_ru,
            fwd_translate(TranslitMethod::gost779b_ru, s1),
        ),
{
    let m = TranslitMethod::gost779b_ru;
    let w = fwd_out(m, c);
    let t = fwd_translate(m, s1);
    let u = w + t;
    if s1.len() > 0 {
        lemma_ru_head(s1);
    } else {
        assert(t =~= Seq::<char>::empty());
    }
    lemma_key_chars(m);
    assert(u.len() == w.len() + t.len());
    assert(forall|j: int| 0 <= j < w.len() ==> u[j] == w[j]);
    assert(forall|j: int| w.len() <= j < u.len() ==> u[j] == t[j - w.len()]);
    assert(u.skip(w.len() as int) =~= t);
    assert(rev_translate(m, u) == seq![c] + rev_translate(m, t));
}

/// Round-trip exactness for the Russian standard: converting to Latin
/// and back returns the input unchanged, for every reversible input.
pub proof fn lemma_ru_round_trip(s: Seq<char>)
    requires
        ru_reversible_input(s),
    ensures
        rev_translate(
            TranslitMethod::gost779b_ru,
            fwd_translate(TranslitMethod::gost779b_ru, s),
        ) == s,
    decreases s.len(),
{
    let m = TranslitMethod::gost779b_ru;
    if s.len() == 0 {
        assert(fwd_translate(m, s) =~= Seq::<char>::empty());
        assert(rev_translate(m, fwd_translate(m, s)) =~= s);
    } else {
        let t = s.skip(1);
        assert forall|i: int|
            0 <= i < t.len() implies ru_exact_char(#[trigger] t[i]) || neutral_char(m, t[i]) by {
            assert(t[i] == s[i + 1]);
        }
        assert forall|i: int| 0 <= i && i + 1 < t.len() implies ru_pair_ok(
            #[trigger] t[i],
            t[i + 1],
        ) by {
            assert(t[i] == s[i + 1]);
            assert(t[i + 1] == s[i + 2]);
        }
        if t.len() > 0 {
            assert(t[0] == s[1]);
            assert(ru_pair_ok(s[0], s[1]));
        }
        lemma_ru_step(s[0], t);
        lemma_ru_round_trip(t);
        assert(fwd_translate(m, s) == fwd_out(m, s[0]) + fwd_translate(m, t));
        assert(seq![s[0]] + t =~= s);
    }
}

/// A Belarusian character whose Latin output reverses to it exactly.
/// The capital soft sign shares its output with the small one, so only
/// the small one reverses exactly.
pub open spec fn by_exact_char(c: char) -> bool {
    gost_by::by_fwd_char(c) is Some && c != 'Ь'
}

/// Adjacent Belarusian characters whose Latin outputs the longest-key
/// scan cannot merge: a soft sign may not directly follow a letter whose
/// output is `e`, `E`, `u` or `U`, and the letter with output `h` may
/// not directly follow one whose output is `z`, `s`, `c` or a capital of
/// those.
pub open spec fn by_pair_ok(c1: char, c2: char) -> bool {
    !((c1 == 'е' || c1 == 'Е' || c1 == 'у' || c1 == 'У') && c2 == 'ь') && !((c1 == 'з' || c1 == 'З'
        || c1 == 'с' || c1 == 'С' || c1 == 'ц' || c1 == 'Ц') && c2 == 'г')
}

/// Input on which the Belarusian round trip is exact.
pub open spec fn by_reversible_input(s: Seq<char>) -> bool {
    let m = TranslitMethod::gost779b_by;
    (forall|i: int|
        0 <= i < s.len() ==> by_exact_char(#[trigger] s[i]) || neutral_char(m, s[i])) && (forall|
        i: int,
    |
        0 <= i && i + 1 < s.len() ==> by_pair_ok(#[trigger] s[i], s[i + 1]))
}

/// What the Latin text of a reversible Belarusian input can start with:
/// an `h` only for the letter that maps to it, and a backtick only for a
/// soft sign.
proof fn lemma_by_head(s: Seq<char>)
    requires
        by_reversible_input(s),
        s.len() > 0,
    ensures
        fwd_translate(TranslitMethod::gost779b_by, s).len() > 0,
        fwd_translate(TranslitMethod::gost779b_by, s)[0] == 'h' ==> s[0] == 'г',
        fwd_translate(TranslitMethod::gost779b_by, s)[0] == '`' ==> s[0] == 'ь',
{
    let m = TranslitMethod::gost779b_by;
    let c = s[0];
    assert(by_exact_char(c) || neutral_char(m, c));
    assert(fwd_translate(m, s) == fwd_out(m, c) + fwd_translate(m, s.skip(1)));
    assert(fwd_out(m, c).len() > 0);
    assert(fwd_translate(m, s)[0] == fwd_out(m, c)[0]);
}

/// One step of the Belarusian round trip.
proof fn lemma_by_step(c: char, s1: Seq<char>)
    requires
        by_exact_char(c) || neutral_char(TranslitMethod::gost779b_by, c),
        by_reversible_input(s1),
        s1.len() > 0 ==> by_pair_ok(c, s1[0]),
    ensures
        rev_translate(
            TranslitMethod::gost779b_by,
            fwd_out(TranslitMethod::gost779b_by, c) + fwd_translate(
                TranslitMethod::gost779b_by,
                s1,
            ),
        ) == seq![c] + rev_translate(
            TranslitMethod::gost779b_by,
            fwd_translate(TranslitMethod::gost779b_by, s1),
        ),
{
    let m = TranslitMethod::gost779b_by;
    let w = fwd_out(m, c);
    let t = fwd_translate(m, s1);
    let u = w + t;
    if s1.len() > 0 {
        lemma_by_head(s1);
    } else {
        assert(t =~= Seq::<char>::empty());
    }
    lemma_key_chars(m);
    assert(u.len() == w.len() + t.len());
    assert(forall|j: int| 0 <= j < w.len() ==> u[j] == w[j]);
    assert(forall|j: int| w.len() <= j < u.len() ==> u[j] == t[j - w.len()]);
    assert(u.skip(w.len() as int) =~= t);
    assert(rev_translate(m, u) == seq![c] + rev_translate(m, t));
}

/// Round-trip exactness for the Belarusian standard.
pub proof fn lemma_by_round_trip(s: Seq<char>)
    requires
        by_reversible_input(s),
    ensures
        rev_translate(
            TranslitMethod::gost779b_by,
            fwd_translate(TranslitMethod::gost779b_by, s),
        ) == s,
    decreases s.len(),
{
    let m = TranslitMethod::gost779b_by;
    if s.len() == 0 {
        assert(fwd_translate(m, s) =~= Seq::<char>::empty());
        assert(rev_translate(m, fwd_translate(m, s)) =~= s);
    } else {
        let t = s.skip(1);
        assert forall|i: int|
            0 <= i < t.len() implies by_exact_char(#[trigger] t[i]) || neutral_char(m, t[i]) by {
            assert(t[i] == s[i + 1]);
        }
        assert forall|i: int| 0 <= i && i + 1 < t.len() implies by_pair_ok(
            #[trigger] t[i],
            t[i + 1],
        ) by {
            assert(t[i] == s[i + 1]);
            assert(t[i + 1] == s[i + 2]);
        }
        if t.len() > 0 {
            assert(t[0] == s[1]);
            assert(by_pair_ok(s[0], s[1]));
        }
        lemma_by_step(s[0], t);
        lemma_by_round_trip(t);
        assert(fwd_translate(m, s) == fwd_out(m, s[0]) + fwd_translate(m, t));
        assert(seq![s[0]] + t =~= s);
    }
}

/// A character of the Ukrainian GOST style standard whose Latin output
/// reverses to it exactly.  The capital soft sign shares its output with
/// the small one, so only the small one reverses exactly.
pub open spec fn ua_exact_char(c: char) -> bool {
    gost_ua::ua_fwd_char(c) is Some && c != 'Ь'
}

/// Adjacent characters whose Latin outputs the longest-key scan cannot
/// merge under the Ukrainian GOST style standard: a soft sign may not
/// directly follow the letters with output `g` or `G`.
pub open spec fn ua_pair_ok(c1: char, c2: char) -> bool {
    !((c1 == 'г' || c1 == 'Г') && c2 == 'ь')
}

/// Input on which the Ukrainian GOST style round trip is exact.
pub open spec fn ua_reversible_input(s: Seq<char>) -> bool {
    let m = TranslitMethod::gost779b_ua;
    (forall|i: int|
        0 <= i < s.len() ==> ua_exact_char(#[trigger] s[i]) || neutral_char(m, s[i])) && (forall|
        i: int,
    |
        0 <= i && i + 1 < s.len() ==> ua_pair_ok(#[trigger] s[i], s[i + 1]))
}

/// What the Latin text of a reversible Ukrainian GOST input can start
/// with: never an `h`, and a backtick only for a soft sign.
proof fn lemma_ua_head(s: Seq<char>)
    requires
        ua_reversible_input(s),
        s.len() > 0,
    ensures
        fwd_translate(TranslitMethod::gost779b_ua, s).len() > 0,
        fwd_translate(TranslitMethod::gost779b_ua, s)[0] != 'h',
        fwd_translate(TranslitMethod::gost779b_ua, s)[0] == '`' ==> s[0] == 'ь',
{
    let m = TranslitMethod::gost779b_ua;
    let c = s[0];
    assert(ua_exact_char(c) || neutral_char(m, c));
    assert(fwd_translate(m, s) == fwd_out(m, c) + fwd_translate(m, s.skip(1)));
    assert(fwd_out(m, c).len() > 0);
    assert(fwd_translate(m, s)[0] == fwd_out(m, c)[0]);
}

/// One step of the Ukrainian GOST style round trip.
proof fn lemma_ua_step(c: char, s1: Seq<char>)
    requires
        ua_exact_char(c) || neutral_char(TranslitMethod::gost779b_ua, c),
        ua_reversible_input(s1),
        s1.len() > 0 ==> ua_pair_ok(c, s1[0]),
    ensures
        rev_translate(
            TranslitMethod::gost779b_ua,
            fwd_out(TranslitMethod::gost779b_ua, c) + fwd_translate(
                TranslitMethod::gost779b_ua,
                s1,
            ),
        ) == seq![c] + rev_translate(
            TranslitMethod::gost779b_ua,
            fwd_translate(TranslitMethod::gost779b_ua, s1),
        ),
{
    let m = TranslitMethod::gost779b_ua;
    let w = fwd_out(m, c);
    let t = fwd_translate(m, s1);
    let u = w + t;
    if s1.len() > 0 {
        lemma_ua_head(s1);
    } else {
        assert(t =~= Seq::<char>::empty());
    }
    lemma_key_chars(m);
    assert(u.len() == w.len() + t.len());
    assert(forall|j: int| 0 <= j < w.len() ==> u[j] == w[j]);
    assert(forall|j: int| w.len() <= j < u.len() ==> u[j] == t[j - w.len()]);
    assert(u.skip(w.len() as int) =~= t);
    assert(rev_translate(m, u) == seq![c] + rev_translate(m, t));
}

/// Round-trip exactness for the Ukrainian GOST style standard.
pub proof fn lemma_ua_round_trip(s: Seq<char>)
    requires
        ua_reversible_input(s),
    ensures
        rev_translate(
            TranslitMethod::gost779b_ua,
            fwd_translate(TranslitMethod::gost779b_ua, s),
        ) == s,
    decreases s.len(),
{
    let m = TranslitMethod::gost779b_ua;
    if s.len() == 0 {
        assert(fwd_translate(m, s) =~= Seq::<char>::empty());
        assert(rev_translate(m, fwd_translate(m, s)) =~= s);
    } else {
        let t = s.skip(1);
        assert forall|i: int|
            0 <= i < t.len() implies ua_exact_char(#[trigger] t[i]) || neutral_char(m, t[i]) by {
            assert(t[i] == s[i + 1]);
        }
        assert forall|i: int| 0 <= i && i + 1 < t.len() implies ua_pair_ok(
            #[trigger] t[i],
            t[i + 1],
        ) by {
            assert(t[i] == s[i + 1]);
            assert(t[i + 1] == s[i + 2]);
        }
        if t.len() > 0 {
            assert(t[0] == s[1]);
            assert(ua_pair_ok(s[0], s[1]));
        }
        lemma_ua_step(s[0], t);
        lemma_ua_round_trip(t);
        assert(fwd_translate(m, s) == fwd_out(m, s[0]) + fwd_translate(m, t));
        assert(seq![s[0]] + t =~= s);
    }
}

/// Input on which the standard's round trip is exact; no input qualifies
/// for the forward-only passport standard.
pub open spec fn reversible_input(m: TranslitMethod, s: Seq<char>) -> bool {
    match m {
        TranslitMethod::gost779b_ru => ru_reversible_input(s),
        TranslitMethod::gost779b_by => by_reversible_input(s),
        TranslitMethod::gost779b_ua => ua_reversible_input(s),
        TranslitMethod::iternational_passport_2013_ru => false,
    }
}

/// Round-trip exactness for the reversible standards: converting a
/// reversible input to Latin and back returns it unchanged.
pub proof fn lemma_round_trip(m: TranslitMethod, s: Seq<char>)
    requires
        spec_has_reverse(m),
        reversible_input(m, s),
    ensures
        rev_translate(m, fwd_translate(m, s)) == s,
{
    match m {
        TranslitMethod::gost779b_ru => lemma_ru_round_trip(s),
        TranslitMethod::gost779b_by => lemma_by_round_trip(s),
        TranslitMethod::gost779b_ua => lemma_ua_round_trip(s),
        TranslitMethod::iternational_passport_2013_ru => (),
    }
}

} // verus!
