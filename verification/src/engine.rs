//! The scan-and-substitute engine shared by the table-driven standards.
//!
//! The forward pass replaces each source character by its fixed Latin
//! output, or copies it unchanged when it lies outside the standard's
//! alphabet.  The reverse pass runs left to right over the Latin text and
//! at each position takes the longest key (three, two, then one character)
//! that the standard's reverse table defines, copying unmatched characters
//! unchanged.

use crate::gost_by;
use crate::gost_ru;
use crate::gost_ua;
use crate::passport;
use crate::TranslitMethod;
use vstd::prelude::*;
use vstd::string::StrSliceExecFns;
use vstd::string::StringExecFns;

verus! {

/// Forward table of the standard: the Latin output of one source
/// character, or `None` when the character is copied unchanged.
pub open spec fn fwd_char(m: TranslitMethod, c: char) -> Option<Seq<char>> {
    match m {
        TranslitMethod::gost779b_ru => gost_ru::ru_fwd_char(c),
        TranslitMethod::gost779b_by => gost_by::by_fwd_char(c),
        TranslitMethod::gost779b_ua => gost_ua::ua_fwd_char(c),
        TranslitMethod::iternational_passport_2013_ru => passport::passport_fwd_char(c),
    }
}

/// What one source character contributes to the forward output: its table
/// entry, or the character itself when the table has none.
pub open spec fn fwd_out(m: TranslitMethod, c: char) -> Seq<char> {
    match fwd_char(m, c) {
        Some(w) => w,
        None => seq![c],
    }
}

/// The whole forward conversion: each character's contribution, in order.
pub open spec fn fwd_translate(m: TranslitMethod, s: Seq<char>) -> Seq<char>
    decreases s.len(),
{
    if s.len() == 0 {
        Seq::empty()
    } else {
        fwd_out(m, s[0]) + fwd_translate(m, s.skip(1))
    }
}

/// Reverse table of the standard, one-character Latin keys.
pub open spec fn rev_key1(m: TranslitMethod, a: char) -> Option<char> {
    match m {
        TranslitMethod::gost779b_ru => gost_ru::ru_rev1(a),
        TranslitMethod::gost779b_by => gost_by::by_rev1(a),
        TranslitMethod::gost779b_ua => gost_ua::ua_rev1(a),
        TranslitMethod::iternational_passport_2013_ru => None,
    }
}

/// Reverse table of the standard, two-character Latin keys.
pub open spec fn rev_key2(m: TranslitMethod, a: char, b: char) -> Option<char> {
    match m {
        TranslitMethod::gost779b_ru => gost_ru::ru_rev2(a, b),
        TranslitMethod::gost779b_by => gost_by::by_rev2(a, b),
        TranslitMethod::gost779b_ua => gost_ua::ua_rev2(a, b),
        TranslitMethod::iternational_passport_2013_ru => None,
    }
}

/// Reverse table of the standard, three-character Latin keys.
pub open spec fn rev_key3(m: TranslitMethod, a: char, b: char, c: char) -> Option<char> {
    match m {
        TranslitMethod::gost779b_ru => gost_ru::ru_rev3(a, b, c),
        TranslitMethod::gost779b_by => gost_by::by_rev3(a, b, c),
        TranslitMethod::gost779b_ua => gost_ua::ua_rev3(a, b, c),
        TranslitMethod::iternational_passport_2013_ru => None,
    }
}

/// The whole reverse conversion: at each position the longest defined key
/// is replaced by its source character; anything else is copied unchanged.
pub open spec fn rev_translate(m: TranslitMethod, t: Seq<char>) -> Seq<char>
    decreases t.len(),
{
    if t.len() == 0 {
        Seq::empty()
    } else if t.len() >= 3 && rev_key3(m, t[0], t[1], t[2]) is Some {
        seq![rev_key3(m, t[0], t[1], t[2])->0] + rev_translate(m, t.skip(3))
    } else if t.len() >= 2 && rev_key2(m, t[0], t[1]) is Some {
        seq![rev_key2(m, t[0], t[1])->0] + rev_translate(m, t.skip(2))
    } else if rev_key1(m, t[0]) is Some {
        seq![rev_key1(m, t[0])->0] + rev_translate(m, t.skip(1))
    } else {
        seq![t[0]] + rev_translate(m, t.skip(1))
    }
}

/// Relies on `String::push`: appends exactly the given character.
#[verifier::external_body]
pub(crate) fn push_char(s: &mut String, c: char)
    ensures
        final(s)@ == old(s)@.push(c),
{
    s.push(c);
}

/// Forward lookup, dispatching to the standard's table.
pub(crate) fn fwd_lookup(m: TranslitMethod, c: char) -> (r: Option<&'static str>)
    ensures
        (match r {
            Some(t) => fwd_char(m, c) == Some(t@),
            None => fwd_char(m, c) is None,
        }),
{
    match m {
        TranslitMethod::gost779b_ru => gost_ru::ru_forward(c),
        TranslitMethod::gost779b_by => gost_by::by_forward(c),
        TranslitMethod::gost779b_ua => gost_ua::ua_forward(c),
        TranslitMethod::iternational_passport_2013_ru => passport::passport_forward(c),
    }
}

/// Reverse lookup for one-character keys, dispatching to the standard.
pub(crate) fn rev_lookup1(m: TranslitMethod, a: char) -> (r: Option<char>)
    ensures
        r == rev_key1(m, a),
{
    match m {
        TranslitMethod::gost779b_ru => gost_ru::ru_reverse1(a),
        TranslitMethod::gost779b_by => gost_by::by_reverse1(a),
        TranslitMethod::gost779b_ua => gost_ua::ua_reverse1(a),
        TranslitMethod::iternational_passport_2013_ru => None,
    }
}

/// Reverse lookup for two-character keys, dispatching to the standard.
pub(crate) fn rev_lookup2(m: TranslitMethod, a: char, b: char) -> (r: Option<char>)
    ensures
        r == rev_key2(m, a, b),
{
    match m {
        TranslitMethod::gost779b_ru => gost_ru::ru_reverse2(a, b),
        TranslitMethod::gost779b_by => gost_by::by_reverse2(a, b),
        TranslitMethod::gost779b_ua => gost_ua::ua_reverse2(a, b),
        TranslitMethod::iternational_passport_2013_ru => None,
    }
}

/// Reverse lookup for three-character keys, dispatching to the standard.
pub(crate) fn rev_lookup3(m: TranslitMethod, a: char, b: char, c: char) -> (r: Option<char>)
    ensures
        r == rev_key3(m, a, b, c),
{
    match m {
        TranslitMethod::gost779b_ru => gost_ru::ru_reverse3(a, b, c),
        TranslitMethod::gost779b_by => gost_by::by_reverse3(a, b, c),
        TranslitMethod::gost779b_ua => gost_ua::ua_reverse3(a, b, c),
        TranslitMethod::iternational_passport_2013_ru => None,
    }
}

/// Copies the characters of a string onto the end of a character buffer.
pub(crate) fn collect_chars(s: &str, v: &mut Vec<char>)
    ensures
        final(v)@ == old(v)@ + s@,
{
    let n = s.unicode_len();
    let mut i: usize = 0;
    while i < n
        invariant
            i <= n,
            n == s@.len(),
            v@ == old(v)@ + s@.take(i as int),
        decreases n - i,
    {
        let c = s.get_char(i);
        v.push(c);
        proof {
            assert(old(v)@ + s@.take(i as int) + seq![s@[i as int]] =~= old(v)@ + s@.take(
                i as int + 1,
            ));
        }
        i = i + 1;
    }
    proof {
        assert(s@.take(n as int) =~= s@);
    }
}

/// One forward pass of the table-driven engine.
pub(crate) fn run_forward(m: TranslitMethod, input: &str) -> (r: String)
    ensures
        r@ == fwd_translate(m, input@),
{
    let n = input.unicode_len();
    let mut out = String::new();
    let mut i: usize = 0;
    proof {
        assert(input@.skip(0) =~= input@);
        assert(out@ + fwd_translate(m, input@) =~= fwd_translate(m, input@));
    }
    while i < n
        invariant
            i <= n,
            n == input@.len(),
            fwd_translate(m, input@) == out@ + fwd_translate(m, input@.skip(i as int)),
        decreases n - i,
    {
        let c = input.get_char(i);
        let ghost pre = out@;
        let ghost rest = input@.skip(i as int);
        proof {
            assert(rest[0] == c);
            assert(rest.skip(1) =~= input@.skip(i as int + 1));
        }
        match fwd_lookup(m, c) {
            Some(t) => {
                out.append(t);
            },
            None => {
                push_char(&mut out, c);
                proof {
                    assert(pre.push(c) =~= pre + seq![c]);
                }
            },
        }
        proof {
            assert(out@ == pre + fwd_out(m, c));
            assert((pre + fwd_out(m, c)) + fwd_translate(m, input@.skip(i as int + 1)) =~= pre + (
            fwd_out(m, c) + fwd_translate(m, input@.skip(i as int + 1))));
        }
        i = i + 1;
    }
    proof {
        assert(input@.skip(n as int) =~= Seq::<char>::empty());
    }
    out
}

/// One reverse pass of the table-driven engine: longest key first.
pub(crate) fn run_reverse(m: TranslitMethod, input: &str) -> (r: String)
    ensures
        r@ == rev_translate(m, input@),
{
    let mut v: Vec<char> = Vec::new();
    collect_chars(input, &mut v);
    let n = v.len();
    let mut out = String::new();
    let mut i: usize = 0;
    proof {
        assert(v@.skip(0) =~= v@);
        assert(out@ + rev_translate(m, input@) =~= rev_translate(m, input@));
    }
    while i < n
        invariant
            i <= n,
            n == v@.len(),
            v@ == input@,
            rev_translate(m, input@) == out@ + rev_translate(m, v@.skip(i as int)),
        decreases n - i,
    {
        let ghost rest = v@.skip(i as int);
        let ghost pre = out@;
        proof {
            assert(rest.len() == n - i);
            assert(rest[0] == v@[i as int]);
            if n - i >= 2 {
                assert(rest[1] == v@[i as int + 1]);
            }
            if n - i >= 3 {
                assert(rest[2] == v@[i as int + 2]);
            }
        }
        let take3 = if n - i >= 3 {
            rev_lookup3(m, v[i], v[i + 1], v[i + 2])
        } else {
            None
        };
        let take2 = if n - i >= 2 {
            rev_lookup2(m, v[i], v[i + 1])
        } else {
            None
        };
        if let Some(ch) = take3 {
            push_char(&mut out, ch);
            proof {
                assert(rest.skip(3) =~= v@.skip(i as int + 3));
                assert(pre.push(ch) =~= pre + seq![ch]);
                assert((pre + seq![ch]) + rev_translate(m, v@.skip(i as int + 3)) =~= pre + (
                seq![ch] + rev_translate(m, v@.skip(i as int + 3))));
            }
            i = i + 3;
        } else if let Some(ch) = take2 {
            push_char(&mut out, ch);
            proof {
                assert(rest.skip(2) =~= v@.skip(i as int + 2));
                assert(pre.push(ch) =~= pre + seq![ch]);
                assert((pre + seq![ch]) + rev_translate(m, v@.skip(i as int + 2)) =~= pre + (
                seq![ch] + rev_translate(m, v@.skip(i as int + 2))));
            }
            i = i + 2;
        } else {
            let one = rev_lookup1(m, v[i]);
            let ch = match one {
                Some(ch) => ch,
                None => v[i],
            };
            push_char(&mut out, ch);
            proof {
                assert(rest.skip(1) =~= v@.skip(i as int + 1));
                assert(pre.push(ch) =~= pre + seq![ch]);
                assert((pre + seq![ch]) + rev_translate(m, v@.skip(i as int + 1)) =~= pre + (
                seq![ch] + rev_translate(m, v@.skip(i as int + 1))));
            }
            i = i + 1;
        }
    }
    proof {
        assert(v@.skip(n as int) =~= Seq::<char>::empty());
    }
    out
}

} // verus!
