//! Transliteration between Cyrillic orthographies (Russian, Belarusian,
//! Ukrainian) and Latin, under several named standards.
//!
//! The GOST 7.79 System B style standards define a forward table and an
//! exact reverse table; the passport standard is forward-only; the
//! Ukrainian national standard adds positional (word-start) sensitivity,
//! a digraph exception and elidable characters.

pub mod engine;
pub mod ukrainian;
pub mod gost_by;
pub mod laws;
pub mod gost_ru;
pub mod gost_ua;
pub mod passport;

use vstd::prelude::*;

verus! {

/// The closed set of supported transliteration standards.
#[allow(non_camel_case_types)]
#[derive(Clone, Copy, Debug, PartialEq, Eq, Structural)]
pub enum TranslitMethod {
    gost779b_ru,
    gost779b_by,
    gost779b_ua,
    iternational_passport_2013_ru,
}

/// The one error a conversion can signal: a reverse (Latin to Cyrillic)
/// conversion was requested for a standard that defines no reverse table.
#[derive(Clone, Copy, Debug, PartialEq, Eq, Structural)]
pub enum TranslitError {
    UnsupportedDirection,
}

/// Whether the standard defines a reverse (Latin to Cyrillic) table.
pub open spec fn spec_has_reverse(m: TranslitMethod) -> bool {
    match m {
        TranslitMethod::gost779b_ru => true,
        TranslitMethod::gost779b_by => true,
        TranslitMethod::gost779b_ua => true,
        TranslitMethod::iternational_passport_2013_ru => false,
    }
}

impl TranslitMethod {
    /// True exactly for the standards with a reverse table.
    pub fn has_reverse(&self) -> (r: bool)
        ensures
            r == spec_has_reverse(*self),
    {
        match self {
            TranslitMethod::iternational_passport_2013_ru => false,
            _ => true,
        }
    }
}

/// The full conversion under a standard: the forward substitution when
/// `invert` is false, the reverse (longest-key) substitution when it is
/// true.
pub open spec fn spec_convert(m: TranslitMethod, s: Seq<char>, invert: bool) -> Seq<char> {
    if invert {
        engine::rev_translate(m, s)
    } else {
        engine::fwd_translate(m, s)
    }
}

/// A conversion engine parameterized with one standard's tables.
pub struct Transliterator {
    pub method: TranslitMethod,
}

impl Transliterator {
    /// Selects the standard whose tables the engine will use.
    pub fn new(method: TranslitMethod) -> (r: Self)
        ensures
            r.method == method,
    {
        Transliterator { method }
    }

    /// Converts the whole input in one pass.  `invert` false takes the
    /// source script to Latin; `invert` true takes Latin back to the
    /// source script and is only available where the standard defines a
    /// reverse table.
    pub fn convert(&self, input: &str, invert: bool) -> (r: String)
        requires
            invert ==> spec_has_reverse(self.method),
        ensures
            r@ == spec_convert(self.method, input@, invert),
    {
        if invert {
            engine::run_reverse(self.method, input)
        } else {
            engine::run_forward(self.method, input)
        }
    }

    /// Like `convert`, but total: a reverse conversion under a standard
    /// without a reverse table is reported as `UnsupportedDirection`
    /// instead of being approximated.
    pub fn try_convert(&self, input: &str, invert: bool) -> (r: Result<String, TranslitError>)
        ensures
            (match r {
                Ok(s) => (!invert || spec_has_reverse(self.method)) && s@ == spec_convert(
                    self.method,
                    input@,
                    invert,
                ),
                Err(e) => invert && !spec_has_reverse(self.method)
                    && e == TranslitError::UnsupportedDirection,
            }),
    {
        if invert && !self.method.has_reverse() {
            Err(TranslitError::UnsupportedDirection)
        } else {
            Ok(self.convert(input, invert))
        }
    }

    /// Source script to Latin, under the selected standard.
    pub fn to_latin(&self, input: &str) -> (r: String)
        ensures
            r@ == engine::fwd_translate(self.method, input@),
    {
        self.convert(input, false)
    }

    /// Latin back to the source script, under the selected standard.
    /// Only the standards with a reverse table support this.
    pub fn from_latin(&self, input: &str) -> (r: String)
        requires
            spec_has_reverse(self.method),
        ensures
            r@ == engine::rev_translate(self.method, input@),
    {
        self.convert(input, true)
    }
}

} // verus!
