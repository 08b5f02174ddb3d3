use vstd::prelude::*;

verus! {

/// An immutable bundle of locale-specific rendering rules.
///
/// Only the rules this layer's rendering engine consults are carried here:
/// the decimal-separator character and, where the locale groups digits of
/// decimal integers, the grouping separator (groups of three, as POSIX
/// locales do).  `None` means no grouping at all.
#[derive(Clone, Copy)]
pub struct Locale {
    pub decimal_sep: char,
    pub thousands_sep: Option<char>,
}

/// The minimal "C" locale: '.' as decimal separator, no digit grouping.
pub open spec fn c_locale_spec() -> Locale {
    Locale { decimal_sep: '.', thousands_sep: None }
}

/// Returns the "C" locale, the POSIX-minimal, grouping-free locale used by
/// the convenience entry points.
pub fn c_locale() -> (r: Locale)
    ensures
        r == c_locale_spec(),
{
    Locale { decimal_sep: '.', thousands_sep: None }
}

} // verus!
