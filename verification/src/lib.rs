//! A printf-family formatted-output facility for wide (32-bit code-point)
//! text with locale-sensitive rendering.
//!
//! Caller values are erased into the uniform tagged representation
//! [`args::Arg`] through [`args::ToArg`], collected into an
//! [`args::ArgList`] whose consumption is tracked against the template, and
//! rendered through a [`output::WideWrite`] target under a
//! [`locale::Locale`].  The dispatch entry points live in [`printf`]; the
//! template-interpretation engine and its contract live in [`render`].

pub mod args;
pub mod digits;
pub mod locale;
pub mod output;
pub mod printf;
pub mod render;

pub use printf::{
    sprintf, sprintf_c_locale, sprintf_into, sprintf_locale, sprintf_wide, sprintf_wide_into,
    try_sprintf_locale, SprintfError,
};
