use vstd::prelude::*;

use crate::args::{arg_views_of, Arg, ArgList, ArgV};
use crate::digits::{fmt_udec, spec_udec};
use crate::locale::{c_locale, c_locale_spec, Locale};
use crate::output::{WString, WideWrite};
use crate::render::{lemma_ok_consumes_dirs, render, spec_render, RenderError};

verus! {

/// Why a dispatch call failed.
#[derive(Clone, Copy, PartialEq, Eq, Structural, Debug)]
pub enum SprintfError {
    /// The engine reported a rendering failure.
    Rendering(RenderError),
    /// Rendering succeeded but this many supplied arguments were never
    /// consumed by the template.
    Unconsumed(usize),
}

impl SprintfError {
    /// The diagnostic the dispatch layer raises: the failure description (or
    /// the unconsumed-argument count) together with the template it happened
    /// on.
    pub open spec fn diagnostic_spec(&self, fmt: Seq<char>) -> Seq<char> {
        match self {
            SprintfError::Rendering(e) => "sprintf reported error \""@ + e.describe_spec()
                + "\" with format string: "@ + fmt,
            SprintfError::Unconsumed(n) => "sprintf had "@ + spec_udec(*n as nat)
                + " unconsumed args for format string: "@ + fmt,
        }
    }

    /// Renders the diagnostic for a failure on the template `fmt`.
    pub fn diagnostic(&self, fmt: &[char]) -> (r: WString)
        ensures
            r@ == self.diagnostic_spec(fmt@),
    {
        let mut w = WString::new();
        match self {
            SprintfError::Rendering(e) => {
                w.push_str("sprintf reported error \"");
                w.push_str(e.describe());
                w.push_str("\" with format string: ");
                w.write_wide(fmt);
                proof {
                    assert(w@ =~= self.diagnostic_spec(fmt@));
                }
            },
            SprintfError::Unconsumed(n) => {
                w.push_str("sprintf had ");
                let loc = c_locale();
                let digits = fmt_udec(*n as u64, &loc);
                w.write_wide(digits.as_slice());
                w.push_str(" unconsumed args for format string: ");
                w.write_wide(fmt);
                proof {
                    assert(w@ =~= self.diagnostic_spec(fmt@));
                }
            },
        }
        w
    }
}

/// The error-returning core behind the entry points: builds the argument
/// list, binds `target` and `locale` for the engine, renders, and reports
/// either an engine failure or an argument under-consumption.  Text produced
/// before a failure stays written to `target`.
pub fn try_sprintf_locale<T: WideWrite>(
    target: &mut T,
    fmt: &[char],
    locale: &Locale,
    args: &[Arg],
) -> (r: Result<(), SprintfError>)
    ensures
        ({
            let o = spec_render(fmt@, arg_views_of(args@), *locale);
            &&& final(target).content() == old(target).content() + o.text
            &&& match r {
                Ok(()) => o.result == Ok::<int, RenderError>(args@.len() as int),
                Err(SprintfError::Rendering(e)) => o.result == Err::<int, RenderError>(e),
                Err(SprintfError::Unconsumed(n)) => {
                    &&& 0 < n <= args@.len()
                    &&& o.result == Ok::<int, RenderError>(args@.len() - n)
                },
            }
        }),
{
    let mut arglist = ArgList::new(args);
    let res = render(fmt, &mut arglist, target, locale);
    match res {
        Err(e) => Err(SprintfError::Rendering(e)),
        Ok(()) => {
            proof {
                lemma_ok_consumes_dirs(fmt@, 0, arg_views_of(args@), 0, *locale);
            }
            let rem = arglist.remaining();
            if rem > 0 {
                Err(SprintfError::Unconsumed(rem))
            } else {
                Ok(())
            }
        },
    }
}

/// The explicit-locale entry point.  An engine failure or an under-consumed
/// argument list is a defect in the caller, not an expected condition, so
/// such inputs are excluded by `requires` and the call always succeeds: the
/// template must be well formed and its directives must consume the
/// arguments exactly.  Callers that cannot establish this use
/// [`try_sprintf_locale`], which reports those conditions as errors instead.
pub fn sprintf_locale<T: WideWrite>(target: &mut T, fmt: &[char], locale: &Locale, args: &[Arg])
    requires
        spec_render(fmt@, arg_views_of(args@), *locale).result == Ok::<int, RenderError>(
            args@.len() as int,
        ),
    ensures
        final(target).content() == old(target).content() + spec_render(
            fmt@,
            arg_views_of(args@),
            *locale,
        ).text,
{
    let res = try_sprintf_locale(target, fmt, locale, args);
    match res {
        Ok(()) => (),
        Err(_) => {
            proof {
                assert(false);
            }
            vstd::pervasive::unreached()
        },
    }
}

/// The C-locale entry point: `sprintf_locale` with the locale fixed to the
/// "C" locale constant.
pub fn sprintf_c_locale<T: WideWrite>(target: &mut T, fmt: &[char], args: &[Arg])
    requires
        spec_render(fmt@, arg_views_of(args@), c_locale_spec()).result == Ok::<int, RenderError>(
            args@.len() as int,
        ),
    ensures
        final(target).content() == old(target).content() + spec_render(
            fmt@,
            arg_views_of(args@),
            c_locale_spec(),
        ).text,
{
    let loc = c_locale();
    sprintf_locale(target, fmt, &loc, args)
}

/// Call shape: narrow template, explicit target.  The template is encoded to
/// wide text and rendered under the C locale.
pub fn sprintf_into<T: WideWrite>(target: &mut T, fmt: &str, args: &[Arg])
    requires
        spec_render(fmt@, arg_views_of(args@), c_locale_spec()).result == Ok::<int, RenderError>(
            args@.len() as int,
        ),
    ensures
        final(target).content() == old(target).content() + spec_render(
            fmt@,
            arg_views_of(args@),
            c_locale_spec(),
        ).text,
{
    let wfmt = WString::from_str(fmt);
    sprintf_c_locale(target, wfmt.as_chars(), args)
}

/// Call shape: wide template supplied at run time, explicit target, C
/// locale.
pub fn sprintf_wide_into<T: WideWrite>(target: &mut T, fmt: &[char], args: &[Arg])
    requires
        spec_render(fmt@, arg_views_of(args@), c_locale_spec()).result == Ok::<int, RenderError>(
            args@.len() as int,
        ),
    ensures
        final(target).content() == old(target).content() + spec_render(
            fmt@,
            arg_views_of(args@),
            c_locale_spec(),
        ).text,
{
    sprintf_c_locale(target, fmt, args)
}

/// Call shape: narrow template, newly allocated wide string returned.
pub fn sprintf(fmt: &str, args: &[Arg]) -> (r: WString)
    requires
        spec_render(fmt@, arg_views_of(args@), c_locale_spec()).result == Ok::<int, RenderError>(
            args@.len() as int,
        ),
    ensures
        r@ == spec_render(fmt@, arg_views_of(args@), c_locale_spec()).text,
{
    let mut target = WString::new();
    sprintf_into(&mut target, fmt, args);
    proof {
        assert(target@ =~= spec_render(fmt@, arg_views_of(args@), c_locale_spec()).text);
    }
    target
}

/// Call shape: wide template supplied at run time, newly allocated wide
/// string returned.
pub fn sprintf_wide(fmt: &[char], args: &[Arg]) -> (r: WString)
    requires
        spec_render(fmt@, arg_views_of(args@), c_locale_spec()).result == Ok::<int, RenderError>(
            args@.len() as int,
        ),
    ensures
        r@ == spec_render(fmt@, arg_views_of(args@), c_locale_spec()).text,
{
    let mut target = WString::new();
    sprintf_wide_into(&mut target, fmt, args);
    proof {
        assert(target@ =~= spec_render(fmt@, arg_views_of(args@), c_locale_spec()).text);
    }
    target
}

/// LAW: the literal-template and runtime-template call forms render
/// identically.  Every entry point's output is pinned to `spec_render` of
/// the template's character sequence, so two templates with equal characters
/// — however they were supplied — produce byte-for-byte identical text for
/// the same arguments.
pub proof fn lemma_call_forms_agree(
    narrow_fmt: Seq<char>,
    wide_fmt: Seq<char>,
    args: Seq<ArgV>,
    loc: Locale,
)
    requires
        narrow_fmt == wide_fmt,
    ensures
        spec_render(narrow_fmt, args, loc) == spec_render(wide_fmt, args, loc),
{
}

/// LAW: the C-locale entry point is the explicit-locale entry point invoked
/// with the "C" locale constant: both are pinned to `spec_render` under
/// `c_locale_spec()`, for all templates and arguments.
pub proof fn lemma_c_locale_equiv(fmt: Seq<char>, args: Seq<ArgV>, loc: Locale)
    requires
        loc == c_locale_spec(),
    ensures
        spec_render(fmt, args, loc) == spec_render(fmt, args, c_locale_spec()),
{
}

} // verus!
