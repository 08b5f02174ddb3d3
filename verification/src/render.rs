use vstd::prelude::*;

use crate::args::{Arg, ArgList, ArgV};
use crate::digits::{fmt_idec, fmt_udec, fmt_uhex, spec_grouped, spec_idec_loc, spec_udec, spec_uhex};
use crate::locale::Locale;
use crate::output::{WString, WideWrite};

verus! {

/// Why the engine could not interpret a template against its arguments.
#[derive(Clone, Copy, PartialEq, Eq, Structural, Debug)]
pub enum RenderError {
    /// The template ends in the middle of a conversion directive.
    IncompleteDirective,
    /// A directive names a conversion the engine does not know.
    UnknownDirective,
    /// A directive asked for an argument but the list was exhausted.
    MissingArgument,
    /// The next argument's kind does not fit its directive.
    TypeMismatch,
}

impl RenderError {
    /// The failure as displayable text.
    pub open spec fn describe_spec(&self) -> Seq<char> {
        match self {
            RenderError::IncompleteDirective => "incomplete conversion directive"@,
            RenderError::UnknownDirective => "unknown conversion directive"@,
            RenderError::MissingArgument => "missing argument"@,
            RenderError::TypeMismatch => "argument type mismatch"@,
        }
    }

    /// A short displayable description of the failure.
    pub fn describe(&self) -> (r: &'static str)
        ensures
            r@ == self.describe_spec(),
    {
        match self {
            RenderError::IncompleteDirective => "incomplete conversion directive",
            RenderError::UnknownDirective => "unknown conversion directive",
            RenderError::MissingArgument => "missing argument",
            RenderError::TypeMismatch => "argument type mismatch",
        }
    }
}

/// One recognised conversion directive.
#[derive(Clone, Copy, PartialEq, Eq, Structural, Debug)]
pub enum Dir {
    Decimal,
    Unsigned,
    Hex,
    Character,
    Text,
    WideText,
    Pointer,
}

/// The directive named by a single conversion character, if any.
pub open spec fn single_dir(c: char) -> Option<Dir> {
    if c == 'd' {
        Some(Dir::Decimal)
    } else if c == 'u' {
        Some(Dir::Unsigned)
    } else if c == 'x' {
        Some(Dir::Hex)
    } else if c == 'c' {
        Some(Dir::Character)
    } else if c == 's' {
        Some(Dir::Text)
    } else if c == 'p' {
        Some(Dir::Pointer)
    } else {
        None
    }
}

/// Whether the argument `a` can satisfy the directive `d`.  The two text
/// directives each take a narrow or a wide argument.
pub open spec fn arg_matches(a: ArgV, d: Dir) -> bool {
    match d {
        Dir::Decimal => a is Int,
        Dir::Unsigned => a is Uint,
        Dir::Hex => a is Uint,
        Dir::Character => a is Char,
        Dir::Text => a is Str || a is WStr,
        Dir::WideText => a is Str || a is WStr,
        Dir::Pointer => a is Ptr,
    }
}

/// The text a matching argument renders to under the directive `d`.
pub open spec fn dir_text(a: ArgV, d: Dir, loc: Locale) -> Seq<char> {
    match d {
        Dir::Decimal => spec_idec_loc(a->Int_0, loc),
        Dir::Unsigned => spec_grouped(spec_udec(a->Uint_0), loc),
        Dir::Hex => spec_uhex(a->Uint_0),
        Dir::Character => seq![a->Char_0],
        Dir::Text => if a is Str {
            a->Str_0
        } else {
            a->WStr_0
        },
        Dir::WideText => if a is Str {
            a->Str_0
        } else {
            a->WStr_0
        },
        Dir::Pointer => seq!['0', 'x'] + spec_uhex(a->Ptr_0),
    }
}

/// The outcome of rendering: the text produced (also on failure, up to the
/// failure point) and either the final cursor position or the error.
#[verifier::ext_equal]
pub struct RenderOutcome {
    pub text: Seq<char>,
    pub result: Result<int, RenderError>,
}

/// `o` with the text `t` produced in front of it.
pub open spec fn out_pre(t: Seq<char>, o: RenderOutcome) -> RenderOutcome {
    RenderOutcome { text: t + o.text, result: o.result }
}

/// A failure producing no further text.
pub open spec fn out_err(e: RenderError) -> RenderOutcome {
    RenderOutcome { text: Seq::empty(), result: Err(e) }
}

/// One argument-consuming step: directive `d` against argument `i`, then the
/// rest of the template from `k`.
pub open spec fn spec_render_step(
    fmt: Seq<char>,
    k: int,
    args: Seq<ArgV>,
    i: int,
    loc: Locale,
    d: Dir,
) -> RenderOutcome
    decreases fmt.len() - k, 1int,
{
    if i >= args.len() {
        out_err(RenderError::MissingArgument)
    } else if !arg_matches(args[i], d) {
        out_err(RenderError::TypeMismatch)
    } else {
        out_pre(dir_text(args[i], d, loc), spec_render_from(fmt, k, args, i + 1, loc))
    }
}

/// The rendering relation of the template-interpretation engine: the text
/// produced and the cursor movement on `fmt` from template position `k`,
/// with the next argument at `i`.  Literal characters are copied through;
/// `%%` renders one `%`; every other directive consumes the next argument
/// strictly left to right.
pub open spec fn spec_render_from(
    fmt: Seq<char>,
    k: int,
    args: Seq<ArgV>,
    i: int,
    loc: Locale,
) -> RenderOutcome
    decreases fmt.len() - k, 0int,
{
    if k < 0 || k >= fmt.len() {
        RenderOutcome { text: Seq::empty(), result: Ok(i) }
    } else if fmt[k] != '%' {
        out_pre(seq![fmt[k]], spec_render_from(fmt, k + 1, args, i, loc))
    } else if k + 1 >= fmt.len() {
        out_err(RenderError::IncompleteDirective)
    } else if fmt[k + 1] == '%' {
        out_pre(seq!['%'], spec_render_from(fmt, k + 2, args, i, loc))
    } else if fmt[k + 1] == 'l' {
        if k + 2 >= fmt.len() {
            out_err(RenderError::IncompleteDirective)
        } else if fmt[k + 2] == 's' {
            spec_render_step(fmt, k + 3, args, i, loc, Dir::WideText)
        } else {
            out_err(RenderError::UnknownDirective)
        }
    } else {
        match single_dir(fmt[k + 1]) {
            Some(d) => spec_render_step(fmt, k + 2, args, i, loc, d),
            None => out_err(RenderError::UnknownDirective),
        }
    }
}

/// The rendering relation for a whole call: template from the start, first
/// argument next.
pub open spec fn spec_render(fmt: Seq<char>, args: Seq<ArgV>, loc: Locale) -> RenderOutcome {
    spec_render_from(fmt, 0, args, 0, loc)
}

/// The directives of the template from position `k` on, in order, or `None`
/// where the template is malformed (an incomplete or unknown directive).
pub open spec fn dirs_from(fmt: Seq<char>, k: int) -> Option<Seq<Dir>>
    decreases fmt.len() - k,
{
    if k < 0 || k >= fmt.len() {
        Some(Seq::empty())
    } else if fmt[k] != '%' {
        dirs_from(fmt, k + 1)
    } else if k + 1 >= fmt.len() {
        None
    } else if fmt[k + 1] == '%' {
        dirs_from(fmt, k + 2)
    } else if fmt[k + 1] == 'l' {
        if k + 2 >= fmt.len() {
            None
        } else if fmt[k + 2] == 's' {
            match dirs_from(fmt, k + 3) {
                Some(ds) => Some(seq![Dir::WideText] + ds),
                None => None,
            }
        } else {
            None
        }
    } else {
        match single_dir(fmt[k + 1]) {
            Some(d) => match dirs_from(fmt, k + 2) {
                Some(ds) => Some(seq![d] + ds),
                None => None,
            },
            None => None,
        }
    }
}

/// The directives of a whole template.
pub open spec fn dirs_of(fmt: Seq<char>) -> Option<Seq<Dir>> {
    dirs_from(fmt, 0)
}

/// The directives `ds` all find matching arguments starting at `i`.
pub open spec fn args_match_dirs(ds: Seq<Dir>, args: Seq<ArgV>, i: int) -> bool {
    &&& i + ds.len() <= args.len()
    &&& forall|j: int| 0 <= j < ds.len() ==> arg_matches(args[i + j], ds[j])
}

/// Renders one argument-consuming directive: pulls the next argument and
/// writes its text, exactly as `spec_render_step`'s first move describes.
fn render_dir<T: WideWrite>(d: Dir, args: &mut ArgList, target: &mut T, loc: &Locale) -> (r:
    Result<(), RenderError>)
    requires
        old(args).wf(),
    ensures
        final(args).wf(),
        final(args).views() == old(args).views(),
        match r {
            Ok(()) => {
                &&& old(args).taken() < old(args).views().len()
                &&& arg_matches(old(args).views()[old(args).taken()], d)
                &&& final(args).taken() == old(args).taken() + 1
                &&& final(target).content() == old(target).content() + dir_text(
                    old(args).views()[old(args).taken()],
                    d,
                    *loc,
                )
            },
            Err(RenderError::MissingArgument) => {
                &&& old(args).taken() >= old(args).views().len()
                &&& final(target).content() == old(target).content()
            },
            Err(RenderError::TypeMismatch) => {
                &&& old(args).taken() < old(args).views().len()
                &&& !arg_matches(old(args).views()[old(args).taken()], d)
                &&& final(target).content() == old(target).content()
            },
            Err(_) => false,
        },
{
    let next = args.next();
    match next {
        None => Err(RenderError::MissingArgument),
        Some(a) => match d {
            Dir::Decimal => match a {
                Arg::I64(v) => {
                    let ds = fmt_idec(*v, loc);
                    target.write_wide(ds.as_slice());
                    Ok(())
                },
                _ => Err(RenderError::TypeMismatch),
            },
            Dir::Unsigned => match a {
                Arg::U64(v) => {
                    let ds = fmt_udec(*v, loc);
                    target.write_wide(ds.as_slice());
                    Ok(())
                },
                _ => Err(RenderError::TypeMismatch),
            },
            Dir::Hex => match a {
                Arg::U64(v) => {
                    let ds = fmt_uhex(*v);
                    target.write_wide(ds.as_slice());
                    Ok(())
                },
                _ => Err(RenderError::TypeMismatch),
            },
            Dir::Character => match a {
                Arg::Char(c) => {
                    target.write_wchar(*c);
                    assert(old(target).content().push(*c) =~= old(target).content() + seq![*c]);
                    Ok(())
                },
                _ => Err(RenderError::TypeMismatch),
            },
            Dir::Text | Dir::WideText => match a {
                Arg::Str(s) => {
                    let w = WString::from_str(s.as_str());
                    target.write_wide(w.as_chars());
                    Ok(())
                },
                Arg::WStr(w) => {
                    target.write_wide(w.as_chars());
                    Ok(())
                },
                _ => Err(RenderError::TypeMismatch),
            },
            Dir::Pointer => match a {
                Arg::Ptr(p) => {
                    target.write_wchar('0');
                    target.write_wchar('x');
                    let ds = fmt_uhex(*p as u64);
                    target.write_wide(ds.as_slice());
                    assert(old(target).content().push('0').push('x') + spec_uhex(*p as nat)
                        =~= old(target).content() + (seq!['0', 'x'] + spec_uhex(*p as nat)));
                    Ok(())
                },
                _ => Err(RenderError::TypeMismatch),
            },
        },
    }
}

/// The template-interpretation engine from template position `k` on: copies
/// literal text and renders one argument per directive through `target`,
/// exactly as `spec_render_from` describes.
fn render_from<T: WideWrite>(
    fmt: &[char],
    k: usize,
    args: &mut ArgList,
    target: &mut T,
    loc: &Locale,
) -> (r: Result<(), RenderError>)
    requires
        k <= fmt@.len(),
        old(args).wf(),
    ensures
        final(args).wf(),
        final(args).views() == old(args).views(),
        ({
            let o = spec_render_from(fmt@, k as int, old(args).views(), old(args).taken(), *loc);
            &&& final(target).content() == old(target).content() + o.text
            &&& match r {
                Ok(()) => o.result == Ok::<int, RenderError>(final(args).taken()),
                Err(e) => o.result == Err::<int, RenderError>(e),
            }
        }),
    decreases fmt@.len() - k, 0int,
{
    if k >= fmt.len() {
        assert(old(target).content() + Seq::<char>::empty() =~= old(target).content());
        return Ok(());
    }
    let c = fmt[k];
    if c != '%' {
        target.write_wchar(c);
        assert(old(target).content().push(c) =~= old(target).content() + seq![c]);
        let r = render_from(fmt, k + 1, args, target, loc);
        proof {
            let o1 = spec_render_from(fmt@, k + 1, old(args).views(), old(args).taken(), *loc);
            assert((old(target).content() + seq![c]) + o1.text =~= old(target).content() + (
            seq![c] + o1.text));
        }
        r
    } else if k + 1 >= fmt.len() {
        assert(old(target).content() + Seq::<char>::empty() =~= old(target).content());
        Err(RenderError::IncompleteDirective)
    } else {
        let c2 = fmt[k + 1];
        if c2 == '%' {
            target.write_wchar('%');
            assert(old(target).content().push('%') =~= old(target).content() + seq!['%']);
            let r = render_from(fmt, k + 2, args, target, loc);
            proof {
                let o1 = spec_render_from(fmt@, k + 2, old(args).views(), old(args).taken(), *loc);
                assert((old(target).content() + seq!['%']) + o1.text =~= old(target).content() + (
                seq!['%'] + o1.text));
            }
            r
        } else if c2 == 'l' {
            if k + 2 >= fmt.len() {
                assert(old(target).content() + Seq::<char>::empty() =~= old(target).content());
                Err(RenderError::IncompleteDirective)
            } else if fmt[k + 2] == 's' {
                render_step(fmt, k + 3, args, target, loc, Dir::WideText)
            } else {
                assert(old(target).content() + Seq::<char>::empty() =~= old(target).content());
                Err(RenderError::UnknownDirective)
            }
        } else {
            let d = if c2 == 'd' {
                Some(Dir::Decimal)
            } else if c2 == 'u' {
                Some(Dir::Unsigned)
            } else if c2 == 'x' {
                Some(Dir::Hex)
            } else if c2 == 'c' {
                Some(Dir::Character)
            } else if c2 == 's' {
                Some(Dir::Text)
            } else if c2 == 'p' {
                Some(Dir::Pointer)
            } else {
                None
            };
            match d {
                Some(d) => render_step(fmt, k + 2, args, target, loc, d),
                None => {
                    assert(old(target).content() + Seq::<char>::empty() =~= old(target).content());
                    Err(RenderError::UnknownDirective)
                },
            }
        }
    }
}

/// One argument-consuming step followed by the rest of the template: the
/// executable form of `spec_render_step`.
fn render_step<T: WideWrite>(
    fmt: &[char],
    k: usize,
    args: &mut ArgList,
    target: &mut T,
    loc: &Locale,
    d: Dir,
) -> (r: Result<(), RenderError>)
    requires
        k <= fmt@.len(),
        old(args).wf(),
    ensures
        final(args).wf(),
        final(args).views() == old(args).views(),
        ({
            let o = spec_render_step(fmt@, k as int, old(args).views(), old(args).taken(), *loc, d);
            &&& final(target).content() == old(target).content() + o.text
            &&& match r {
                Ok(()) => o.result == Ok::<int, RenderError>(final(args).taken()),
                Err(e) => o.result == Err::<int, RenderError>(e),
            }
        }),
    decreases fmt@.len() - k, 1int,
{
    let first = render_dir(d, args, target, loc);
    match first {
        Err(e) => {
            assert(old(target).content() + Seq::<char>::empty() =~= old(target).content());
            Err(e)
        },
        Ok(()) => {
            let ghost t0 = dir_text(old(args).views()[old(args).taken()], d, *loc);
            let r = render_from(fmt, k, args, target, loc);
            proof {
                let o1 = spec_render_from(fmt@, k as int, old(args).views(), old(args).taken() + 1, *loc);
                assert((old(target).content() + t0) + o1.text =~= old(target).content() + (t0
                    + o1.text));
            }
            r
        },
    }
}

/// The template-interpretation engine: walks the template's code points,
/// copies literal runs, and renders one argument per conversion directive
/// through `target` under `loc`, advancing the argument cursor strictly left
/// to right.  Text already produced stays written even when an error is
/// reported.
pub fn render<T: WideWrite>(
    fmt: &[char],
    args: &mut ArgList,
    target: &mut T,
    loc: &Locale,
) -> (r: Result<(), RenderError>)
    requires
        old(args).wf(),
    ensures
        final(args).wf(),
        final(args).views() == old(args).views(),
        ({
            let o = spec_render_from(fmt@, 0, old(args).views(), old(args).taken(), *loc);
            &&& final(target).content() == old(target).content() + o.text
            &&& match r {
                Ok(()) => o.result == Ok::<int, RenderError>(final(args).taken()),
                Err(e) => o.result == Err::<int, RenderError>(e),
            }
        }),
{
    render_from(fmt, 0, args, target, loc)
}

/// Where the template from `k` on is well formed and its directives all find
/// matching arguments from `i` on, rendering succeeds and consumes exactly
/// one argument per directive.
pub proof fn lemma_match_renders_ok(fmt: Seq<char>, k: int, args: Seq<ArgV>, i: int, loc: Locale)
    requires
        0 <= k,
        0 <= i <= args.len(),
        dirs_from(fmt, k) is Some,
        args_match_dirs(dirs_from(fmt, k)->Some_0, args, i),
    ensures
        spec_render_from(fmt, k, args, i, loc).result == Ok::<int, RenderError>(
            i + dirs_from(fmt, k)->Some_0.len(),
        ),
    decreases fmt.len() - k,
{
    let ds = dirs_from(fmt, k)->Some_0;
    if k >= fmt.len() {
    } else if fmt[k] != '%' {
        lemma_match_renders_ok(fmt, k + 1, args, i, loc);
    } else if k + 1 >= fmt.len() {
        assert(false);
    } else if fmt[k + 1] == '%' {
        lemma_match_renders_ok(fmt, k + 2, args, i, loc);
    } else if fmt[k + 1] == 'l' {
        if k + 2 < fmt.len() && fmt[k + 2] == 's' {
            let ds1 = dirs_from(fmt, k + 3)->Some_0;
            assert(ds == seq![Dir::WideText] + ds1);
            assert(ds.len() == 1 + ds1.len());
            assert(ds[0] == Dir::WideText);
            assert(arg_matches(args[i], ds[0]));
            assert(i < args.len());
            assert forall|j: int| 0 <= j < ds1.len() implies arg_matches(
                args[i + 1 + j],
                ds1[j],
            ) by {
                assert(ds[j + 1] == ds1[j]);
                assert(arg_matches(args[i + (j + 1)], ds[j + 1]));
            }
            lemma_match_renders_ok(fmt, k + 3, args, i + 1, loc);
            assert(spec_render_from(fmt, k, args, i, loc) == spec_render_step(
                fmt,
                k + 3,
                args,
                i,
                loc,
                Dir::WideText,
            ));
            assert(spec_render_from(fmt, k, args, i, loc).result == spec_render_from(
                fmt,
                k + 3,
                args,
                i + 1,
                loc,
            ).result);
        } else {
            assert(false);
        }
    } else {
        match single_dir(fmt[k + 1]) {
            Some(d) => {
                let ds1 = dirs_from(fmt, k + 2)->Some_0;
                assert(ds == seq![d] + ds1);
                assert(ds.len() == 1 + ds1.len());
                assert(ds[0] == d);
                assert(arg_matches(args[i], ds[0]));
                assert(i < args.len());
                assert forall|j: int| 0 <= j < ds1.len() implies arg_matches(
                    args[i + 1 + j],
                    ds1[j],
                ) by {
                    assert(ds[j + 1] == ds1[j]);
                    assert(arg_matches(args[i + (j + 1)], ds[j + 1]));
                }
                lemma_match_renders_ok(fmt, k + 2, args, i + 1, loc);
                assert(spec_render_from(fmt, k, args, i, loc) == spec_render_step(
                    fmt,
                    k + 2,
                    args,
                    i,
                    loc,
                    d,
                ));
                assert(spec_render_from(fmt, k, args, i, loc).result == spec_render_from(
                    fmt,
                    k + 2,
                    args,
                    i + 1,
                    loc,
                ).result);
            },
            None => {
                assert(false);
            },
        }
    }
}

/// Rendering succeeds only on a well-formed template, and then consumes
/// exactly one argument per directive, never more than were supplied.
pub proof fn lemma_ok_consumes_dirs(fmt: Seq<char>, k: int, args: Seq<ArgV>, i: int, loc: Locale)
    requires
        0 <= k,
        0 <= i <= args.len(),
        spec_render_from(fmt, k, args, i, loc).result is Ok,
    ensures
        dirs_from(fmt, k) is Some,
        spec_render_from(fmt, k, args, i, loc).result->Ok_0 == i + dirs_from(
            fmt,
            k,
        )->Some_0.len(),
        i + dirs_from(fmt, k)->Some_0.len() <= args.len(),
    decreases fmt.len() - k,
{
    if k >= fmt.len() {
    } else if fmt[k] != '%' {
        lemma_ok_consumes_dirs(fmt, k + 1, args, i, loc);
    } else if k + 1 >= fmt.len() {
    } else if fmt[k + 1] == '%' {
        lemma_ok_consumes_dirs(fmt, k + 2, args, i, loc);
    } else if fmt[k + 1] == 'l' {
        if k + 2 < fmt.len() && fmt[k + 2] == 's' {
            assert(spec_render_from(fmt, k, args, i, loc) == spec_render_step(
                fmt,
                k + 3,
                args,
                i,
                loc,
                Dir::WideText,
            ));
            assert(i < args.len());
            lemma_ok_consumes_dirs(fmt, k + 3, args, i + 1, loc);
            assert(dirs_from(fmt, k)->Some_0 == seq![Dir::WideText] + dirs_from(
                fmt,
                k + 3,
            )->Some_0);
        }
    } else {
        match single_dir(fmt[k + 1]) {
            Some(d) => {
                assert(spec_render_from(fmt, k, args, i, loc) == spec_render_step(
                    fmt,
                    k + 2,
                    args,
                    i,
                    loc,
                    d,
                ));
                assert(i < args.len());
                lemma_ok_consumes_dirs(fmt, k + 2, args, i + 1, loc);
                assert(dirs_from(fmt, k)->Some_0 == seq![d] + dirs_from(fmt, k + 2)->Some_0);
            },
            None => {
            },
        }
    }
}

/// LAW: a well-formed template whose directives exactly match the supplied
/// arguments, one each in kind and count, renders successfully with every
/// argument consumed.
pub proof fn lemma_exact_match_succeeds(fmt: Seq<char>, args: Seq<ArgV>, loc: Locale)
    requires
        dirs_of(fmt) is Some,
        dirs_of(fmt)->Some_0.len() == args.len(),
        args_match_dirs(dirs_of(fmt)->Some_0, args, 0),
    ensures
        spec_render(fmt, args, loc).result == Ok::<int, RenderError>(args.len() as int),
{
    lemma_match_renders_ok(fmt, 0, args, 0, loc);
}

/// LAW: with more matching arguments than the template has directives,
/// rendering itself still succeeds but stops short of the end of the
/// argument list; the dispatch entry points then report the surplus as an
/// under-consumption failure, after the text was produced.
pub proof fn lemma_surplus_args_remain(fmt: Seq<char>, args: Seq<ArgV>, loc: Locale)
    requires
        dirs_of(fmt) is Some,
        dirs_of(fmt)->Some_0.len() < args.len(),
        args_match_dirs(dirs_of(fmt)->Some_0, args, 0),
    ensures
        spec_render(fmt, args, loc).result == Ok::<int, RenderError>(
            dirs_of(fmt)->Some_0.len() as int,
        ),
{
    lemma_match_renders_ok(fmt, 0, args, 0, loc);
}

/// LAW: with fewer arguments than the template has directives (or a
/// malformed template), rendering reports an engine failure: it cannot run
/// to completion.
pub proof fn lemma_missing_args_fail(fmt: Seq<char>, args: Seq<ArgV>, loc: Locale)
    requires
        match dirs_of(fmt) {
            Some(ds) => args.len() < ds.len(),
            None => true,
        },
    ensures
        spec_render(fmt, args, loc).result is Err,
{
    if spec_render(fmt, args, loc).result is Ok {
        lemma_ok_consumes_dirs(fmt, 0, args, 0, loc);
        assert(false);
    }
}

} // verus!

