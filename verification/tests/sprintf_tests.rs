use printf::args::{Arg, ToArg};
use printf::locale::c_locale;
use printf::output::WString;
use printf::render::RenderError;
use printf::{
    sprintf, sprintf_c_locale, sprintf_into, sprintf_locale, sprintf_wide, sprintf_wide_into,
    try_sprintf_locale, SprintfError,
};

// Basic sprintf with both narrow and wide templates and arguments.
#[test]
fn test_sprintf() {
    assert!(sprintf("Hello, %s!", &["world".to_arg()]).eq_str("Hello, world!"));
    let wfmt = WString::from_str("Hello, %ls!");
    assert!(sprintf_wide(wfmt.as_chars(), &["world".to_arg()]).eq_str("Hello, world!"));
    let warg = WString::from_str("world");
    assert!(sprintf_wide(wfmt.as_chars(), &[warg.to_arg()]).eq_str("Hello, world!"));
}

#[test]
fn empty_template_no_args() {
    assert!(sprintf("", &[]).eq_str(""));
}

#[test]
fn literal_only_template() {
    assert!(sprintf("just text", &[]).eq_str("just text"));
}

#[test]
fn percent_escape() {
    assert!(sprintf("100%% sure", &[]).eq_str("100% sure"));
}

#[test]
fn two_directives_in_order() {
    assert!(sprintf("%d-%d", &[1i64.to_arg(), 2i64.to_arg()]).eq_str("1-2"));
}

#[test]
fn explicit_target_appends() {
    let mut target = WString::from_str(">> ");
    sprintf_into(&mut target, "%d", &[5i64.to_arg()]);
    assert!(target.eq_str(">> 5"));
}

#[test]
fn wide_target_form() {
    let mut target = WString::new();
    let wfmt = WString::from_str("%s and %s");
    sprintf_wide_into(&mut target, wfmt.as_chars(), &["a".to_arg(), "b".to_arg()]);
    assert!(target.eq_str("a and b"));
}

// Literal-template and runtime-template call forms render identically.
#[test]
fn call_forms_agree() {
    let args = ["x".to_arg(), 3i64.to_arg()];
    let narrow = sprintf("%s=%d", &args);
    let wfmt = WString::from_str("%s=%d");
    let wide = sprintf_wide(wfmt.as_chars(), &args);
    assert!(narrow.eq_wide(&wide));
    assert!(narrow.eq_str("x=3"));
}

// The C-locale entry point equals the explicit-locale one at the C locale.
#[test]
fn c_locale_entry_equivalent() {
    let args = [7i64.to_arg(), "s".to_arg()];
    let wfmt = WString::from_str("%d %s");
    let mut a = WString::new();
    let loc = c_locale();
    sprintf_locale(&mut a, wfmt.as_chars(), &loc, &args);
    let mut b = WString::new();
    sprintf_c_locale(&mut b, wfmt.as_chars(), &args);
    assert!(a.eq_wide(&b));
    assert!(a.eq_str("7 s"));
}

// Exact match: rendering succeeds and no argument remains.
#[test]
fn exact_match_succeeds() {
    let mut target = WString::new();
    let wfmt = WString::from_str("%s has %u items");
    let loc = c_locale();
    let r = try_sprintf_locale(&mut target, wfmt.as_chars(), &loc, &["cart".to_arg(), 3u64.to_arg()]);
    assert_eq!(r, Ok(()));
    assert!(target.eq_str("cart has 3 items"));
}

// Under-supplied arguments: the engine fails after the text produced so far.
#[test]
fn under_supplied_arguments_fail() {
    let mut target = WString::new();
    let wfmt = WString::from_str("%d-%d");
    let loc = c_locale();
    let r = try_sprintf_locale(&mut target, wfmt.as_chars(), &loc, &[1i64.to_arg()]);
    assert_eq!(r, Err(SprintfError::Rendering(RenderError::MissingArgument)));
    assert!(target.eq_str("1-"));
}

// Over-supplied arguments: rendering succeeds, then the surplus is reported.
#[test]
fn surplus_arguments_reported() {
    let mut target = WString::new();
    let wfmt = WString::from_str("%d");
    let loc = c_locale();
    let r = try_sprintf_locale(&mut target, wfmt.as_chars(), &loc, &[1i64.to_arg(), 2i64.to_arg()]);
    assert_eq!(r, Err(SprintfError::Unconsumed(1)));
    assert!(target.eq_str("1"));
}

#[test]
fn trailing_percent_is_incomplete() {
    let mut target = WString::new();
    let wfmt = WString::from_str("oops %");
    let loc = c_locale();
    let r = try_sprintf_locale(&mut target, wfmt.as_chars(), &loc, &[]);
    assert_eq!(r, Err(SprintfError::Rendering(RenderError::IncompleteDirective)));
    assert!(target.eq_str("oops "));
}

#[test]
fn trailing_percent_l_is_incomplete() {
    let mut target = WString::new();
    let wfmt = WString::from_str("%l");
    let loc = c_locale();
    let r = try_sprintf_locale(&mut target, wfmt.as_chars(), &loc, &[]);
    assert_eq!(r, Err(SprintfError::Rendering(RenderError::IncompleteDirective)));
    assert!(target.eq_str(""));
}

#[test]
fn unknown_directive_reported() {
    let mut target = WString::new();
    let wfmt = WString::from_str("%q");
    let loc = c_locale();
    let r = try_sprintf_locale(&mut target, wfmt.as_chars(), &loc, &[1i64.to_arg()]);
    assert_eq!(r, Err(SprintfError::Rendering(RenderError::UnknownDirective)));
}

#[test]
fn unknown_wide_directive_reported() {
    let mut target = WString::new();
    let wfmt = WString::from_str("%lq");
    let loc = c_locale();
    let r = try_sprintf_locale(&mut target, wfmt.as_chars(), &loc, &[1i64.to_arg()]);
    assert_eq!(r, Err(SprintfError::Rendering(RenderError::UnknownDirective)));
}

#[test]
fn type_mismatch_reported() {
    let mut target = WString::new();
    let wfmt = WString::from_str("%d");
    let loc = c_locale();
    let r = try_sprintf_locale(&mut target, wfmt.as_chars(), &loc, &["nope".to_arg()]);
    assert_eq!(r, Err(SprintfError::Rendering(RenderError::TypeMismatch)));
}

// A narrow argument renders through the narrow text directive, a wide one
// through the same directive as well.
#[test]
fn text_directive_takes_both_kinds() {
    let wide = WString::from_str("wide");
    assert!(sprintf("%s/%s", &["narrow".to_arg(), wide.to_arg()]).eq_str("narrow/wide"));
}

#[test]
fn pointer_directive_renders_hex_address() {
    assert!(sprintf("%p", &[Arg::from_addr(0xdead)]).eq_str("0xdead"));
}

#[test]
fn rendering_failure_diagnostic_text() {
    let wfmt = WString::from_str("%d-%d");
    let mut target = WString::new();
    let loc = c_locale();
    let err = try_sprintf_locale(&mut target, wfmt.as_chars(), &loc, &[1i64.to_arg()]).unwrap_err();
    let d = err.diagnostic(wfmt.as_chars());
    assert!(d.eq_str("sprintf reported error \"missing argument\" with format string: %d-%d"));
}

#[test]
fn unconsumed_diagnostic_text() {
    let wfmt = WString::from_str("%d");
    let mut target = WString::new();
    let loc = c_locale();
    let args = [1i64.to_arg(), 2i64.to_arg(), 3i64.to_arg()];
    let err = try_sprintf_locale(&mut target, wfmt.as_chars(), &loc, &args).unwrap_err();
    assert_eq!(err, SprintfError::Unconsumed(2));
    let d = err.diagnostic(wfmt.as_chars());
    assert!(d.eq_str("sprintf had 2 unconsumed args for format string: %d"));
}
