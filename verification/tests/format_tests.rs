use printf::args::{ArgList, ToArg};
use printf::locale::{c_locale, Locale};
use printf::output::WString;
use printf::render::render;
use printf::{sprintf, try_sprintf_locale};

#[test]
fn decimal_zero() {
    assert!(sprintf("%d", &[0i64.to_arg()]).eq_str("0"));
}

#[test]
fn decimal_negative() {
    assert!(sprintf("%d", &[(-42i64).to_arg()]).eq_str("-42"));
}

#[test]
fn decimal_extremes() {
    assert!(sprintf("%d", &[i64::MIN.to_arg()]).eq_str("-9223372036854775808"));
    assert!(sprintf("%d", &[i64::MAX.to_arg()]).eq_str("9223372036854775807"));
}

#[test]
fn unsigned_max() {
    assert!(sprintf("%u", &[u64::MAX.to_arg()]).eq_str("18446744073709551615"));
}

#[test]
fn hex_digits() {
    assert!(sprintf("%x", &[255u64.to_arg()]).eq_str("ff"));
    assert!(sprintf("%x", &[0u64.to_arg()]).eq_str("0"));
    assert!(sprintf("%x", &[0x1234abcdu64.to_arg()]).eq_str("1234abcd"));
}

#[test]
fn char_directive() {
    assert!(sprintf("%c%c", &['O'.to_arg(), 'k'.to_arg()]).eq_str("Ok"));
}

#[test]
fn wide_char_argument() {
    assert!(sprintf("snow: %c", &['\u{2603}'.to_arg()]).eq_str("snow: \u{2603}"));
}

#[test]
fn narrow_integer_conversions() {
    assert!(sprintf("%d", &[(-7i32).to_arg()]).eq_str("-7"));
    assert!(sprintf("%u", &[7u32.to_arg()]).eq_str("7"));
    assert!(sprintf("%u", &[7usize.to_arg()]).eq_str("7"));
}

#[test]
fn string_argument_conversions() {
    let owned = String::from("owned");
    assert!(sprintf("%s", &[owned.to_arg()]).eq_str("owned"));
    let wide = WString::from_str("wide");
    assert!(sprintf("%ls", &[wide.to_arg()]).eq_str("wide"));
}

fn grouping_locale() -> Locale {
    Locale { decimal_sep: '.', thousands_sep: Some(',') }
}

#[test]
fn grouped_decimal() {
    let loc = grouping_locale();
    let mut target = WString::new();
    let wfmt = WString::from_str("%d");
    let r = try_sprintf_locale(&mut target, wfmt.as_chars(), &loc, &[1234567i64.to_arg()]);
    assert_eq!(r, Ok(()));
    assert!(target.eq_str("1,234,567"));
}

#[test]
fn grouped_decimal_boundaries() {
    let loc = grouping_locale();
    let wfmt = WString::from_str("%d");
    let cases: [(i64, &str); 4] = [(123, "123"), (1234, "1,234"), (-1234, "-1,234"), (0, "0")];
    for (value, expected) in cases {
        let mut target = WString::new();
        let r = try_sprintf_locale(&mut target, wfmt.as_chars(), &loc, &[value.to_arg()]);
        assert_eq!(r, Ok(()));
        assert!(target.eq_str(expected));
    }
}

#[test]
fn grouped_unsigned() {
    let loc = grouping_locale();
    let mut target = WString::new();
    let wfmt = WString::from_str("%u");
    let r = try_sprintf_locale(&mut target, wfmt.as_chars(), &loc, &[1000u64.to_arg()]);
    assert_eq!(r, Ok(()));
    assert!(target.eq_str("1,000"));
}

#[test]
fn c_locale_does_not_group() {
    let loc = c_locale();
    let mut target = WString::new();
    let wfmt = WString::from_str("%d");
    let r = try_sprintf_locale(&mut target, wfmt.as_chars(), &loc, &[1234567i64.to_arg()]);
    assert_eq!(r, Ok(()));
    assert!(target.eq_str("1234567"));
}

#[test]
fn wstring_round_trip() {
    let w = WString::from_str("abc");
    assert_eq!(w.len(), 3);
    assert!(w.eq_str("abc"));
    assert!(!w.eq_str("abd"));
    assert!(!w.eq_str("ab"));
}

#[test]
fn wstring_push_and_from_chars() {
    let mut w = WString::new();
    w.push('h');
    w.push('i');
    assert!(w.eq_str("hi"));
    let copy = WString::from_chars(w.as_chars());
    assert!(copy.eq_wide(&w));
}

#[test]
fn arglist_cursor_tracks_consumption() {
    let args = [1i64.to_arg(), 2i64.to_arg()];
    let mut list = ArgList::new(&args);
    assert_eq!(list.remaining(), 2);
    assert!(list.next().is_some());
    assert_eq!(list.remaining(), 1);
    assert!(list.next().is_some());
    assert_eq!(list.remaining(), 0);
    assert!(list.next().is_none());
    assert_eq!(list.remaining(), 0);
}

// The engine consumes arguments left to right and writes through the target.
#[test]
fn engine_interface_consumes_in_order() {
    let args = ["a".to_arg(), "b".to_arg()];
    let mut list = ArgList::new(&args);
    let mut target = WString::new();
    let loc = c_locale();
    let wfmt = WString::from_str("%s then %s");
    let r = render(wfmt.as_chars(), &mut list, &mut target, &loc);
    assert_eq!(r, Ok(()));
    assert_eq!(list.remaining(), 0);
    assert!(target.eq_str("a then b"));
}

#[test]
fn wstring_non_ascii() {
    let w = WString::from_str("héllo \u{2603}");
    assert!(w.eq_str("héllo \u{2603}"));
    assert_eq!(w.len(), 7);
}
