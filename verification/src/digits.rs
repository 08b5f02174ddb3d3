use vstd::prelude::*;

use crate::locale::Locale;

verus! {

/// The character standing for one digit value below sixteen.
pub open spec fn digit_char(d: nat) -> char {
    if d == 0 {
        '0'
    } else if d == 1 {
        '1'
    } else if d == 2 {
        '2'
    } else if d == 3 {
        '3'
    } else if d == 4 {
        '4'
    } else if d == 5 {
        '5'
    } else if d == 6 {
        '6'
    } else if d == 7 {
        '7'
    } else if d == 8 {
        '8'
    } else if d == 9 {
        '9'
    } else if d == 10 {
        'a'
    } else if d == 11 {
        'b'
    } else if d == 12 {
        'c'
    } else if d == 13 {
        'd'
    } else if d == 14 {
        'e'
    } else {
        'f'
    }
}

/// The decimal digits of `n`, most significant first, no sign, no grouping.
pub open spec fn spec_udec(n: nat) -> Seq<char>
    decreases n,
{
    if n < 10 {
        seq![digit_char(n)]
    } else {
        spec_udec(n / 10).push(digit_char(n % 10))
    }
}

/// The hexadecimal digits of `n`, most significant first, lower case.
pub open spec fn spec_uhex(n: nat) -> Seq<char>
    decreases n,
{
    if n < 16 {
        seq![digit_char(n)]
    } else {
        spec_uhex(n / 16).push(digit_char(n % 16))
    }
}

/// `ds` with `sep` inserted before every group of three characters counted
/// from the right, as locales with digit grouping render integers.
pub open spec fn spec_group3(ds: Seq<char>, sep: char) -> Seq<char>
    decreases ds.len(),
{
    if ds.len() <= 3 {
        ds
    } else {
        spec_group3(ds.take(ds.len() - 3), sep) + seq![sep] + ds.skip(ds.len() - 3)
    }
}

/// `ds` grouped as `loc` asks: untouched without a grouping separator.
pub open spec fn spec_grouped(ds: Seq<char>, loc: Locale) -> Seq<char> {
    match loc.thousands_sep {
        Some(sep) => spec_group3(ds, sep),
        None => ds,
    }
}

/// The rendering of the signed integer `v` in decimal under `loc`.
pub open spec fn spec_idec_loc(v: int, loc: Locale) -> Seq<char> {
    if v < 0 {
        seq!['-'] + spec_grouped(spec_udec((-v) as nat), loc)
    } else {
        spec_grouped(spec_udec(v as nat), loc)
    }
}

/// The digit character for `d`.
fn digit_exec(d: u64) -> (c: char)
    requires
        d < 16,
    ensures
        c == digit_char(d as nat),
{
    if d == 0 {
        '0'
    } else if d == 1 {
        '1'
    } else if d == 2 {
        '2'
    } else if d == 3 {
        '3'
    } else if d == 4 {
        '4'
    } else if d == 5 {
        '5'
    } else if d == 6 {
        '6'
    } else if d == 7 {
        '7'
    } else if d == 8 {
        '8'
    } else if d == 9 {
        '9'
    } else if d == 10 {
        'a'
    } else if d == 11 {
        'b'
    } else if d == 12 {
        'c'
    } else if d == 13 {
        'd'
    } else if d == 14 {
        'e'
    } else {
        'f'
    }
}

/// Appends the decimal digits of `n` to `out`.
fn push_udec(out: &mut Vec<char>, n: u64)
    ensures
        final(out)@ == old(out)@ + spec_udec(n as nat),
    decreases n,
{
    if n < 10 {
        out.push(digit_exec(n));
        assert(out@ =~= old(out)@ + spec_udec(n as nat));
    } else {
        push_udec(out, n / 10);
        out.push(digit_exec(n % 10));
        assert(out@ =~= old(out)@ + spec_udec(n as nat));
    }
}

/// Appends the hexadecimal digits of `n` to `out`.
fn push_uhex(out: &mut Vec<char>, n: u64)
    ensures
        final(out)@ == old(out)@ + spec_uhex(n as nat),
    decreases n,
{
    if n < 16 {
        out.push(digit_exec(n));
        assert(out@ =~= old(out)@ + spec_uhex(n as nat));
    } else {
        push_uhex(out, n / 16);
        out.push(digit_exec(n % 16));
        assert(out@ =~= old(out)@ + spec_uhex(n as nat));
    }
}

/// The first `n` characters of `ds`, grouped in threes by `sep`.
fn group_prefix(ds: &Vec<char>, n: usize, sep: char) -> (r: Vec<char>)
    requires
        n <= ds@.len(),
    ensures
        r@ == spec_group3(ds@.take(n as int), sep),
    decreases n,
{
    if n <= 3 {
        let mut r: Vec<char> = Vec::new();
        let mut i: usize = 0;
        while i < n
            invariant
                i <= n,
                n <= ds@.len(),
                r@ == ds@.take(i as int),
            decreases n - i,
        {
            r.push(ds[i]);
            assert(r@ =~= ds@.take(i as int + 1));
            i = i + 1;
        }
        assert(ds@.take(n as int).len() <= 3);
        r
    } else {
        let mut r = group_prefix(ds, n - 3, sep);
        r.push(sep);
        r.push(ds[n - 3]);
        r.push(ds[n - 2]);
        r.push(ds[n - 1]);
        proof {
            let t = ds@.take(n as int);
            assert(t.take(n - 3) =~= ds@.take(n - 3));
            assert(r@ =~= spec_group3(t.take(n - 3), sep) + seq![sep] + t.skip(n - 3));
        }
        r
    }
}

/// Renders the unsigned integer `n` in decimal under `loc`.
pub fn fmt_udec(n: u64, loc: &Locale) -> (r: Vec<char>)
    ensures
        r@ == spec_grouped(spec_udec(n as nat), *loc),
{
    let mut ds: Vec<char> = Vec::new();
    push_udec(&mut ds, n);
    assert(ds@ =~= spec_udec(n as nat));
    match loc.thousands_sep {
        None => ds,
        Some(sep) => {
            let len = ds.len();
            let r = group_prefix(&ds, len, sep);
            assert(ds@.take(len as int) =~= ds@);
            r
        },
    }
}

/// Renders the signed integer `v` in decimal under `loc`.
pub fn fmt_idec(v: i64, loc: &Locale) -> (r: Vec<char>)
    ensures
        r@ == spec_idec_loc(v as int, *loc),
{
    if v >= 0 {
        fmt_udec(v as u64, loc)
    } else {
        let m: u64 = (-(v as i128)) as u64;
        let mut r: Vec<char> = Vec::new();
        r.push('-');
        let mut ds = fmt_udec(m, loc);
        r.append(&mut ds);
        assert(r@ =~= seq!['-'] + spec_grouped(spec_udec((-(v as int)) as nat), *loc));
        r
    }
}

/// Renders the unsigned integer `n` in hexadecimal.
pub fn fmt_uhex(n: u64) -> (r: Vec<char>)
    ensures
        r@ == spec_uhex(n as nat),
{
    let mut ds: Vec<char> = Vec::new();
    push_uhex(&mut ds, n);
    assert(ds@ =~= spec_uhex(n as nat));
    ds
}

} // verus!
