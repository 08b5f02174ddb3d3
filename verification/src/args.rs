use vstd::prelude::*;

use crate::output::WString;

verus! {

/// The mathematical view of one erased argument.
pub enum ArgV {
    Int(int),
    Uint(nat),
    Char(char),
    Str(Seq<char>),
    WStr(Seq<char>),
    Ptr(nat),
}

/// One caller value, erased into a closed set of renderable kinds: signed
/// and unsigned integers, a single code point, narrow and wide text, and an
/// opaque address for pointer-style directives.  Each value owns its payload
/// for the duration of one rendering call.
pub enum Arg {
    I64(i64),
    U64(u64),
    Char(char),
    Str(String),
    WStr(WString),
    Ptr(usize),
}

impl View for Arg {
    type V = ArgV;

    open spec fn view(&self) -> ArgV {
        match self {
            Arg::I64(v) => ArgV::Int(*v as int),
            Arg::U64(v) => ArgV::Uint(*v as nat),
            Arg::Char(c) => ArgV::Char(*c),
            Arg::Str(s) => ArgV::Str(s@),
            Arg::WStr(w) => ArgV::WStr(w@),
            Arg::Ptr(p) => ArgV::Ptr(*p as nat),
        }
    }
}

impl Arg {
    /// Erases an address value for pointer-style directives.
    pub fn from_addr(addr: usize) -> (r: Arg)
        ensures
            r@ == ArgV::Ptr(addr as nat),
    {
        Arg::Ptr(addr)
    }
}

/// The views of a whole argument sequence, in order.
pub open spec fn arg_views_of(args: Seq<Arg>) -> Seq<ArgV> {
    args.map(|i: int, a: Arg| a@)
}

/// The sanctioned construction path from a native value to an [`Arg`].
/// Conversion is total for the supported types; an unsupported type simply
/// has no implementation, so the mistake is caught before any call runs.
pub trait ToArg {
    /// The view of the argument this value erases to.
    spec fn arg_view(&self) -> ArgV;

    /// Erases the value into its tagged representation, losing nothing.
    fn to_arg(&self) -> (r: Arg)
        ensures
            r@ == self.arg_view(),
    ;
}

impl ToArg for i64 {
    open spec fn arg_view(&self) -> ArgV {
        ArgV::Int(*self as int)
    }

    fn to_arg(&self) -> (r: Arg) {
        Arg::I64(*self)
    }
}

impl ToArg for i32 {
    open spec fn arg_view(&self) -> ArgV {
        ArgV::Int(*self as int)
    }

    fn to_arg(&self) -> (r: Arg) {
        Arg::I64(*self as i64)
    }
}

impl ToArg for u64 {
    open spec fn arg_view(&self) -> ArgV {
        ArgV::Uint(*self as nat)
    }

    fn to_arg(&self) -> (r: Arg) {
        Arg::U64(*self)
    }
}

impl ToArg for u32 {
    open spec fn arg_view(&self) -> ArgV {
        ArgV::Uint(*self as nat)
    }

    fn to_arg(&self) -> (r: Arg) {
        Arg::U64(*self as u64)
    }
}

impl ToArg for usize {
    open spec fn arg_view(&self) -> ArgV {
        ArgV::Uint(*self as nat)
    }

    fn to_arg(&self) -> (r: Arg) {
        Arg::U64(*self as u64)
    }
}

impl ToArg for char {
    open spec fn arg_view(&self) -> ArgV {
        ArgV::Char(*self)
    }

    fn to_arg(&self) -> (r: Arg) {
        Arg::Char(*self)
    }
}

impl ToArg for str {
    open spec fn arg_view(&self) -> ArgV {
        ArgV::Str(self@)
    }

    fn to_arg(&self) -> (r: Arg) {
        Arg::Str(self.to_owned())
    }
}

impl ToArg for String {
    open spec fn arg_view(&self) -> ArgV {
        ArgV::Str(self@)
    }

    fn to_arg(&self) -> (r: Arg) {
        Arg::Str(self.clone())
    }
}

impl ToArg for WString {
    open spec fn arg_view(&self) -> ArgV {
        ArgV::WStr(self@)
    }

    fn to_arg(&self) -> (r: Arg) {
        Arg::WStr(WString::from_chars(self.as_chars()))
    }
}

/// An ordered, fixed-length sequence of arguments with a consumption cursor.
/// Built once per rendering call; the engine advances the cursor as it
/// consumes arguments, and the cursor never exceeds the length.
pub struct ArgList<'a> {
    args: &'a [Arg],
    cursor: usize,
}

impl<'a> ArgList<'a> {
    /// The views of the underlying arguments, in order.
    pub closed spec fn views(self) -> Seq<ArgV> {
        arg_views_of(self.args@)
    }

    /// How many arguments have been consumed so far.
    pub closed spec fn taken(self) -> int {
        self.cursor as int
    }

    /// The cursor stays within the list.
    pub closed spec fn wf(self) -> bool {
        self.cursor <= self.args@.len()
    }

    /// Wraps a borrowed argument slice; the cursor starts at zero.
    pub fn new(args: &'a [Arg]) -> (r: ArgList<'a>)
        ensures
            r.wf(),
            r.taken() == 0,
            r.views() == arg_views_of(args@),
    {
        ArgList { args, cursor: 0 }
    }

    /// How many arguments remain unconsumed.
    pub fn remaining(&self) -> (r: usize)
        requires
            self.wf(),
        ensures
            r == self.views().len() - self.taken(),
    {
        self.args.len() - self.cursor
    }

    /// Takes the next argument, advancing the cursor; `None` once exhausted.
    pub fn next(&mut self) -> (r: Option<&'a Arg>)
        requires
            old(self).wf(),
        ensures
            final(self).wf(),
            final(self).views() == old(self).views(),
            if old(self).taken() < old(self).views().len() {
                &&& final(self).taken() == old(self).taken() + 1
                &&& r is Some
                &&& (r->Some_0)@ == old(self).views()[old(self).taken()]
            } else {
                &&& r is None
                &&& *final(self) == *old(self)
            },
    {
        let s = self.args;
        if self.cursor < s.len() {
            let a = &s[self.cursor];
            self.cursor = self.cursor + 1;
            Some(a)
        } else {
            None
        }
    }
}

} // verus!
