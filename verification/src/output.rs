use vstd::prelude::*;
use vstd::string::StrSliceExecFns;

verus! {

/// A rendering target for wide text: anything that accepts appended code
/// points.  `content` is the text the target has received so far; the
/// rendering engine writes through this trait and the locale travels beside
/// the target for the duration of one call.
pub trait WideWrite {
    /// The text held or received so far.
    spec fn content(&self) -> Seq<char>;

    /// Appends every character of `s`, in order.
    fn write_wide(&mut self, s: &[char])
        ensures
            final(self).content() == old(self).content() + s@,
    ;

    /// Appends the single character `c`.
    fn write_wchar(&mut self, c: char)
        ensures
            final(self).content() == old(self).content().push(c),
    ;
}

/// An owned wide string: a growable sequence of 32-bit code points.
pub struct WString {
    chars: Vec<char>,
}

impl View for WString {
    type V = Seq<char>;

    closed spec fn view(&self) -> Seq<char> {
        self.chars@
    }
}

impl WString {
    /// The empty wide string.
    pub fn new() -> (r: WString)
        ensures
            r@ == Seq::<char>::empty(),
    {
        WString { chars: Vec::new() }
    }

    /// Encodes a narrow string: the wide string with exactly the characters
    /// of `s`.
    pub fn from_str(s: &str) -> (r: WString)
        ensures
            r@ == s@,
    {
        let n = s.unicode_len();
        let mut chars: Vec<char> = Vec::new();
        let mut i: usize = 0;
        while i < n
            invariant
                i <= n,
                n == s@.len(),
                chars@ == s@.take(i as int),
            decreases n - i,
        {
            chars.push(s.get_char(i));
            assert(chars@ =~= s@.take(i as int + 1));
            i = i + 1;
        }
        assert(chars@ =~= s@);
        WString { chars }
    }

    /// The wide string holding exactly the characters of `s`.
    pub fn from_chars(s: &[char]) -> (r: WString)
        ensures
            r@ == s@,
    {
        let mut w = WString::new();
        w.write_wide(s);
        assert(w@ =~= s@);
        w
    }

    /// The number of code points held.
    pub fn len(&self) -> (n: usize)
        ensures
            n == self@.len(),
    {
        self.chars.len()
    }

    /// The held code points as a slice.
    pub fn as_chars(&self) -> (r: &[char])
        ensures
            r@ == self@,
    {
        self.chars.as_slice()
    }

    /// Appends the characters of the narrow string `s`.
    pub fn push_str(&mut self, s: &str)
        ensures
            final(self)@ == old(self)@ + s@,
    {
        let w = WString::from_str(s);
        self.write_wide(w.as_chars());
    }

    /// Appends one code point.
    pub fn push(&mut self, c: char)
        ensures
            final(self)@ == old(self)@.push(c),
    {
        self.chars.push(c);
    }

    /// True exactly when the held text equals the characters of `s`.
    pub fn eq_str(&self, s: &str) -> (r: bool)
        ensures
            r == (self@ == s@),
    {
        let n = s.unicode_len();
        if self.chars.len() != n {
            return false;
        }
        let mut i: usize = 0;
        while i < n
            invariant
                i <= n,
                n == s@.len(),
                self@.len() == n,
                forall|j: int| 0 <= j < i ==> self@[j] == s@[j],
            decreases n - i,
        {
            if self.chars[i] != s.get_char(i) {
                return false;
            }
            i = i + 1;
        }
        proof {
            assert(self@ =~= s@);
        }
        true
    }

    /// True exactly when the held text equals that of `other`.
    pub fn eq_wide(&self, other: &WString) -> (r: bool)
        ensures
            r == (self@ == other@),
    {
        let n = other.chars.len();
        if self.chars.len() != n {
            return false;
        }
        let mut i: usize = 0;
        while i < n
            invariant
                i <= n,
                n == other@.len(),
                self@.len() == n,
                forall|j: int| 0 <= j < i ==> self@[j] == other@[j],
            decreases n - i,
        {
            if self.chars[i] != other.chars[i] {
                return false;
            }
            i = i + 1;
        }
        proof {
            assert(self@ =~= other@);
        }
        true
    }
}

impl WideWrite for WString {
    open spec fn content(&self) -> Seq<char> {
        self@
    }

    fn write_wide(&mut self, s: &[char]) {
        let n = s.len();
        let mut i: usize = 0;
        while i < n
            invariant
                i <= n,
                n == s@.len(),
                self.chars@ == old(self).chars@ + s@.take(i as int),
            decreases n - i,
        {
            let c = s[i];
            self.chars.push(c);
            assert(self.chars@ =~= old(self).chars@ + s@.take(i as int + 1));
            i = i + 1;
        }
        assert(self.chars@ =~= old(self).chars@ + s@);
    }

    fn write_wchar(&mut self, c: char) {
        self.chars.push(c);
    }
}

} // verus!
