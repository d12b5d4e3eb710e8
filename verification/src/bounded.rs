//! Strings with a maximum length, counted in UTF-8 bytes.
//!
//! Every text column of the database has such a bound; a value is checked
//! against it before it is stored.
use vstd::prelude::*;
use vstd::utf8::encode_utf8;

verus! {

/// Length of a text in UTF-8 bytes.
pub open spec fn byte_len(s: Seq<char>) -> nat {
    encode_utf8(s).len()
}

/// Whether `s` fits a bound of `max` bytes.
pub open spec fn fits(s: Seq<char>, max: nat) -> bool {
    byte_len(s) <= max
}

/// A string of at most `MAX` bytes.
#[derive(Debug)]
pub struct BoundedStr<const MAX: usize> {
    string: String,
}

/// A string that was too long for its bound.
#[derive(Debug)]
pub struct MaxLenError {
    /// The rejected string.
    pub string: String,
    /// The bound that was exceeded.
    pub max: usize,
    /// The string's length in bytes.
    pub got: usize,
}

impl<const MAX: usize> View for BoundedStr<MAX> {
    type V = Seq<char>;

    closed spec fn view(&self) -> Seq<char> {
        self.string@
    }
}

impl<const MAX: usize> BoundedStr<MAX> {
    #[verifier::type_invariant]
    spec fn within_bound(self) -> bool {
        fits(self.string@, MAX as nat)
    }

    /// Wraps `string`, or gives it back when it is longer than `MAX` bytes.
    pub fn new(string: String) -> (res: Result<Self, MaxLenError>)
        ensures
            match res {
                Ok(b) => b@ == string@ && fits(string@, MAX as nat),
                Err(e) => !fits(string@, MAX as nat) && e.string@ == string@ && e.max == MAX
                    && e.got == byte_len(string@),
            },
    {
        let got = string.as_str().as_bytes().len();
        if got > MAX {
            Err(MaxLenError { string, max: MAX, got })
        } else {
            Ok(BoundedStr { string })
        }
    }

    /// The empty string.
    pub fn empty() -> (res: Self)
        ensures
            res@ == Seq::<char>::empty(),
    {
        let string = String::new();
        assert(encode_utf8(string@) =~= Seq::<u8>::empty());
        BoundedStr { string }
    }

    /// The wrapped text.
    pub fn as_str(&self) -> (res: &str)
        ensures
            res@ == self@,
            fits(self@, MAX as nat),
    {
        proof {
            use_type_invariant(self);
        }
        self.string.as_str()
    }

    /// A copy of the wrapped text.
    pub fn to_string(&self) -> (res: String)
        ensures
            res@ == self@,
    {
        self.string.clone()
    }

    /// The wrapped text, giving up the bound.
    pub fn into_inner(self) -> (res: String)
        ensures
            res@ == self@,
    {
        self.string
    }

    /// Length in bytes.
    pub fn len(&self) -> (res: usize)
        ensures
            res == byte_len(self@),
            res <= MAX,
    {
        proof {
            use_type_invariant(self);
        }
        self.string.as_str().as_bytes().len()
    }

    /// A copy of this string.
    pub fn copy(&self) -> (res: Self)
        ensures
            res@ == self@,
    {
        proof {
            use_type_invariant(self);
        }
        BoundedStr { string: self.string.clone() }
    }
}

} // verus!
