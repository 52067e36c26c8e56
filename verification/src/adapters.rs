//! Convenience impls: match directly on strings, byte slices and vectors.

use vstd::prelude::*;
use vstd::string::StringSliceAdditionalSpecFns;
use vstd::utf8::encode_utf8;

use crate::engine::dowild;
use crate::engine::dowild_with;
use crate::options::Options;
use crate::semantics::wild_match;
use crate::semantics::wild_match_with;
use crate::token::Wildcard;

verus! {

/// A convenience trait to use [`dowild`] and [`dowild_with`] directly on
/// this type.
///
/// This trait is natively implemented for `&str`, `String`, `&[u8]`,
/// `Vec<u8>`, `&[char]` and `Vec<char>`. Strings match by their UTF-8
/// bytes.
pub trait DoWild<T: Wildcard> {
    /// The sequence of symbols this value stands for when matching.
    spec fn wild_view(&self) -> Seq<T>;

    /// Matches this `pattern` against the specified `haystack` using simple
    /// wildcard rules.
    ///
    /// See [`dowild`] for more details.
    fn dowild(&self, haystack: Self) -> (r: bool) where Self: Sized
        ensures
            r == wild_match(self.wild_view(), haystack.wild_view()),
    ;

    /// Matches this `pattern` against the specified `haystack` with
    /// customizable [`Options`].
    ///
    /// See [`dowild_with`] for more details.
    fn dowild_with(&self, haystack: Self, options: Options<T>) -> (r: bool) where Self: Sized
        ensures
            r == wild_match_with(self.wild_view(), haystack.wild_view(), options),
    ;
}

impl DoWild<u8> for &[u8] {
    open spec fn wild_view(&self) -> Seq<u8> {
        self@
    }

    fn dowild(&self, haystack: Self) -> (r: bool) {
        dowild(self, haystack)
    }

    fn dowild_with(&self, haystack: Self, options: Options<u8>) -> (r: bool) {
        dowild_with(self, haystack, options)
    }
}

impl DoWild<u8> for &str {
    open spec fn wild_view(&self) -> Seq<u8> {
        self.spec_bytes()
    }

    fn dowild(&self, haystack: Self) -> (r: bool) {
        dowild(self.as_bytes(), haystack.as_bytes())
    }

    fn dowild_with(&self, haystack: Self, options: Options<u8>) -> (r: bool) {
        dowild_with(self.as_bytes(), haystack.as_bytes(), options)
    }
}

impl DoWild<u8> for String {
    open spec fn wild_view(&self) -> Seq<u8> {
        encode_utf8(self@)
    }

    fn dowild(&self, haystack: Self) -> (r: bool) {
        dowild(self.as_str().as_bytes(), haystack.as_str().as_bytes())
    }

    fn dowild_with(&self, haystack: Self, options: Options<u8>) -> (r: bool) {
        dowild_with(self.as_str().as_bytes(), haystack.as_str().as_bytes(), options)
    }
}

impl DoWild<u8> for Vec<u8> {
    open spec fn wild_view(&self) -> Seq<u8> {
        self@
    }

    fn dowild(&self, haystack: Self) -> (r: bool) {
        dowild(self.as_slice(), haystack.as_slice())
    }

    fn dowild_with(&self, haystack: Self, options: Options<u8>) -> (r: bool) {
        dowild_with(self.as_slice(), haystack.as_slice(), options)
    }
}

impl DoWild<char> for &[char] {
    open spec fn wild_view(&self) -> Seq<char> {
        self@
    }

    fn dowild(&self, haystack: Self) -> (r: bool) {
        dowild(self, haystack)
    }

    fn dowild_with(&self, haystack: Self, options: Options<char>) -> (r: bool) {
        dowild_with(self, haystack, options)
    }
}

impl DoWild<char> for Vec<char> {
    open spec fn wild_view(&self) -> Seq<char> {
        self@
    }

    fn dowild(&self, haystack: Self) -> (r: bool) {
        dowild(self.as_slice(), haystack.as_slice())
    }

    fn dowild_with(&self, haystack: Self, options: Options<char>) -> (r: bool) {
        dowild_with(self.as_slice(), haystack.as_slice(), options)
    }
}

} // verus!
