//! The symbol alphabet: an orderable, equality-comparable unit (`u8` or
//! `char`) together with the default special symbols and the case-fold
//! predicates for single symbols and symbol ranges.

use vstd::prelude::*;

verus! {

/// The byte value of `*`.
pub const STAR: u8 = 42;

/// The byte value of `?`.
pub const QUESTION: u8 = 63;

/// The byte value of `\`.
pub const BACKSLASH: u8 = 92;

/// The byte value of `[`.
pub const OPEN: u8 = 91;

/// The byte value of `]`.
pub const CLOSE: u8 = 93;

/// The byte value of `-`.
pub const HYPHEN: u8 = 45;

/// The byte value of `!`.
pub const BANG: u8 = 33;

/// The trait for types which should be able to be matched for a wildcard pattern.
pub trait Wildcard: Sized + Copy + PartialEq + Eq {
    /// The default token to match any number of characters, usually `*`.
    spec fn sp_any() -> Self;

    /// The default token to close a character class pattern, usually `]`.
    spec fn sp_class_close() -> Self;

    /// The default token to specify a range, usually `-`.
    spec fn sp_class_hyphen() -> Self;

    /// The default token to negate a character class, usually `!`.
    spec fn sp_class_negate() -> Self;

    /// The default token to open a character class pattern, usually `[`.
    spec fn sp_class_open() -> Self;

    /// The default token to escape special characters, usually `\`.
    spec fn sp_escape() -> Self;

    /// The default token to match exactly one character, usually `?`.
    spec fn sp_one() -> Self;

    /// The default token to match any number of characters, usually `*`.
    fn default_any() -> (r: Self)
        ensures
            r == Self::sp_any(),
    ;

    /// The default token to close a character class pattern, usually `]`.
    fn default_class_close() -> (r: Self)
        ensures
            r == Self::sp_class_close(),
    ;

    /// The default token to specify a range, usually `-`.
    fn default_class_hyphen() -> (r: Self)
        ensures
            r == Self::sp_class_hyphen(),
    ;

    /// The default token to negate a character class, usually `!`.
    fn default_class_negate() -> (r: Self)
        ensures
            r == Self::sp_class_negate(),
    ;

    /// The default token to open a character class pattern, usually `[`.
    fn default_class_open() -> (r: Self)
        ensures
            r == Self::sp_class_open(),
    ;

    /// The default token to escape special characters, usually `\`.
    fn default_escape() -> (r: Self)
        ensures
            r == Self::sp_escape(),
    ;

    /// The default token to match exactly one character, usually `?`.
    fn default_one() -> (r: Self)
        ensures
            r == Self::sp_one(),
    ;

    /// What case-insensitive equality of two tokens means for this alphabet.
    spec fn sp_eq_ci(first: Self, second: Self) -> bool;

    /// What case-sensitive range containment means for this alphabet.
    spec fn sp_in_range(token: Self, low: Self, high: Self) -> bool;

    /// What case-insensitive range containment means for this alphabet.
    spec fn sp_in_range_ci(token: Self, low: Self, high: Self) -> bool;

    /// The total order used to normalize the two ends of a range.
    spec fn sp_le(first: Self, second: Self) -> bool;

    /// Returns `true` if two characters match case-insensitive.
    fn match_one_case_insensitive(first: Self, second: Self) -> (r: bool)
        ensures
            r == Self::sp_eq_ci(first, second),
    ;

    /// Returns `true` if two characters match case-sensitive.
    fn match_one_case_sensitive(first: Self, second: Self) -> (r: bool)
        ensures
            r == (first == second),
    ;

    /// Returns `true` if the `token` matches the range from `low` to `high`
    /// case-insensitive.
    fn match_range_case_insensitive(token: Self, low: Self, high: Self) -> (r: bool)
        ensures
            r == Self::sp_in_range_ci(token, low, high),
    ;

    /// Returns `true` if the `token` matches the range from `low` to `high`
    /// case-sensitive.
    fn match_range_case_sensitive(token: Self, low: Self, high: Self) -> (r: bool)
        ensures
            r == Self::sp_in_range(token, low, high),
    ;

    /// Returns `true` if `first` orders at or below `second`.
    fn token_le(first: Self, second: Self) -> (r: bool)
        ensures
            r == Self::sp_le(first, second),
    ;

    /// The range symbol and the closing bracket are distinct symbols of the
    /// alphabet. Class scanning relies on this: a hyphen inside a range can
    /// never terminate the class.
    proof fn law_hyphen_is_not_close()
        ensures
            Self::sp_class_hyphen() != Self::sp_class_close(),
    ;
}

/// An ASCII lowercase letter.
pub open spec fn is_ascii_lower(c: u8) -> bool {
    97 <= c <= 122
}

/// An ASCII uppercase letter.
pub open spec fn is_ascii_upper(c: u8) -> bool {
    65 <= c <= 90
}

/// An ASCII letter of either case.
pub open spec fn is_ascii_alpha(c: u8) -> bool {
    is_ascii_lower(c) || is_ascii_upper(c)
}

/// The ASCII case fold: uppercase letters map to their lowercase twin, all
/// other bytes stay as they are.
pub open spec fn fold_lower(c: u8) -> u8 {
    if is_ascii_upper(c) {
        (c + 32) as u8
    } else {
        c
    }
}

/// Case-insensitive containment of an ASCII-alphabetic `token` in the range
/// from `low` to `high`: the token flipped to the opposite case is tested
/// against the original, unfolded bounds.
pub open spec fn sp_ascii_range_ci(token: u8, low: u8, high: u8) -> bool {
    if is_ascii_lower(token) {
        low <= token - 32 <= high
    } else {
        low <= token + 32 <= high
    }
}

impl Wildcard for u8 {
    open spec fn sp_any() -> Self {
        STAR
    }

    open spec fn sp_class_close() -> Self {
        CLOSE
    }

    open spec fn sp_class_hyphen() -> Self {
        HYPHEN
    }

    open spec fn sp_class_negate() -> Self {
        BANG
    }

    open spec fn sp_class_open() -> Self {
        OPEN
    }

    open spec fn sp_escape() -> Self {
        BACKSLASH
    }

    open spec fn sp_one() -> Self {
        QUESTION
    }

    #[inline]
    fn default_any() -> (r: Self) {
        STAR
    }

    #[inline]
    fn default_class_close() -> (r: Self) {
        CLOSE
    }

    #[inline]
    fn default_class_hyphen() -> (r: Self) {
        HYPHEN
    }

    #[inline]
    fn default_class_negate() -> (r: Self) {
        BANG
    }

    #[inline]
    fn default_class_open() -> (r: Self) {
        OPEN
    }

    #[inline]
    fn default_escape() -> (r: Self) {
        BACKSLASH
    }

    #[inline]
    fn default_one() -> (r: Self) {
        QUESTION
    }

    open spec fn sp_eq_ci(first: Self, second: Self) -> bool {
        fold_lower(first) == fold_lower(second)
    }

    open spec fn sp_in_range(token: Self, low: Self, high: Self) -> bool {
        low <= token <= high
    }

    open spec fn sp_in_range_ci(token: Self, low: Self, high: Self) -> bool {
        if low <= token <= high {
            true
        } else if !is_ascii_alpha(token) {
            false
        } else {
            sp_ascii_range_ci(token, low, high)
        }
    }

    open spec fn sp_le(first: Self, second: Self) -> bool {
        first <= second
    }

    #[inline]
    fn match_one_case_sensitive(first: Self, second: Self) -> (r: bool) {
        first == second
    }

    #[inline]
    fn match_one_case_insensitive(first: Self, second: Self) -> (r: bool) {
        let a = if 65 <= first && first <= 90 {
            first + 32
        } else {
            first
        };
        let b = if 65 <= second && second <= 90 {
            second + 32
        } else {
            second
        };
        a == b
    }

    #[inline]
    fn match_range_case_sensitive(token: Self, low: Self, high: Self) -> (r: bool) {
        low <= token && token <= high
    }

    #[inline]
    fn match_range_case_insensitive(token: Self, low: Self, high: Self) -> (r: bool) {
        if low <= token && token <= high {
            true
        } else if !((97 <= token && token <= 122) || (65 <= token && token <= 90)) {
            false
        } else {
            is_in_ascii_range_case_insensitive(token, low, high)
        }
    }

    #[inline]
    fn token_le(first: Self, second: Self) -> (r: bool) {
        first <= second
    }

    proof fn law_hyphen_is_not_close() {
    }
}

/// Returns true if the `token` is in the case insensitive inclusive range from
/// `low` to `high`.
///
/// `token` has to be an ascii alphabetic character.
///
/// This function can be counter-intuitive, for example for `A-j` and the token
/// `z`, this function returns `true`. However, this is how regex engines
/// usually evaluate it: the token is flipped to the opposite case and tested
/// against the original range bounds.
#[inline]
fn is_in_ascii_range_case_insensitive(token: u8, low: u8, high: u8) -> (r: bool)
    requires
        is_ascii_alpha(token),
    ensures
        r == sp_ascii_range_ci(token, low, high),
{
    if 97 <= token && token <= 122 {
        let token_uppercase = token ^ 0b0010_0000;
        assert(token ^ 0b0010_0000 == token - 32) by (bit_vector)
            requires
                97 <= token <= 122,
        ;
        low <= token_uppercase && token_uppercase <= high
    } else {
        let token_lowercase = token | 0b0010_0000;
        assert(token | 0b0010_0000 == token + 32) by (bit_vector)
            requires
                65 <= token <= 90,
        ;
        low <= token_lowercase && token_lowercase <= high
    }
}

/// An ASCII character (as a `char`).
pub open spec fn char_is_ascii(c: char) -> bool {
    c as u32 <= 127
}

/// An ASCII letter of either case (as a `char`).
pub open spec fn char_is_ascii_alpha(c: char) -> bool {
    65 <= c as u32 <= 90 || 97 <= c as u32 <= 122
}

/// The ASCII case fold of a `char`, expressed on its scalar value: ASCII
/// uppercase letters map to their lowercase twin, everything else stays.
pub open spec fn char_fold_lower(c: char) -> u32 {
    if 65 <= c as u32 <= 90 {
        (c as u32 + 32) as u32
    } else {
        c as u32
    }
}

impl Wildcard for char {
    open spec fn sp_any() -> Self {
        '*'
    }

    open spec fn sp_class_close() -> Self {
        ']'
    }

    open spec fn sp_class_hyphen() -> Self {
        '-'
    }

    open spec fn sp_class_negate() -> Self {
        '!'
    }

    open spec fn sp_class_open() -> Self {
        '['
    }

    open spec fn sp_escape() -> Self {
        '\\'
    }

    open spec fn sp_one() -> Self {
        '?'
    }

    open spec fn sp_eq_ci(first: Self, second: Self) -> bool {
        char_fold_lower(first) == char_fold_lower(second)
    }

    open spec fn sp_in_range(token: Self, low: Self, high: Self) -> bool {
        low as u32 <= token as u32 <= high as u32
    }

    open spec fn sp_in_range_ci(token: Self, low: Self, high: Self) -> bool {
        if low as u32 <= token as u32 <= high as u32 {
            true
        } else if !(char_is_ascii(low) && char_is_ascii(high) && char_is_ascii_alpha(token)) {
            false
        } else {
            sp_ascii_range_ci((token as u32) as u8, (low as u32) as u8, (high as u32) as u8)
        }
    }

    open spec fn sp_le(first: Self, second: Self) -> bool {
        first as u32 <= second as u32
    }

    #[inline]
    fn default_any() -> (r: Self) {
        '*'
    }

    #[inline]
    fn default_class_close() -> (r: Self) {
        ']'
    }

    #[inline]
    fn default_class_hyphen() -> (r: Self) {
        '-'
    }

    #[inline]
    fn default_class_negate() -> (r: Self) {
        '!'
    }

    #[inline]
    fn default_class_open() -> (r: Self) {
        '['
    }

    #[inline]
    fn default_escape() -> (r: Self) {
        '\\'
    }

    #[inline]
    fn default_one() -> (r: Self) {
        '?'
    }

    #[inline]
    fn match_one_case_insensitive(first: Self, second: Self) -> (r: bool) {
        let a = first as u32;
        let b = second as u32;
        let a_folded = if 65 <= a && a <= 90 {
            a + 32
        } else {
            a
        };
        let b_folded = if 65 <= b && b <= 90 {
            b + 32
        } else {
            b
        };
        a_folded == b_folded
    }

    #[inline]
    fn match_one_case_sensitive(first: Self, second: Self) -> (r: bool) {
        first == second
    }

    #[inline]
    fn match_range_case_sensitive(token: Self, low: Self, high: Self) -> (r: bool) {
        low as u32 <= token as u32 && token as u32 <= high as u32
    }

    #[inline]
    fn match_range_case_insensitive(token: Self, low: Self, high: Self) -> (r: bool) {
        let t = token as u32;
        let l = low as u32;
        let h = high as u32;
        if l <= t && t <= h {
            true
        } else if !(l <= 127 && h <= 127 && (65 <= t && t <= 90 || 97 <= t && t <= 122)) {
            false
        } else {
            is_in_ascii_range_case_insensitive(t as u8, l as u8, h as u8)
        }
    }

    #[inline]
    fn token_le(first: Self, second: Self) -> (r: bool) {
        first as u32 <= second as u32
    }

    proof fn law_hyphen_is_not_close() {
    }
}

} // verus!
