//! Tests of the symbol alphabet: single-symbol and range comparisons for
//! `u8` and `char`, case-sensitive and case-insensitive.

use simplematch::Wildcard;

#[test]
fn impl_wildcard_match_one() {
    let cases: &[(u8, u8, bool, bool)] = &[
        (b'j', b'j', true, true),
        (b'j', b'J', true, false),
        (b'a', b'b', true, false),
        (b'j', b'j', false, true),
        (b'j', b'J', false, true),
        (b'a', b'B', false, false),
    ];
    for (first, second, case_sensitive, expected) in cases {
        if *case_sensitive {
            assert_eq!(Wildcard::match_one_case_sensitive(*first, *second), *expected);
            assert_eq!(
                Wildcard::match_one_case_sensitive(*first as char, *second as char),
                *expected
            );
        } else {
            assert_eq!(
                Wildcard::match_one_case_insensitive(*first, *second),
                *expected
            );
            assert_eq!(
                Wildcard::match_one_case_insensitive(*first as char, *second as char),
                *expected
            );
        }
    }
}

#[test]
fn impl_wildcard_match_range_when_case_sensitive() {
    let cases: &[(u8, u8, u8, bool)] = &[
        (b'j', b'j', b'j', true),
        (b'j', b'k', b'j', false),
        (b'j', b'i', b'j', true),
        (b'j', b'k', b'i', false),
        (b'j', b'j', b'k', true),
        (b'#', b'*', b']', false),
        (b'+', b'*', b']', true),
        (b'a', b'*', b']', false),
        (b'A', b'*', b']', true),
        (b']', b'*', b'B', false),
    ];
    for (token, low, high, expected) in cases {
        assert_eq!(
            Wildcard::match_range_case_sensitive(*token, *low, *high),
            *expected
        );
        assert_eq!(
            Wildcard::match_range_case_sensitive(*token as char, *low as char, *high as char),
            *expected
        );
    }
}

#[test]
fn impl_wildcard_match_range_when_case_insensitive() {
    let cases: &[(u8, u8, u8, bool)] = &[
        (b'j', b'j', b'j', true),
        (b'J', b'J', b'J', true),
        // This token is one of the characters between `Z` and `a`
        (b'[', b'A', b'z', true),
        (b'[', b'A', b'Z', false),
        (b'[', b'a', b'z', false),
        (b'j', b'a', b'z', true),
        (b'j', b'k', b'z', false),
        (b'j', b'a', b'i', false),
        (b'J', b'A', b'Z', true),
        (b'J', b'K', b'Z', false),
        (b'J', b'A', b'I', false),
        (b'z', b'A', b'j', true),
        (b'#', b'*', b']', false),
        (b'\x1f', b'*', b']', false),
        (b'+', b'*', b']', true),
        (b'a', b'*', b']', true),
        (b'A', b'*', b']', true),
        (b']', b'*', b'B', false),
    ];
    for (token, low, high, expected) in cases {
        assert_eq!(
            Wildcard::match_range_case_insensitive(*token, *low, *high),
            *expected,
            "token {token}, low {low}, high {high}"
        );
        assert_eq!(
            Wildcard::match_range_case_insensitive(*token as char, *low as char, *high as char),
            *expected,
            "char: token {token}, low {low}, high {high}"
        );
    }
}

#[test]
fn default_symbols() {
    assert_eq!(<u8 as Wildcard>::default_any(), b'*');
    assert_eq!(<u8 as Wildcard>::default_one(), b'?');
    assert_eq!(<u8 as Wildcard>::default_escape(), b'\\');
    assert_eq!(<u8 as Wildcard>::default_class_open(), b'[');
    assert_eq!(<u8 as Wildcard>::default_class_close(), b']');
    assert_eq!(<u8 as Wildcard>::default_class_hyphen(), b'-');
    assert_eq!(<u8 as Wildcard>::default_class_negate(), b'!');
    assert_eq!(<char as Wildcard>::default_any(), '*');
    assert_eq!(<char as Wildcard>::default_one(), '?');
    assert_eq!(<char as Wildcard>::default_escape(), '\\');
    assert_eq!(<char as Wildcard>::default_class_open(), '[');
    assert_eq!(<char as Wildcard>::default_class_close(), ']');
    assert_eq!(<char as Wildcard>::default_class_hyphen(), '-');
    assert_eq!(<char as Wildcard>::default_class_negate(), '!');
}
