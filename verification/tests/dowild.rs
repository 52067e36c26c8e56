//! Tests of the fast path and the convenience trait.

use simplematch::DoWild;
use simplematch::Options;
use simplematch::dowild;
use simplematch::dowild_with;

fn check_both_paths(pattern: &str, haystack: &str, expected: bool) {
    assert_eq!(
        dowild(pattern.as_bytes(), haystack.as_bytes()),
        expected,
        "dowild: pattern {pattern:?}, haystack {haystack:?}"
    );
    assert_eq!(
        dowild_with(
            pattern.as_bytes(),
            haystack.as_bytes(),
            Options::new().enable_escape(true)
        ),
        expected,
        "escape enabled: pattern {pattern:?}, haystack {haystack:?}"
    );
    assert_eq!(
        dowild_with(
            pattern.as_bytes(),
            haystack.as_bytes(),
            Options::new().case_insensitive(true).enable_escape(true)
        ),
        expected,
        "case insensitive, escape: pattern {pattern:?}, haystack {haystack:?}"
    );
    assert_eq!(
        dowild_with(pattern.as_bytes(), haystack.as_bytes(), Options::new()),
        expected,
        "default options: pattern {pattern:?}, haystack {haystack:?}"
    );
    assert_eq!(
        dowild_with(
            pattern.as_bytes(),
            haystack.as_bytes(),
            Options::new().case_insensitive(true)
        ),
        expected,
        "case insensitive: pattern {pattern:?}, haystack {haystack:?}"
    );
}

#[test]
fn basic_test_dowild() {
    let cases: &[(&str, String, bool)] = &[
        ("", String::from(""), true),
        ("x", String::from(""), false),
        ("", String::from("x"), false),
        ("abc", String::from("abc"), true),
        ("*", String::from("abc"), true),
        ("*c", String::from("abc"), true),
        ("*b", String::from("abc"), false),
        ("a*", String::from("abc"), true),
        ("b*", String::from("abc"), false),
        ("a*", String::from("a"), true),
        ("*a", String::from("a"), true),
        ("a*b*c*d*e*", String::from("axbxcxdxe"), true),
        ("a*b*c*d*e*", String::from("axbxcxdxexxx"), true),
        ("a*b?c*x", String::from("abxbbxdbxebxczzx"), true),
        ("a*b?c*x", String::from("abxbbxdbxebxczzy"), false),
        ("a*?b", format!("{}b", "a".repeat(100)), true),
        ("a*?b", String::from("aaab"), true),
        ("a*a*a*a*b", "a".repeat(100), false),
        ("*x", String::from("xxx"), true),
        ("x******x", String::from("xx"), true),
    ];
    for (pattern, haystack, expected) in cases {
        check_both_paths(pattern, haystack, *expected);
    }
}

#[test]
fn dowild_pathological_backtracking_stays_fast() {
    // A long run of near-identical wildcard groups against a haystack of
    // bare repetitions: quadratic or exponential backtracking would time
    // this test out, the two-cursor scan finishes instantly.
    let pattern = "a*a*a*a*a*a*aa*aaa*a*a*b";
    let haystack = "a".repeat(89);
    assert_eq!(dowild(pattern.as_bytes(), haystack.as_bytes()), false);
    let matching = format!("{}b", "a".repeat(89));
    assert_eq!(dowild(pattern.as_bytes(), matching.as_bytes()), true);
}

#[test]
fn dowild_impl_for_str() {
    assert_eq!("a*c".dowild("abc"), true);
    assert_eq!(
        "a*c".dowild_with("abc", Options::new().enable_escape(true)),
        true
    );
}

#[test]
fn dowild_impl_for_string() {
    assert_eq!(String::from("a*c").as_str().dowild("abc"), true);
    assert_eq!(
        String::from("a*c")
            .as_str()
            .dowild_with("abc", Options::new().enable_escape(true)),
        true
    );
}

#[test]
fn dowild_impl_for_u8_slice() {
    assert_eq!(b"a*c".as_slice().dowild("abc".as_bytes()), true);
    assert_eq!(
        b"a*c"
            .as_slice()
            .dowild_with("abc".as_bytes(), Options::new().enable_escape(true)),
        true
    );
}

#[test]
fn dowild_impl_for_u8_vec() {
    assert_eq!(b"a*c".to_vec().dowild(b"abc".to_vec()), true);
    assert_eq!(
        b"a*c"
            .to_vec()
            .dowild_with(b"abc".to_vec(), Options::new().enable_escape(true)),
        true
    );
}

#[test]
fn dowild_impl_for_char_slice() {
    assert_eq!(
        ['a', '*', 'c']
            .as_slice()
            .dowild(['a', 'b', 'c'].as_slice()),
        true
    );
    assert_eq!(
        ['a', '*', 'c'].as_slice().dowild_with(
            ['a', 'b', 'c'].as_slice(),
            Options::new().enable_escape(true)
        ),
        true
    );
}

#[test]
fn dowild_impl_for_char_vec() {
    assert_eq!(
        ['a', '*', 'c'].to_vec().dowild(['a', 'b', 'c'].to_vec()),
        true
    );
    assert_eq!(
        ['a', '*', 'c']
            .to_vec()
            .dowild_with(['a', 'b', 'c'].to_vec(), Options::new().enable_escape(true)),
        true
    );
}

#[test]
fn dowild_impl_for_string_owned() {
    assert_eq!(String::from("a*c").dowild(String::from("abc")), true);
    assert_eq!(
        String::from("a*c").dowild_with(String::from("abc"), Options::new().enable_escape(true)),
        true
    );
}
