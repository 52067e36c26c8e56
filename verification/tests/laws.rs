//! Scenario tests for the documented matching properties.

use simplematch::Options;
use simplematch::dowild;
use simplematch::dowild_with;

#[test]
fn general_path_agrees_with_fast_path() {
    let patterns = [
        "", "*", "?", "a", "ab", "a*", "*a", "a*b", "a?b", "*?*", "a*a*a*b", "x******x",
        "[a]", "\\a",
    ];
    let haystacks = ["", "a", "b", "ab", "ba", "aab", "axxb", "[a]", "\\a", "xx"];
    for pattern in patterns {
        for haystack in haystacks {
            assert_eq!(
                dowild_with(pattern.as_bytes(), haystack.as_bytes(), Options::default()),
                dowild(pattern.as_bytes(), haystack.as_bytes()),
                "pattern {pattern:?}, haystack {haystack:?}"
            );
        }
    }
}

#[test]
fn matching_is_idempotent() {
    let cases = [("a*c", "abc"), ("a?c", "ac"), ("*", ""), ("[a-z]", "q")];
    let options = Options::new().enable_classes(true);
    for (pattern, haystack) in cases {
        let first = dowild(pattern.as_bytes(), haystack.as_bytes());
        let second = dowild(pattern.as_bytes(), haystack.as_bytes());
        assert_eq!(first, second);
        let first = dowild_with(pattern.as_bytes(), haystack.as_bytes(), options);
        let second = dowild_with(pattern.as_bytes(), haystack.as_bytes(), options);
        assert_eq!(first, second);
    }
}

#[test]
fn case_insensitive_survives_case_flip() {
    fn flip(s: &str) -> String {
        s.chars()
            .map(|c| {
                if c.is_ascii_uppercase() {
                    c.to_ascii_lowercase()
                } else if c.is_ascii_lowercase() {
                    c.to_ascii_uppercase()
                } else {
                    c
                }
            })
            .collect()
    }
    let options = Options::new().case_insensitive(true);
    let cases = [("abc", "AbC"), ("a*c", "aXYc"), ("a?c", "aBc"), ("J*", "jjj")];
    for (pattern, haystack) in cases {
        let flipped = flip(haystack);
        assert_eq!(
            dowild_with(pattern.as_bytes(), haystack.as_bytes(), options),
            dowild_with(pattern.as_bytes(), flipped.as_bytes(), options),
            "pattern {pattern:?}, haystack {haystack:?}"
        );
    }
}

#[test]
fn trailing_wildcard_any_matches_any_remainder() {
    assert_eq!(dowild(b"a*", b"a"), true);
    assert_eq!(dowild(b"a*", b""), false);
    assert_eq!(dowild(b"*", b""), true);
    assert_eq!(dowild(b"a*", b"axxxxxxx"), true);
    assert_eq!(dowild(b"a***", b"a"), true);
}

#[test]
fn unterminated_class_is_literal() {
    let classes_enabled = Options::new().enable_classes(true);
    assert_eq!(dowild_with(b"[abc", b"[abc", classes_enabled), true);
    assert_eq!(dowild_with(b"[abc", b"a", classes_enabled), false);
}

#[test]
fn range_direction_is_irrelevant() {
    let classes_enabled = Options::new().enable_classes(true);
    assert_eq!(
        dowild_with(b"[z-a]", b"m", classes_enabled),
        dowild_with(b"[a-z]", b"m", classes_enabled)
    );
    assert_eq!(dowild_with(b"[z-a]", b"m", classes_enabled), true);
}

#[test]
fn negated_class_excludes_its_members() {
    let classes_enabled = Options::new().enable_classes(true);
    assert_eq!(dowild_with(b"[!a-z]", b"a", classes_enabled), false);
    assert_eq!(dowild_with(b"[!a-z]", b"1", classes_enabled), true);
}

#[test]
fn escaped_wildcard_matches_literally() {
    let escape_enabled = Options::new().enable_escape(true);
    assert_eq!(dowild_with(b"a\\*", b"a*", escape_enabled), true);
    assert_eq!(dowild_with(b"a\\*", b"ax", escape_enabled), false);
}

#[test]
fn case_insensitive_range_spans_the_letter_gap() {
    // The counter-intuitive interoperability rule: case-insensitively, the
    // range A-j contains z, because z flipped to Z falls inside A-j.
    let options = Options::new().enable_classes(true).case_insensitive(true);
    assert_eq!(dowild_with(b"[A-j]", b"z", options), true);
    assert_eq!(dowild_with(b"[A-Z]", b"[", options), false);
    assert_eq!(dowild_with(b"[A-z]", b"[", options), true);
}
