//! Tests of the general path: escaping, character classes and custom
//! symbols.

use simplematch::DoWild;
use simplematch::Options;
use simplematch::dowild_with;

#[test]
fn dowild_with_impl_for_str() {
    assert_eq!("a*c".dowild("abc"), true);
    assert_eq!(
        "a*c".dowild_with("abc", Options::new().enable_escape(true)),
        true
    );
}

#[test]
fn dowild_with_impl_for_string() {
    assert_eq!(String::from("a*c").as_str().dowild("abc"), true);
    assert_eq!(
        String::from("a*c")
            .as_str()
            .dowild_with("abc", Options::new().enable_escape(true)),
        true
    );
}

#[test]
fn dowild_with_impl_for_u8_slice() {
    assert_eq!(b"a*c".as_slice().dowild("abc".as_bytes()), true);
    assert_eq!(
        b"a*c"
            .as_slice()
            .dowild_with("abc".as_bytes(), Options::new().enable_escape(true)),
        true
    );
}

#[test]
fn dowild_with_impl_for_u8_vec() {
    assert_eq!(b"a*c".to_vec().dowild(b"abc".to_vec()), true);
    assert_eq!(
        b"a*c"
            .to_vec()
            .dowild_with(b"abc".to_vec(), Options::new().enable_escape(true)),
        true
    );
}

#[test]
fn dowild_with_impl_for_char_slice() {
    assert_eq!(
        ['a', '*', 'c']
            .as_slice()
            .dowild(['a', 'b', 'c'].as_slice()),
        true
    );
    assert_eq!(
        ['a', '*', 'c'].as_slice().dowild_with(
            ['a', 'b', 'c'].as_slice(),
            Options::new().enable_escape(true)
        ),
        true
    );
}

#[test]
fn dowild_with_impl_for_char_vec() {
    assert_eq!(
        ['a', '*', 'c'].to_vec().dowild(['a', 'b', 'c'].to_vec()),
        true
    );
    assert_eq!(
        ['a', '*', 'c']
            .to_vec()
            .dowild_with(['a', 'b', 'c'].to_vec(), Options::new().enable_escape(true)),
        true
    );
}

#[test]
fn dowild_with_default_escape() {
    let cases: &[(&str, &str, bool)] = &[
        ("\\", "\\", true),
        ("\\\\", "\\", true),
        ("\\\\\\", "\\\\", true),
        ("\\*", "*", true),
        ("\\?", "?", true),
        ("a\\*", "a*", true),
        ("a\\**", "a*xxx", true),
        ("\\a", "\\a", true),
    ];
    let options = Options::new().enable_escape(true);
    for (pattern, haystack, expected) in cases {
        assert_eq!(
            dowild_with(pattern.as_bytes(), haystack.as_bytes(), options),
            *expected,
            "pattern {pattern:?}, haystack {haystack:?}"
        );
    }
}

#[test]
fn dowild_with_custom_escape() {
    let cases: &[(&str, &str, bool)] = &[
        ("\0\0\0*\0", "\0*\0", true),
        ("\0\0\0*\0", "\0*\0\0\0\0\0\0\0", false),
    ];
    let options = Options::new().enable_escape_with(b'\0');
    for (pattern, haystack, expected) in cases {
        assert_eq!(
            dowild_with(pattern.as_bytes(), haystack.as_bytes(), options),
            *expected,
            "pattern {pattern:?}, haystack {haystack:?}"
        );
    }
}

#[test]
fn dowild_with_escape() {
    let cases: &[(&str, &str, bool)] = &[
        ("\\*", "*", true),
        ("\\?", "?", true),
        ("a\\*", "a*", true),
        ("a\\?", "a?", true),
        ("a\\**", "a*xxx", true),
        ("a\\??", "a?x", true),
    ];
    let options = Options::new().enable_escape(true);
    for (pattern, haystack, expected) in cases {
        assert_eq!(
            dowild_with(pattern.as_bytes(), haystack.as_bytes(), options),
            *expected,
            "enable_escape: pattern {pattern:?}"
        );
        assert_eq!(
            dowild_with(
                pattern.replace('\\', "&").as_bytes(),
                haystack.as_bytes(),
                options.enable_escape_with(b'&')
            ),
            *expected,
            "enable_escape_with '&': pattern {pattern:?}"
        );
        assert_eq!(
            dowild_with(
                pattern.replace('*', "%").as_bytes(),
                haystack.replace('*', "%").as_bytes(),
                options.wildcard_any_with(b'%')
            ),
            *expected,
            "escape and wildcard_any_with '%': pattern {pattern:?}"
        );
        assert_eq!(
            dowild_with(
                pattern.replace('?', "_").as_bytes(),
                haystack.replace('?', "_").as_bytes(),
                options.wildcard_one_with(b'_')
            ),
            *expected,
            "escape and wildcard_one_with '_': pattern {pattern:?}"
        );
    }
}

#[test]
fn dowild_with_escape_and_classes() {
    let cases: &[(&str, &str, bool)] = &[
        ("\\[", "[", true),
        ("\\]", "]", false),
        ("\\!", "!", false),
        ("\\]", "\\]", true),
        ("\\!", "\\!", true),
    ];
    let options = Options::new().enable_escape(true).enable_classes(true);
    for (pattern, haystack, expected) in cases {
        assert_eq!(
            dowild_with(pattern.as_bytes(), haystack.as_bytes(), options),
            *expected,
            "escape and classes: pattern {pattern:?}"
        );
        assert_eq!(
            dowild_with(
                pattern.replace('\\', "#").as_bytes(),
                haystack.replace('\\', "#").as_bytes(),
                options.enable_escape_with(b'#')
            ),
            *expected,
            "enable_escape_with '#' and classes: pattern {pattern:?}"
        );
    }
}

#[test]
fn dowild_with_class() {
    let cases: &[(&str, &[&str], bool)] = &[
        ("[]", &["[]"], true),
        ("[abc", &["[abc"], true),
        ("a]", &["a]"], true),
        ("a[", &["a["], true),
        ("[a]", &["a"], true),
        ("[aaaaaa]", &["a"], true),
        ("[!]", &["!"], false),
        ("[!a]", &["a"], false),
        ("[a!]", &["a", "!"], true),
        ("[*]", &["*"], true),
        ("[?]", &["?"], true),
        ("[\\]", &["\\"], true),
        ("[]]", &["]"], true),
        ("[]![]", &["]", "!", "["], true),
        ("[!]]", &["]"], false),
        ("[]]]", &["]]"], true),
        ("[[]", &["["], true),
        ("[[[]", &["["], true),
        ("[]-]", &["]", "-"], true),
        ("[-]]", &["-]"], true),
        ("[-]", &["-"], true),
        ("[!-]", &["-"], false),
        ("[a-]", &["-", "a"], true),
        ("[-a]", &["-", "a"], true),
        ("[a-a]", &["a"], true),
        ("[a-z]", &["a", "m", "z"], true),
        ("[!a-z]", &["a", "m", "z"], false),
        ("[a-z]", &["A", "M", "Z"], false),
        ("[z-a]", &["a", "m", "z"], true),
        ("[!z-a]", &["a", "m", "z"], false),
        ("[a-zA-Z]", &["a", "m", "z", "A", "M", "Z"], true),
        ("[!a-zA-Z]", &["a", "m", "z", "A", "M", "Z"], false),
        ("a[a-zA-Z]", &["aa", "az", "aA", "aZ"], true),
        ("[a-zA-Z]z", &["az", "Az", "Zz"], true),
        ("a[a-zA-Z]z", &["aaz", "azz", "aAz", "aZz"], true),
    ];
    let options = Options::new().enable_classes(true);
    for (pattern, haystacks, expected) in cases {
        for haystack in *haystacks {
            assert_eq!(
                dowild_with(pattern.as_bytes(), haystack.as_bytes(), options),
                *expected,
                "enable_classes: pattern {pattern:?}, haystack {haystack:?}"
            );
            assert_eq!(
                dowild_with(
                    pattern.replace('!', "^").as_bytes(),
                    haystack.replace('!', "^").as_bytes(),
                    options.enable_classes_with(b'^')
                ),
                *expected,
                "enable_classes_with '^': pattern {pattern:?}, haystack {haystack:?}"
            );
            assert_eq!(
                dowild_with(
                    &pattern.chars().collect::<Vec<char>>(),
                    &haystack.chars().collect::<Vec<char>>(),
                    Options::new().enable_classes(true)
                ),
                *expected,
                "chars: pattern {pattern:?}, haystack {haystack:?}"
            );
        }
    }
}

#[test]
fn dowild_with_class_and_wildcards() {
    let cases: &[(&str, &[&str], bool)] = &[
        ("*[a-z]", &["a", "z", "aa", "abz"], true),
        ("[a-z]*", &["a", "z", "aa", "abz"], true),
        ("*[a-f][p-z]*[A-Z][a-z]*", &["apgAaa"], true),
    ];
    let options = Options::new().enable_classes(true);
    for (pattern, haystacks, expected) in cases {
        for haystack in *haystacks {
            assert_eq!(
                dowild_with(pattern.as_bytes(), haystack.as_bytes(), options),
                *expected,
                "pattern {pattern:?}, haystack {haystack:?}"
            );
        }
    }
}

#[test]
fn dowild_with_class_fuzz_findings() {
    let cases: &[(&str, &[&str], bool, bool)] = &[
        ("*[a]", &["cba"], true, true),
        ("*[--$j-/]", &["*"], true, true),
        ("[n", &["\0"], false, true),
        ("*[x", &[".[x"], true, true),
        ("[.$--.j-.\\/j.]", &["A"], true, true),
        ("[]G[a]", &["G"], true, true),
        ("[--$j\0-\0--\0-\0]", &["#"], true, true),
        ("*[--$j---\0\0\0\0]", &["/"], true, true),
        ("[\0\0-\0]", &["-"], false, true),
        ("[/-a]", &["]"], true, false),
        ("[/-A]", &["]"], false, false),
        // Case-insensitively the token z flips to Z, which falls between
        // / and j: the interoperability quirk of case-insensitive ranges.
        ("[/-j]", &["z"], true, false),
        ("[]--]G", &["GG"], true, true),
        ("[]-\0", &["5"], false, true),
        ("[!]a]", &[","], true, true),
    ];
    for (pattern, haystacks, expected, case_sensitive) in cases {
        let options = Options::new()
            .case_insensitive(!case_sensitive)
            .enable_classes(true);
        for haystack in *haystacks {
            assert_eq!(
                dowild_with(pattern.as_bytes(), haystack.as_bytes(), options),
                *expected,
                "pattern {pattern:?}, haystack {haystack:?}"
            );
            let char_options = Options::new()
                .case_insensitive(!case_sensitive)
                .enable_classes(true);
            assert_eq!(
                dowild_with(
                    &pattern.chars().collect::<Vec<char>>(),
                    &haystack.chars().collect::<Vec<char>>(),
                    char_options
                ),
                *expected,
                "chars: pattern {pattern:?}, haystack {haystack:?}"
            );
        }
    }
}
