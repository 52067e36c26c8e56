//! Tests of the option builders and their validation.

use simplematch::Options;
use simplematch::SimpleMatchError;
use simplematch::Wildcard;

#[test]
fn options_verify() {
    let cases: &[(Option<u8>, Option<u8>, Option<u8>, Option<u8>, bool)] = &[
        (None, None, None, None, true),
        (Some(b'%'), None, None, None, true),
        (Some(b'*'), None, None, None, true),
        (Some(b'?'), None, None, None, false),
        (Some(b'\\'), None, None, None, false),
        (Some(b'!'), None, None, None, false),
        (Some(b'_'), Some(b'_'), None, None, false),
        (Some(b'#'), None, Some(b'#'), None, false),
        (Some(b'^'), None, None, Some(b'^'), false),
        (None, Some(b'_'), None, None, true),
        (None, Some(b'*'), None, None, false),
        (None, Some(b'?'), None, None, true),
        (None, Some(b'\\'), None, None, false),
        (None, Some(b'!'), None, None, false),
        (None, Some(b'#'), Some(b'#'), None, false),
        (None, Some(b'^'), None, Some(b'^'), false),
        (None, None, Some(b'#'), None, true),
        (None, None, Some(b'*'), None, false),
        (None, None, Some(b'?'), None, false),
        (None, None, Some(b'\\'), None, true),
        (None, None, Some(b'!'), None, false),
        (None, None, Some(b'^'), Some(b'^'), false),
        (None, None, None, Some(b'^'), true),
        (None, None, None, Some(b'*'), false),
        (None, None, None, Some(b'?'), false),
        (None, None, None, Some(b'\\'), false),
        (None, None, None, Some(b'!'), true),
    ];
    for (any, one, escape, negate, expected) in cases {
        let mut options = Options::default();
        if let Some(any) = any {
            options.wildcard_any = *any;
        }
        if let Some(one) = one {
            options.wildcard_one = *one;
        }
        if let Some(escape) = escape {
            options.wildcard_escape = *escape;
        }
        if let Some(negate) = negate {
            options.class_negate = *negate;
        }
        if *expected {
            options.verify().unwrap();
        } else {
            assert_eq!(
                options.verify(),
                Err(SimpleMatchError::DuplicateCharacterAssignment)
            );
        }
    }
}

#[test]
fn options_case_insensitive() {
    let actual = Options::<u8>::default().case_insensitive(true);
    let mut expected = Options::default();
    expected.case_sensitive = false;

    assert_eq!(actual, expected);
}

#[test]
fn options_with_custom_wildcard_any() {
    let actual = Options::<u8>::default().wildcard_any_with(b'%');
    let mut expected = Options::default();
    expected.wildcard_any = b'%';
    assert_eq!(actual, expected);
}

#[test]
fn options_with_custom_wildcard_one() {
    let actual = Options::<u8>::default().wildcard_one_with(b'_');
    let mut expected = Options::default();
    expected.wildcard_one = b'_';
    assert_eq!(actual, expected);
}

#[test]
fn options_with_default_escape() {
    let actual = Options::<u8>::default().enable_escape(true);
    let mut expected = Options::default();
    expected.wildcard_escape = u8::default_escape();
    expected.is_escape_enabled = true;
    assert_eq!(actual, expected);
}

#[test]
fn options_with_custom_escape() {
    let actual = Options::<u8>::default().enable_escape_with(b'#');
    let mut expected = Options::default();
    expected.wildcard_escape = b'#';
    expected.is_escape_enabled = true;
    assert_eq!(actual, expected);
}

#[test]
fn options_with_default_classes() {
    let actual = Options::<u8>::default().enable_classes(true);
    let mut expected = Options::default();
    expected.class_negate = u8::default_class_negate();
    expected.is_classes_enabled = true;
    assert_eq!(actual, expected);
}

#[test]
fn options_with_custom_negate() {
    let actual = Options::<u8>::default().enable_classes_with(b'^');
    let mut expected = Options::default();
    expected.class_negate = b'^';
    expected.is_classes_enabled = true;
    assert_eq!(actual, expected);
}

#[test]
fn options_verified() {
    let options = Options::<u8>::default().verified().unwrap();
    assert_eq!(options, Options::default());
}

#[test]
fn options_default_symbols() {
    let options = Options::<u8>::default();
    assert_eq!(options.wildcard_any, b'*');
    assert_eq!(options.wildcard_one, b'?');
    assert_eq!(options.wildcard_escape, b'\\');
    assert_eq!(options.class_negate, b'!');
    assert!(options.case_sensitive);
    assert!(!options.is_escape_enabled);
    assert!(!options.is_classes_enabled);
}

#[test]
fn options_char_default_symbols() {
    let options = Options::<char>::default();
    assert_eq!(options.wildcard_any, '*');
    assert_eq!(options.wildcard_one, '?');
    assert_eq!(options.wildcard_escape, '\\');
    assert_eq!(options.class_negate, '!');
}

#[test]
fn simple_match_error_message() {
    let error = SimpleMatchError::DuplicateCharacterAssignment;
    assert_eq!(
        error.message(),
        "Verifying options failed: The options contain a duplicate character assignment."
    );
}

#[test]
fn pattern_options_roundtrip() {
    let pattern_options = simplematch::PatternOptions::default();
    let options: Options<u8> = Options::from(pattern_options);
    assert_eq!(options, Options::default());

    let mut custom = simplematch::PatternOptions::default();
    custom.case_sensitive = false;
    custom.is_ranges_enabled = true;
    custom.range_negate = Some(b'^');
    custom.wildcard_any = Some(b'%');
    custom.wildcard_one = None;
    custom.wildcard_escape = None;
    custom.is_escape_enabled = true;
    let options: Options<u8> = Options::from(custom);
    let expected = Options::default()
        .case_insensitive(true)
        .enable_classes_with(b'^')
        .wildcard_any_with(b'%')
        .enable_escape(true);
    assert_eq!(options, expected);
}
