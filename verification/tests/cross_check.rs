//! Cross-check against an independently implemented reference matcher: the
//! wildcard pattern is translated to a regular expression and both engines
//! must agree, over a deterministic sample of patterns and haystacks free of
//! class and escape ambiguity.

use regex::bytes::RegexBuilder;
use simplematch::Options;
use simplematch::dowild;
use simplematch::dowild_with;

/// Translate a pattern of literals, `*` and `?` into an anchored regular
/// expression.
fn pattern_to_regex_text(pattern: &str) -> String {
    let mut regex = String::with_capacity(pattern.len() * 3 + 2);
    regex.push('^');
    for c in pattern.chars() {
        match c {
            '*' => regex.push_str(".*?"),
            '?' => regex.push('.'),
            c if c.is_ascii_alphanumeric() => regex.push(c),
            c => {
                regex.push('\\');
                regex.push(c);
            }
        }
    }
    regex.push('$');
    regex
}

/// A small deterministic linear congruential generator, so the sample is
/// reproducible.
struct Lcg(u64);

impl Lcg {
    fn next(&mut self) -> u64 {
        self.0 = self
            .0
            .wrapping_mul(6364136223846793005)
            .wrapping_add(1442695040888963407);
        self.0 >> 33
    }

    fn pick(&mut self, alphabet: &[char]) -> char {
        alphabet[(self.next() as usize) % alphabet.len()]
    }

    fn string(&mut self, alphabet: &[char], max_len: usize) -> String {
        let len = (self.next() as usize) % (max_len + 1);
        (0..len).map(|_| self.pick(alphabet)).collect()
    }
}

#[test]
fn cross_check_against_regex() {
    let pattern_alphabet = ['a', 'b', 'A', '*', '?', '.'];
    let haystack_alphabet = ['a', 'b', 'A', 'B', '.', 'x'];
    let mut lcg = Lcg(42);
    for round in 0..400 {
        let pattern = lcg.string(&pattern_alphabet, 8);
        let haystack = lcg.string(&haystack_alphabet, 10);
        let case_sensitive = round % 2 == 0;

        let regex = RegexBuilder::new(&pattern_to_regex_text(&pattern))
            .dot_matches_new_line(true)
            .unicode(false)
            .case_insensitive(!case_sensitive)
            .build()
            .expect("the translated pattern should be a valid regex");
        let expected = regex.is_match(haystack.as_bytes());

        let options = Options::new().case_insensitive(!case_sensitive);
        assert_eq!(
            dowild_with(pattern.as_bytes(), haystack.as_bytes(), options),
            expected,
            "pattern {pattern:?}, haystack {haystack:?}, case_sensitive {case_sensitive}"
        );
        if case_sensitive {
            assert_eq!(
                dowild(pattern.as_bytes(), haystack.as_bytes()),
                expected,
                "pattern {pattern:?}, haystack {haystack:?}"
            );
        }
    }
}
