//! The matching semantics: a recursive definition of what it means for a
//! pattern to match a haystack, against which both engine paths are proved.
//!
//! The definition walks the pattern unit by unit. A unit is one pattern
//! construct that consumes exactly one haystack symbol: a match-one wildcard,
//! an escape pair, a bracketed character class, or a literal symbol. The
//! match-any wildcard is the only construct that consumes a variable amount
//! of the haystack.

use vstd::prelude::*;

use crate::options::Options;
use crate::options::spec_default_options;
use crate::token::Wildcard;
use crate::token::is_ascii_lower;
use crate::token::is_ascii_upper;

verus! {

/// Case-sensitive or case-insensitive equality of two symbols.
pub open spec fn sp_match_one<T: Wildcard>(first: T, second: T, sensitive: bool) -> bool {
    if sensitive {
        first == second
    } else {
        T::sp_eq_ci(first, second)
    }
}

/// Case-sensitive or case-insensitive containment of `token` in the range
/// from `low` to `high`.
pub open spec fn sp_match_range<T: Wildcard>(token: T, low: T, high: T, sensitive: bool) -> bool {
    if sensitive {
        T::sp_in_range(token, low, high)
    } else {
        T::sp_in_range_ci(token, low, high)
    }
}

/// The number of pattern symbols the class item starting at `i` spans: three
/// for a range like `a-z`, one for a single symbol.
///
/// A symbol followed by a hyphen forms a range only if a third symbol exists
/// and that third symbol is not the closing bracket; `a-]` is the single
/// item `a`.
pub open spec fn kind_len<T: Wildcard>(p: Seq<T>, i: int) -> int {
    if i + 2 < p.len() && p[i + 1] == T::sp_class_hyphen() && p[i + 2] != T::sp_class_close() {
        3
    } else {
        1
    }
}

/// Whether the class item starting at `i` matches `tok`.
///
/// A range with equal ends collapses to a single symbol, and a range given
/// high-to-low is normalized, exactly as the parser stores it.
pub open spec fn kind_matches<T: Wildcard>(p: Seq<T>, i: int, tok: T, sensitive: bool) -> bool {
    if kind_len(p, i) == 3 {
        let first = p[i];
        let second = p[i + 2];
        if first == second {
            sp_match_one(first, tok, sensitive)
        } else if T::sp_le(first, second) {
            sp_match_range(tok, first, second, sensitive)
        } else {
            sp_match_range(tok, second, first, sensitive)
        }
    } else {
        sp_match_one(p[i], tok, sensitive)
    }
}

/// Scans class items from `j` for the closing bracket that terminates the
/// class; `None` if the pattern ends first.
pub open spec fn class_scan<T: Wildcard>(p: Seq<T>, j: int) -> Option<int>
    decreases p.len() - j,
{
    if j < 0 || j >= p.len() {
        None
    } else if p[j] == T::sp_class_close() {
        Some(j)
    } else {
        class_scan(p, j + kind_len(p, j))
    }
}

/// Whether any class item in the scan starting at `j` matches `tok`.
pub open spec fn scan_matches<T: Wildcard>(p: Seq<T>, j: int, tok: T, sensitive: bool) -> bool
    decreases p.len() - j,
{
    if j < 0 || j >= p.len() || p[j] == T::sp_class_close() {
        false
    } else {
        kind_matches(p, j, tok, sensitive) || scan_matches(p, j + kind_len(p, j), tok, sensitive)
    }
}

/// Whether the class opened at `i` is negated: the symbol right after the
/// opening bracket is the negation symbol.
pub open spec fn class_negated<T: Wildcard>(p: Seq<T>, i: int, negate: T) -> bool {
    i + 1 < p.len() && p[i + 1] == negate
}

/// The index of the first content symbol of the class opened at `i`.
pub open spec fn class_content_start<T: Wildcard>(p: Seq<T>, i: int, negate: T) -> int {
    if class_negated(p, i, negate) {
        i + 2
    } else {
        i + 1
    }
}

/// A closing bracket standing as the very first content symbol is literal,
/// not a terminator: it is consumed as an ordinary class item.
pub open spec fn class_first_literal_close<T: Wildcard>(p: Seq<T>, i: int, negate: T) -> bool {
    let c0 = class_content_start(p, i, negate);
    c0 < p.len() && p[c0] == T::sp_class_close()
}

/// The index at which the terminator scan of the class opened at `i` begins.
pub open spec fn class_scan_start<T: Wildcard>(p: Seq<T>, i: int, negate: T) -> int {
    let c0 = class_content_start(p, i, negate);
    if class_first_literal_close(p, i, negate) {
        c0 + kind_len(p, c0)
    } else {
        c0
    }
}

/// The index of the closing bracket of the class opened at `i`, or `None`
/// if the class is unterminated or too short to be a class at all.
pub open spec fn class_end<T: Wildcard>(p: Seq<T>, i: int, negate: T) -> Option<int> {
    if i + 3 > p.len() {
        None
    } else {
        class_scan(p, class_scan_start(p, i, negate))
    }
}

/// A structurally valid class opens at `i`: it has content and a terminator.
pub open spec fn class_valid<T: Wildcard>(p: Seq<T>, i: int, negate: T) -> bool {
    class_end(p, i, negate) is Some
}

/// The number of pattern symbols the valid class opened at `i` spans,
/// brackets included.
pub open spec fn class_len<T: Wildcard>(p: Seq<T>, i: int, negate: T) -> int {
    class_end(p, i, negate)->Some_0 - i + 1
}

/// Whether some item of the class opened at `i` matches `tok`, before the
/// polarity is applied: the early literal closing bracket if there is one,
/// or any item of the terminator scan.
pub open spec fn class_raw_matches<T: Wildcard>(
    p: Seq<T>,
    i: int,
    negate: T,
    tok: T,
    sensitive: bool,
) -> bool {
    let c0 = class_content_start(p, i, negate);
    (class_first_literal_close(p, i, negate) && kind_matches(p, c0, tok, sensitive))
        || scan_matches(p, class_scan_start(p, i, negate), tok, sensitive)
}

/// Whether the valid class opened at `i` matches `tok`: some item matches,
/// with the polarity applied.
pub open spec fn class_matches<T: Wildcard>(
    p: Seq<T>,
    i: int,
    negate: T,
    tok: T,
    sensitive: bool,
) -> bool {
    if class_negated(p, i, negate) {
        !class_raw_matches(p, i, negate, tok, sensitive)
    } else {
        class_raw_matches(p, i, negate, tok, sensitive)
    }
}

/// A symbol with a special meaning under these options, as the escape
/// handling understands it.
pub open spec fn is_special<T: Wildcard>(c: T, o: Options<T>) -> bool {
    ||| c == o.wildcard_any
    ||| c == o.wildcard_one
    ||| c == o.wildcard_escape
    ||| (o.is_classes_enabled && c == T::sp_class_open())
}

/// The pattern symbol at `i` is the match-any wildcard.
pub open spec fn at_any<T: Wildcard>(p: Seq<T>, o: Options<T>, i: int) -> bool {
    p[i] == o.wildcard_any
}

/// The pattern symbol at `i` acts as the match-one wildcard.
pub open spec fn at_one<T: Wildcard>(p: Seq<T>, o: Options<T>, i: int) -> bool {
    !at_any(p, o, i) && p[i] == o.wildcard_one
}

/// The pattern symbol at `i` acts as an escape: escaping is enabled, and a
/// symbol follows. An escape symbol at the very end of the pattern only
/// stands for itself.
pub open spec fn at_escape<T: Wildcard>(p: Seq<T>, o: Options<T>, i: int) -> bool {
    &&& !at_any(p, o, i)
    &&& !at_one(p, o, i)
    &&& o.is_escape_enabled
    &&& p[i] == o.wildcard_escape
    &&& i + 1 < p.len()
}

/// The pattern symbol at `i` opens a structurally valid class. An invalid
/// class is no class: its opening bracket is an ordinary literal.
pub open spec fn at_class<T: Wildcard>(p: Seq<T>, o: Options<T>, i: int) -> bool {
    &&& !at_any(p, o, i)
    &&& !at_one(p, o, i)
    &&& !at_escape(p, o, i)
    &&& o.is_classes_enabled
    &&& p[i] == T::sp_class_open()
    &&& class_valid(p, i, o.class_negate)
}

/// The number of pattern symbols the unit at `i` spans. The unit at `i` must
/// not be the match-any wildcard.
pub open spec fn unit_len<T: Wildcard>(p: Seq<T>, o: Options<T>, i: int) -> int {
    if at_one(p, o, i) {
        1
    } else if at_escape(p, o, i) {
        if is_special(p[i + 1], o) {
            2
        } else {
            1
        }
    } else if at_class(p, o, i) {
        class_len(p, i, o.class_negate)
    } else {
        1
    }
}

/// Whether the unit at `i` matches the haystack symbol `h[j]`.
///
/// An escape before a special symbol demands that symbol itself, exactly; an
/// escape before an ordinary symbol stands for the escape symbol itself,
/// exactly. Everything else compares through the configured case folding.
pub open spec fn unit_matches<T: Wildcard>(
    p: Seq<T>,
    h: Seq<T>,
    o: Options<T>,
    i: int,
    j: int,
) -> bool {
    if at_one(p, o, i) {
        true
    } else if at_escape(p, o, i) {
        if is_special(p[i + 1], o) {
            h[j] == p[i + 1]
        } else {
            h[j] == o.wildcard_escape
        }
    } else if at_class(p, o, i) {
        class_matches(p, i, o.class_negate, h[j], o.case_sensitive)
    } else {
        sp_match_one(h[j], p[i], o.case_sensitive)
    }
}

/// The pattern suffix from `i` matches the haystack suffix from `j` under
/// the options `o`.
///
/// An exhausted pattern matches only an exhausted haystack. The match-any
/// wildcard either stands for nothing or absorbs one haystack symbol and
/// stays; every other unit consumes exactly one haystack symbol.
pub open spec fn matches_from<T: Wildcard>(
    p: Seq<T>,
    h: Seq<T>,
    o: Options<T>,
    i: int,
    j: int,
) -> bool
    decreases p.len() - i, h.len() - j,
        via matches_from_decreases::<T>
{
    if i < 0 || i >= p.len() {
        j >= h.len()
    } else if at_any(p, o, i) {
        matches_from(p, h, o, i + 1, j) || (j < h.len() && matches_from(p, h, o, i, j + 1))
    } else {
        j < h.len() && unit_matches(p, h, o, i, j) && matches_from(
            p,
            h,
            o,
            i + unit_len(p, o, i),
            j + 1,
        )
    }
}

/// The terminator a class scan finds lies between the scan start and the end
/// of the pattern, and closes the class.
pub proof fn lemma_class_scan_bounds<T: Wildcard>(p: Seq<T>, j: int, e: int)
    requires
        class_scan(p, j) == Some(e),
    ensures
        j <= e < p.len(),
        p[e] == T::sp_class_close(),
    decreases p.len() - j,
{
    if j < 0 || j >= p.len() {
    } else if p[j] == T::sp_class_close() {
    } else {
        lemma_class_scan_bounds(p, j + kind_len(p, j), e);
    }
}

/// A valid class spans at least two symbols past its opening bracket and
/// ends inside the pattern.
pub proof fn lemma_class_len_bounds<T: Wildcard>(p: Seq<T>, i: int, negate: T)
    requires
        0 <= i,
        class_valid(p, i, negate),
    ensures
        3 <= class_len(p, i, negate),
        i + class_len(p, i, negate) <= p.len(),
{
    let e = class_end(p, i, negate)->Some_0;
    lemma_class_scan_bounds(p, class_scan_start(p, i, negate), e);
}

#[via_fn]
proof fn matches_from_decreases<T: Wildcard>(p: Seq<T>, h: Seq<T>, o: Options<T>, i: int, j: int) {
    if 0 <= i < p.len() && !at_any(p, o, i) && at_class(p, o, i) {
        lemma_class_len_bounds(p, i, o.class_negate);
    }
}

/// The whole pattern matches the whole haystack under the options `o`.
pub open spec fn wild_match_with<T: Wildcard>(p: Seq<T>, h: Seq<T>, o: Options<T>) -> bool {
    matches_from(p, h, o, 0, 0)
}

/// The whole pattern matches the whole haystack under the default options:
/// case-sensitive, escape and classes disabled, `*` and `?` wildcards.
pub open spec fn wild_match<T: Wildcard>(p: Seq<T>, h: Seq<T>) -> bool {
    wild_match_with(p, h, spec_default_options::<T>())
}

/// Some haystack offset at or after `j` lets the pattern suffix from `i`
/// match: the positions a match-any wildcard leaves open for the rest of the
/// pattern.
pub open spec fn star_from<T: Wildcard>(p: Seq<T>, h: Seq<T>, o: Options<T>, i: int, j: int) -> bool {
    exists|k: int| j <= k <= h.len() && #[trigger] matches_from(p, h, o, i, k)
}

/// A run of match-any wildcards absorbs any haystack prefix: if the pattern
/// suffix after the run matches from some offset `k` at or after `j`, the
/// suffix including the run matches from `j` itself.
pub proof fn lemma_star_run_intro<T: Wildcard>(
    p: Seq<T>,
    h: Seq<T>,
    o: Options<T>,
    i: int,
    i2: int,
    j: int,
    k: int,
)
    requires
        0 <= i < i2 <= p.len(),
        forall|m: int| i <= m < i2 ==> at_any(p, o, m),
        0 <= j <= k <= h.len(),
        matches_from(p, h, o, i2, k),
    ensures
        matches_from(p, h, o, i, j),
    decreases k - j, i2 - i,
{
    if j == k {
        if i + 1 < i2 {
            lemma_star_run_intro(p, h, o, i + 1, i2, j, k);
        }
    } else {
        lemma_star_run_intro(p, h, o, i, i2, j + 1, k);
    }
}

/// Conversely: if a pattern suffix beginning with a run of match-any
/// wildcards matches from `j`, the suffix after the run matches from some
/// offset at or after `j`.
pub proof fn lemma_star_run_elim<T: Wildcard>(
    p: Seq<T>,
    h: Seq<T>,
    o: Options<T>,
    i: int,
    i2: int,
    j: int,
)
    requires
        0 <= i < i2 <= p.len(),
        forall|m: int| i <= m < i2 ==> at_any(p, o, m),
        0 <= j <= h.len(),
        matches_from(p, h, o, i, j),
    ensures
        star_from(p, h, o, i2, j),
    decreases h.len() - j, i2 - i,
{
    if matches_from(p, h, o, i + 1, j) {
        if i + 1 == i2 {
            assert(j <= j <= h.len() && matches_from(p, h, o, i2, j));
        } else {
            lemma_star_run_elim(p, h, o, i + 1, i2, j);
        }
    } else {
        lemma_star_run_elim(p, h, o, i, i2, j + 1);
        let k = choose|k: int| j + 1 <= k <= h.len() && #[trigger] matches_from(p, h, o, i2, k);
        assert(j <= k <= h.len() && matches_from(p, h, o, i2, k));
    }
}

/// The pattern position `i2` is reachable from `i` in exactly `c` unit
/// steps, none of which is a match-any wildcard.
pub open spec fn chain_ok<T: Wildcard>(p: Seq<T>, o: Options<T>, i: int, i2: int, c: int) -> bool
    decreases c,
{
    if c <= 0 {
        c == 0 && i2 == i
    } else {
        0 <= i < p.len() && !at_any(p, o, i) && chain_ok(p, o, i + unit_len(p, o, i), i2, c - 1)
    }
}

/// Unit steps are forced: each non-star unit either matches the next
/// haystack symbol or the whole suffix fails, so a matching suffix still
/// matches after `c` units, with exactly `c` haystack symbols consumed.
pub proof fn lemma_chain_forced<T: Wildcard>(
    p: Seq<T>,
    h: Seq<T>,
    o: Options<T>,
    i: int,
    i2: int,
    c: int,
    j: int,
)
    requires
        chain_ok(p, o, i, i2, c),
        0 <= j <= h.len(),
        matches_from(p, h, o, i, j),
    ensures
        j + c <= h.len(),
        matches_from(p, h, o, i2, j + c),
    decreases c,
{
    if c > 0 {
        lemma_chain_forced(p, h, o, i + unit_len(p, o, i), i2, c - 1, j + 1);
    }
}

/// A chain grows by one more non-star unit at its end.
pub proof fn lemma_chain_snoc<T: Wildcard>(p: Seq<T>, o: Options<T>, i: int, i2: int, c: int)
    requires
        chain_ok(p, o, i, i2, c),
        0 <= i2 < p.len(),
        !at_any(p, o, i2),
    ensures
        chain_ok(p, o, i, i2 + unit_len(p, o, i2), c + 1),
    decreases c,
{
    if c > 0 {
        lemma_chain_snoc(p, o, i + unit_len(p, o, i), i2, c - 1);
    } else {
        assert(chain_ok(p, o, i2 + unit_len(p, o, i2), i2 + unit_len(p, o, i2), 0));
    }
}

/// An unterminated scan means no closing bracket occurs anywhere at or after
/// its start: items span one or three symbols and a closing bracket can
/// stand at none of those positions.
pub proof fn lemma_scan_none_no_close<T: Wildcard>(p: Seq<T>, j: int, m: int)
    requires
        0 <= j,
        class_scan(p, j) is None,
        j <= m < p.len(),
    ensures
        p[m] != T::sp_class_close(),
    decreases p.len() - j,
{
    T::law_hyphen_is_not_close();
    if m >= j + kind_len(p, j) {
        lemma_scan_none_no_close(p, j + kind_len(p, j), m);
    }
}

/// Once a class is unterminated, every class opened later in the pattern is
/// unterminated too: a terminator for the later class would have served as a
/// terminator for the earlier one.
pub proof fn lemma_invalid_class_monotone<T: Wildcard>(p: Seq<T>, i: int, q: int, negate: T)
    requires
        0 <= i < q,
        !class_valid(p, i, negate),
    ensures
        !class_valid(p, q, negate),
{
    T::law_hyphen_is_not_close();
    if i + 3 <= p.len() && class_valid(p, q, negate) {
        let e = class_end(p, q, negate)->Some_0;
        let sq = class_scan_start(p, q, negate);
        let c0q = class_content_start(p, q, negate);
        lemma_class_scan_bounds(p, sq, e);
        let c0 = class_content_start(p, i, negate);
        let si = class_scan_start(p, i, negate);
        if e >= si {
            lemma_scan_none_no_close(p, si, e);
        } else {
            // The terminator would lie before the earlier scan started, where
            // the only closing bracket is the early literal one, which the
            // later class consumes as content rather than as its terminator.
            assert(class_first_literal_close(p, i, negate));
            assert(e >= c0q >= q + 1 >= i + 2);
            if e == c0 {
                assert(c0q == e);
                assert(class_first_literal_close(p, q, negate));
                assert(sq >= c0q + 1);
            }
        }
    }
}

/// A trailing run of one or more match-any wildcards matches any remaining
/// haystack, including the empty remainder.
pub proof fn lemma_trailing_any_run<T: Wildcard>(p: Seq<T>, h: Seq<T>, o: Options<T>, i: int, j: int)
    requires
        0 <= i < p.len(),
        forall|m: int| i <= m < p.len() ==> at_any(p, o, m),
        0 <= j <= h.len(),
    ensures
        matches_from(p, h, o, i, j),
    decreases p.len() - i, h.len() - j,
{
    if i + 1 == p.len() {
        if j < h.len() {
            lemma_trailing_any_run(p, h, o, i, j + 1);
        } else {
            assert(matches_from(p, h, o, i + 1, j));
        }
    } else {
        lemma_trailing_any_run(p, h, o, i + 1, j);
    }
}

/// The general path under the default options asks exactly what the fast
/// path asks: the two semantics coincide by definition.
pub proof fn lemma_default_options_agree<T: Wildcard>(p: Seq<T>, h: Seq<T>)
    ensures
        wild_match_with(p, h, spec_default_options::<T>()) == wild_match::<T>(p, h),
{
}

/// A match-any wildcard that matches from a later offset also matches from
/// any earlier one: the wildcard simply absorbs the symbols in between.
pub proof fn lemma_star_absorb<T: Wildcard>(
    p: Seq<T>,
    h: Seq<T>,
    o: Options<T>,
    i: int,
    j: int,
    k: int,
)
    requires
        0 <= i < p.len(),
        at_any(p, o, i),
        0 <= j <= k <= h.len(),
        matches_from(p, h, o, i, k),
    ensures
        matches_from(p, h, o, i, j),
    decreases k - j,
{
    if j < k {
        lemma_star_absorb(p, h, o, i, j + 1, k);
    }
}

/// Peeling the first candidate offset out of `star_from`.
pub proof fn lemma_star_from_unfold<T: Wildcard>(p: Seq<T>, h: Seq<T>, o: Options<T>, i: int, j: int)
    requires
        0 <= j <= h.len(),
    ensures
        star_from(p, h, o, i, j) == (matches_from(p, h, o, i, j) || star_from(p, h, o, i, j + 1)),
{
    if star_from(p, h, o, i, j) {
        let k = choose|k: int| j <= k <= h.len() && #[trigger] matches_from(p, h, o, i, k);
        if k > j {
            assert(j + 1 <= k <= h.len() && matches_from(p, h, o, i, k));
        }
    }
    if matches_from(p, h, o, i, j) {
        assert(j <= j <= h.len() && matches_from(p, h, o, i, j));
    }
    if star_from(p, h, o, i, j + 1) {
        let k = choose|k: int| j + 1 <= k <= h.len() && #[trigger] matches_from(p, h, o, i, k);
        assert(j <= k <= h.len() && matches_from(p, h, o, i, k));
    }
}

/// A non-star unit that fails against the next haystack symbol rules that
/// offset out as a candidate.
pub proof fn lemma_star_from_step<T: Wildcard>(p: Seq<T>, h: Seq<T>, o: Options<T>, i: int, j: int)
    requires
        0 <= i < p.len(),
        !at_any(p, o, i),
        0 <= j < h.len(),
        !unit_matches(p, h, o, i, j),
    ensures
        star_from(p, h, o, i, j) == star_from(p, h, o, i, j + 1),
{
    lemma_star_from_unfold(p, h, o, i, j);
}

/// Sliding a match-one wildcard out of the anchored pattern suffix: each
/// candidate offset must hand it exactly one haystack symbol.
pub proof fn lemma_star_shift_one<T: Wildcard>(p: Seq<T>, h: Seq<T>, o: Options<T>, i: int, j: int)
    requires
        0 <= i < p.len(),
        at_one(p, o, i),
        0 <= j < h.len(),
    ensures
        star_from(p, h, o, i, j) == star_from(p, h, o, i + 1, j + 1),
{
    if star_from(p, h, o, i, j) {
        let k = choose|k: int| j <= k <= h.len() && #[trigger] matches_from(p, h, o, i, k);
        assert(matches_from(p, h, o, i + 1, k + 1));
        assert(j + 1 <= k + 1 <= h.len() && matches_from(p, h, o, i + 1, k + 1));
    }
    if star_from(p, h, o, i + 1, j + 1) {
        let k = choose|k: int| j + 1 <= k <= h.len() && #[trigger] matches_from(p, h, o, i + 1, k);
        assert(matches_from(p, h, o, i, k - 1));
        assert(j <= k - 1 <= h.len() && matches_from(p, h, o, i, k - 1));
    }
}

/// The ASCII case flip: letters swap their case, all other bytes stay.
pub open spec fn flip_case(c: u8) -> u8 {
    if is_ascii_upper(c) {
        (c + 32) as u8
    } else if is_ascii_lower(c) {
        (c - 32) as u8
    } else {
        c
    }
}

/// A haystack with the case of every ASCII letter flipped.
pub open spec fn flip_seq(h: Seq<u8>) -> Seq<u8> {
    Seq::new(h.len(), |n: int| flip_case(h[n]))
}

proof fn lemma_matches_from_case_flip(p: Seq<u8>, h: Seq<u8>, o: Options<u8>, i: int, j: int)
    requires
        !o.case_sensitive,
        o.is_escape_enabled ==> forall|n: int| 0 <= n < p.len() ==> p[n] != o.wildcard_escape,
        o.is_classes_enabled ==> forall|n: int|
            0 <= n < p.len() ==> p[n] != <u8 as Wildcard>::sp_class_open(),
        0 <= i,
        0 <= j,
    ensures
        matches_from(p, flip_seq(h), o, i, j) == matches_from(p, h, o, i, j),
    decreases p.len() - i, h.len() - j,
{
    let hf = flip_seq(h);
    if i >= p.len() {
    } else if at_any(p, o, i) {
        lemma_matches_from_case_flip(p, h, o, i + 1, j);
        if j < h.len() {
            lemma_matches_from_case_flip(p, h, o, i, j + 1);
        }
    } else {
        assert(!at_escape(p, o, i));
        assert(!at_class(p, o, i));
        assert(unit_len(p, o, i) == 1);
        if j < h.len() {
            assert(hf[j] == flip_case(h[j]));
            assert(unit_matches(p, hf, o, i, j) == unit_matches(p, h, o, i, j));
            lemma_matches_from_case_flip(p, h, o, i + 1, j + 1);
        }
    }
}

/// Case-insensitive matching cannot tell a haystack from its uniformly
/// case-flipped twin, as long as the pattern holds no escape symbol and no
/// class-open symbol: every comparison then goes through the ASCII case
/// fold, which the flip leaves unchanged. Escaped specials and class ranges
/// are exempt because they compare exactly or by the range quirk, not by
/// folding.
pub proof fn lemma_case_insensitive_flip(p: Seq<u8>, h: Seq<u8>, o: Options<u8>)
    requires
        !o.case_sensitive,
        o.is_escape_enabled ==> forall|n: int| 0 <= n < p.len() ==> p[n] != o.wildcard_escape,
        o.is_classes_enabled ==> forall|n: int|
            0 <= n < p.len() ==> p[n] != <u8 as Wildcard>::sp_class_open(),
    ensures
        wild_match_with(p, flip_seq(h), o) == wild_match_with(p, h, o),
{
    lemma_matches_from_case_flip(p, h, o, 0, 0);
}

/// Matching is a pure function of its inputs: any two results obtained for
/// the same pattern, haystack and options are equal. The engine's contracts
/// pin each call's result to `wild_match_with`, so re-invoking either entry
/// point with identical inputs yields an identical result.
pub proof fn lemma_match_deterministic<T: Wildcard>(
    p: Seq<T>,
    h: Seq<T>,
    o: Options<T>,
    first: bool,
    second: bool,
)
    requires
        first == wild_match_with(p, h, o),
        second == wild_match_with(p, h, o),
    ensures
        first == second,
{
}

/// The default-symbol matching relation written out on its own: the
/// match-any wildcard opens a choice, the match-one wildcard consumes one
/// symbol, and every other symbol matches exactly itself.
pub open spec fn plain_matches_from<T: Wildcard>(p: Seq<T>, h: Seq<T>, i: int, j: int) -> bool
    decreases p.len() - i, h.len() - j,
{
    if i < 0 || i >= p.len() {
        j >= h.len()
    } else if p[i] == T::sp_any() {
        plain_matches_from(p, h, i + 1, j) || (j < h.len() && plain_matches_from(p, h, i, j + 1))
    } else if p[i] == T::sp_one() {
        j < h.len() && plain_matches_from(p, h, i + 1, j + 1)
    } else {
        j < h.len() && h[j] == p[i] && plain_matches_from(p, h, i + 1, j + 1)
    }
}

proof fn lemma_matches_from_plain<T: Wildcard>(p: Seq<T>, h: Seq<T>, i: int, j: int)
    requires
        0 <= i,
        0 <= j,
    ensures
        matches_from(p, h, spec_default_options::<T>(), i, j) == plain_matches_from(p, h, i, j),
    decreases p.len() - i, h.len() - j,
{
    let o = spec_default_options::<T>();
    if i >= p.len() {
    } else if at_any(p, o, i) {
        lemma_matches_from_plain(p, h, i + 1, j);
        if j < h.len() {
            lemma_matches_from_plain(p, h, i, j + 1);
        }
    } else {
        assert(!at_escape(p, o, i));
        assert(!at_class(p, o, i));
        assert(unit_len(p, o, i) == 1);
        if j < h.len() {
            lemma_matches_from_plain(p, h, i + 1, j + 1);
        }
    }
}

/// Under the default options the general relation collapses to the plain
/// default-symbol relation: escapes and classes are disabled, and every
/// literal comparison is exact.
pub proof fn lemma_wild_match_is_plain<T: Wildcard>(p: Seq<T>, h: Seq<T>)
    ensures
        wild_match(p, h) == plain_matches_from(p, h, 0, 0),
{
    lemma_matches_from_plain(p, h, 0, 0);
}

} // verus!
