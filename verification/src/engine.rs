//! The match engine: the two-cursor scanning/backtracking loop, in a fast
//! path with the fixed default symbols and a general path driven by
//! [`Options`].
//!
//! Both paths keep a backtrack anchor: the pattern position right after the
//! most recent match-any wildcard, and the haystack offset to retry from.
//! The loop invariant ties the whole match to the current scan position plus
//! the offsets the anchor still leaves open, which is what makes the greedy
//! single-anchor strategy sound: candidates pending at an older anchor are
//! absorbed by the next match-any wildcard the scan reaches.

use vstd::prelude::*;

use crate::classes::CharacterClasses;
use crate::classes::lemma_wf_suffix;
use crate::options::Options;
use crate::semantics::at_any;
use crate::semantics::at_class;
use crate::semantics::at_escape;
use crate::semantics::at_one;
use crate::semantics::chain_ok;
use crate::semantics::class_len;
use crate::semantics::class_valid;
use crate::semantics::is_special;
use crate::semantics::lemma_chain_forced;
use crate::semantics::lemma_chain_snoc;
use crate::semantics::lemma_class_len_bounds;
use crate::semantics::lemma_invalid_class_monotone;
use crate::semantics::lemma_star_absorb;
use crate::semantics::lemma_star_from_step;
use crate::semantics::lemma_star_from_unfold;
use crate::semantics::lemma_star_run_elim;
use crate::semantics::lemma_star_run_intro;
use crate::semantics::lemma_star_shift_one;
use crate::semantics::lemma_trailing_any_run;
use crate::semantics::matches_from;
use crate::semantics::sp_match_one;
use crate::semantics::star_from;
use crate::semantics::unit_len;
use crate::semantics::unit_matches;
use crate::semantics::wild_match;
use crate::semantics::wild_match_with;
use crate::token::Wildcard;

verus! {

/// A symbol with a special meaning under these options.
#[inline]
fn is_special_with<T: Wildcard>(c: T, options: &Options<T>) -> (r: bool)
    ensures
        r == is_special(c, *options),
{
    T::match_one_case_sensitive(c, options.wildcard_any) || T::match_one_case_sensitive(
        c,
        options.wildcard_one,
    ) || T::match_one_case_sensitive(c, options.wildcard_escape) || (options.is_classes_enabled
        && T::match_one_case_sensitive(c, T::default_class_open()))
}

/// Compare one haystack symbol against one pattern symbol under the
/// configured case sensitivity.
#[inline]
fn match_one_with<T: Wildcard>(first: T, second: T, sensitive: bool) -> (r: bool)
    ensures
        r == sp_match_one(first, second, sensitive),
{
    if sensitive {
        T::match_one_case_sensitive(first, second)
    } else {
        T::match_one_case_insensitive(first, second)
    }
}

/// This function has the same structure as [`dowild`](crate::dowild) but can
/// apply [`Options`].
#[verifier::rlimit(80)]
fn dowild_with_worker<T>(pattern: &[T], haystack: &[T], options: Options<T>) -> (r: bool) where
    T: Wildcard,

    ensures
        r == wild_match_with(pattern@, haystack@, options),
{
    let ghost p = pattern@;
    let ghost h = haystack@;
    let ghost o = options;

    let plen = pattern.len();
    let hlen = haystack.len();

    let sensitive = options.case_sensitive;
    let class_negate = options.class_negate;
    let is_classes_enabled = options.is_classes_enabled;
    let is_escape_enabled = options.is_escape_enabled;
    let wildcard_any = options.wildcard_any;
    let wildcard_escape = options.wildcard_escape;
    let wildcard_one = options.wildcard_one;

    let mut p_idx: usize = 0;
    let mut h_idx: usize = 0;

    let mut next_p_idx: usize = 0;
    let mut next_h_idx: usize = 0;

    // There are no allocations, yet. The cache allocates on first use.
    let mut classes = CharacterClasses::<T>::new();

    let mut has_seen_wildcard_any = false;
    let mut invalid_class_idx = usize::MAX;
    let ghost mut steps: int = 0;

    while p_idx < plen || h_idx < hlen
        invariant
            p == pattern@,
            h == haystack@,
            o == options,
            plen == p.len(),
            hlen == h.len(),
            sensitive == o.case_sensitive,
            class_negate == o.class_negate,
            is_classes_enabled == o.is_classes_enabled,
            is_escape_enabled == o.is_escape_enabled,
            wildcard_any == o.wildcard_any,
            wildcard_escape == o.wildcard_escape,
            wildcard_one == o.wildcard_one,
            p_idx <= plen,
            h_idx <= hlen,
            next_h_idx <= hlen,
            wild_match_with(p, h, o) == (matches_from(p, h, o, p_idx as int, h_idx as int) || (
            has_seen_wildcard_any && next_h_idx < hlen && star_from(
                p,
                h,
                o,
                next_p_idx as int,
                next_h_idx + 1,
            ))),
            has_seen_wildcard_any ==> {
                &&& next_p_idx < plen
                &&& next_h_idx <= h_idx
                &&& steps == h_idx - next_h_idx
                &&& chain_ok(p, o, next_p_idx as int, p_idx as int, steps)
                &&& (at_one(p, o, next_p_idx as int) ==> next_h_idx == hlen)
                &&& (at_any(p, o, next_p_idx as int) ==> p_idx == next_p_idx)
            },
            !has_seen_wildcard_any ==> next_h_idx == 0,
            invalid_class_idx < usize::MAX ==> !class_valid(
                p,
                invalid_class_idx as int,
                class_negate,
            ),
            classes.wf(p, class_negate),
        decreases hlen - next_h_idx, plen - p_idx + hlen - h_idx,
    {
        if p_idx < plen {
            let c = pattern[p_idx];
            if T::match_one_case_sensitive(c, wildcard_any) {
                // Candidates pending at the old anchor would reach this very
                // wildcard with at least the current haystack offset, which
                // it absorbs; so the whole match reduces to the current
                // suffix and the old anchor can be dropped.
                proof {
                    if has_seen_wildcard_any && next_h_idx < hlen && star_from(
                        p,
                        h,
                        o,
                        next_p_idx as int,
                        next_h_idx + 1,
                    ) {
                        let k = choose|k: int|
                            next_h_idx + 1 <= k <= hlen && #[trigger] matches_from(
                                p,
                                h,
                                o,
                                next_p_idx as int,
                                k,
                            );
                        lemma_chain_forced(p, h, o, next_p_idx as int, p_idx as int, steps, k);
                        lemma_star_absorb(p, h, o, p_idx as int, h_idx as int, k + steps);
                    }
                    assert(wild_match_with(p, h, o) == matches_from(
                        p,
                        h,
                        o,
                        p_idx as int,
                        h_idx as int,
                    ));
                }
                let ghost star_start = p_idx as int;
                let ghost h_entry = h_idx as int;
                has_seen_wildcard_any = true;
                p_idx += 1;

                while p_idx < plen && T::match_one_case_sensitive(pattern[p_idx], wildcard_any)
                    invariant
                        p == pattern@,
                        plen == p.len(),
                        wildcard_any == o.wildcard_any,
                        0 <= star_start,
                        star_start < p_idx,
                        p_idx <= plen,
                        forall|m: int| star_start <= m < p_idx ==> at_any(p, o, m),
                    decreases plen - p_idx,
                {
                    p_idx += 1;
                }
                if p_idx >= plen {
                    proof {
                        lemma_trailing_any_run(p, h, o, star_start, h_idx as int);
                    }
                    return true;
                }
                proof {
                    if matches_from(p, h, o, star_start, h_idx as int) {
                        lemma_star_run_elim(p, h, o, star_start, p_idx as int, h_idx as int);
                    }
                    if star_from(p, h, o, p_idx as int, h_idx as int) {
                        let k = choose|k: int|
                            h_idx as int <= k <= hlen && #[trigger] matches_from(
                                p,
                                h,
                                o,
                                p_idx as int,
                                k,
                            );
                        lemma_star_run_intro(p, h, o, star_start, p_idx as int, h_idx as int, k);
                    }
                    assert(wild_match_with(p, h, o) == star_from(
                        p,
                        h,
                        o,
                        p_idx as int,
                        h_idx as int,
                    ));
                }
                let next_c = pattern[p_idx];
                if T::match_one_case_sensitive(next_c, wildcard_one) {
                    // Every match-one wildcard after the run must consume
                    // exactly one haystack symbol, so both cursors (and with
                    // them the anchor) advance together.
                    while h_idx < hlen
                        invariant_except_break
                            p_idx < plen,
                            at_one(p, o, p_idx as int),
                        invariant
                            p == pattern@,
                            h == haystack@,
                            o == options,
                            plen == p.len(),
                            hlen == h.len(),
                            wildcard_one == o.wildcard_one,
                            wildcard_any == o.wildcard_any,
                            o.wildcard_one != o.wildcard_any,
                            star_start < p_idx,
                            h_entry <= h_idx,
                            p_idx <= plen,
                            h_idx <= hlen,
                            wild_match_with(p, h, o) == star_from(
                                p,
                                h,
                                o,
                                p_idx as int,
                                h_idx as int,
                            ),
                        ensures
                            star_start < p_idx,
                            h_entry <= h_idx,
                            p_idx <= plen,
                            h_idx <= hlen,
                            wild_match_with(p, h, o) == star_from(
                                p,
                                h,
                                o,
                                p_idx as int,
                                h_idx as int,
                            ),
                            p_idx < plen && at_one(p, o, p_idx as int) ==> h_idx == hlen,
                        decreases hlen - h_idx,
                    {
                        proof {
                            lemma_star_shift_one(p, h, o, p_idx as int, h_idx as int);
                        }
                        p_idx += 1;
                        h_idx += 1;
                        if !(p_idx < plen && T::match_one_case_sensitive(
                            pattern[p_idx],
                            wildcard_one,
                        )) {
                            break;
                        }
                    }
                    // The end of the haystack might not yet be reached but
                    // for example a pattern tail of only wildcards matches
                    // anything.
                    if p_idx >= plen {
                        proof {
                            assert(matches_from(p, h, o, plen as int, hlen as int));
                            assert(h_idx as int <= hlen <= hlen && matches_from(
                                p,
                                h,
                                o,
                                p_idx as int,
                                hlen as int,
                            ));
                        }
                        return true;
                    }
                    next_p_idx = p_idx;
                    next_h_idx = h_idx;
                    proof {
                        steps = 0;
                        assert(chain_ok(p, o, next_p_idx as int, p_idx as int, 0));
                        lemma_star_from_unfold(p, h, o, p_idx as int, h_idx as int);
                    }
                    continue;
                }
                // Advancing the haystack to the first position the literal
                // after the run can match significantly enhances the overall
                // performance: the skipped offsets fail immediately.
                let skip_forward = !((is_classes_enabled && T::match_one_case_sensitive(
                    next_c,
                    T::default_class_open(),
                ) && p_idx < invalid_class_idx) || (is_escape_enabled
                    && T::match_one_case_sensitive(next_c, wildcard_escape)));
                if skip_forward {
                    proof {
                        assert(!at_any(p, o, p_idx as int));
                        assert(!at_one(p, o, p_idx as int));
                        assert(!at_escape(p, o, p_idx as int));
                        if is_classes_enabled && p[p_idx as int] == T::sp_class_open() {
                            if (invalid_class_idx as int) < p_idx as int {
                                lemma_invalid_class_monotone(
                                    p,
                                    invalid_class_idx as int,
                                    p_idx as int,
                                    class_negate,
                                );
                            }
                            assert(!class_valid(p, p_idx as int, class_negate));
                        }
                        assert(!at_class(p, o, p_idx as int));
                    }
                    loop
                        invariant
                            p == pattern@,
                            h == haystack@,
                            o == options,
                            plen == p.len(),
                            hlen == h.len(),
                            sensitive == o.case_sensitive,
                            star_start < p_idx,
                            h_entry <= h_idx,
                            p_idx < plen,
                            h_idx <= hlen,
                            !at_any(p, o, p_idx as int),
                            !at_one(p, o, p_idx as int),
                            !at_escape(p, o, p_idx as int),
                            !at_class(p, o, p_idx as int),
                            wild_match_with(p, h, o) == star_from(
                                p,
                                h,
                                o,
                                p_idx as int,
                                h_idx as int,
                            ),
                        decreases hlen - h_idx,
                    {
                        if h_idx >= hlen {
                            break;
                        }
                        if match_one_with(haystack[h_idx], pattern[p_idx], sensitive) {
                            break;
                        }
                        proof {
                            assert(!unit_matches(p, h, o, p_idx as int, h_idx as int));
                            lemma_star_from_step(p, h, o, p_idx as int, h_idx as int);
                        }
                        h_idx += 1;
                    }
                    if h_idx >= hlen {
                        proof {
                            lemma_star_from_unfold(p, h, o, p_idx as int, hlen as int);
                            assert(!matches_from(p, h, o, p_idx as int, hlen as int));
                        }
                        return false;
                    }
                }
                next_p_idx = p_idx;
                next_h_idx = h_idx;
                proof {
                    steps = 0;
                    assert(chain_ok(p, o, next_p_idx as int, p_idx as int, 0));
                    lemma_star_from_unfold(p, h, o, p_idx as int, h_idx as int);
                }
                continue;
            } else if T::match_one_case_sensitive(c, wildcard_one) {
                if h_idx < hlen {
                    proof {
                        assert(at_one(p, o, p_idx as int));
                        assert(unit_matches(p, h, o, p_idx as int, h_idx as int));
                        assert(unit_len(p, o, p_idx as int) == 1);
                        if has_seen_wildcard_any {
                            lemma_chain_snoc(p, o, next_p_idx as int, p_idx as int, steps);
                            steps = steps + 1;
                        }
                    }
                    p_idx += 1;
                    h_idx += 1;
                    continue;
                }
                proof {
                    assert(!matches_from(p, h, o, p_idx as int, h_idx as int));
                }
            } else if is_escape_enabled && T::match_one_case_sensitive(c, wildcard_escape) && p_idx
                + 1 < plen {
                // Handling of the escape character. If it is the last
                // character in the pattern, it can only stand for itself.
                proof {
                    assert(at_escape(p, o, p_idx as int));
                }
                if h_idx < hlen {
                    let escaped = pattern[p_idx + 1];
                    let h0 = haystack[h_idx];
                    let special = is_special_with(escaped, &options);
                    if special && T::match_one_case_sensitive(h0, escaped) {
                        proof {
                            assert(unit_matches(p, h, o, p_idx as int, h_idx as int));
                            assert(unit_len(p, o, p_idx as int) == 2);
                            if has_seen_wildcard_any {
                                lemma_chain_snoc(p, o, next_p_idx as int, p_idx as int, steps);
                                steps = steps + 1;
                            }
                        }
                        p_idx += 2;
                        h_idx += 1;
                        continue;
                    } else if !special && T::match_one_case_sensitive(h0, wildcard_escape) {
                        proof {
                            assert(unit_matches(p, h, o, p_idx as int, h_idx as int));
                            assert(unit_len(p, o, p_idx as int) == 1);
                            if has_seen_wildcard_any {
                                lemma_chain_snoc(p, o, next_p_idx as int, p_idx as int, steps);
                                steps = steps + 1;
                            }
                        }
                        p_idx += 1;
                        h_idx += 1;
                        continue;
                    }
                    proof {
                        assert(!unit_matches(p, h, o, p_idx as int, h_idx as int));
                        assert(!matches_from(p, h, o, p_idx as int, h_idx as int));
                    }
                } else {
                    proof {
                        assert(!matches_from(p, h, o, p_idx as int, h_idx as int));
                    }
                }
            } else if is_classes_enabled && T::match_one_case_sensitive(
                c,
                T::default_class_open(),
            ) && p_idx < invalid_class_idx && p_idx + 1 < plen {
                // Handle character classes. To avoid parsing the same class
                // multiple times after a reset, every class including the
                // invalid ones is cached; classes behind the anchor can
                // never be asked for again and are pruned.
                if h_idx < hlen {
                    let ghost classes_before = classes;
                    classes.prune(next_p_idx);
                    proof {
                        lemma_wf_suffix(classes_before, classes, p, class_negate);
                    }
                    let idx = classes.get_or_add(p_idx, pattern, class_negate);
                    let entry = &classes.0[idx];
                    match entry.try_match(haystack[h_idx], sensitive) {
                        Some(is_match) => {
                            proof {
                                assert(class_valid(p, p_idx as int, class_negate));
                                assert(at_class(p, o, p_idx as int));
                                lemma_class_len_bounds(p, p_idx as int, class_negate);
                            }
                            if is_match {
                                let clen = entry.len();
                                proof {
                                    assert(clen == class_len(p, p_idx as int, class_negate));
                                    assert(unit_matches(p, h, o, p_idx as int, h_idx as int));
                                    assert(unit_len(p, o, p_idx as int) == clen);
                                    if has_seen_wildcard_any {
                                        lemma_chain_snoc(
                                            p,
                                            o,
                                            next_p_idx as int,
                                            p_idx as int,
                                            steps,
                                        );
                                        steps = steps + 1;
                                    }
                                }
                                p_idx += clen;
                                h_idx += 1;
                                continue;
                            }
                            proof {
                                assert(!unit_matches(p, h, o, p_idx as int, h_idx as int));
                                assert(!matches_from(p, h, o, p_idx as int, h_idx as int));
                            }
                        },
                        None => {
                            // An invalid class: the opening bracket is an
                            // ordinary literal from here to the end of the
                            // pattern.
                            proof {
                                assert(!class_valid(p, p_idx as int, class_negate));
                                assert(!at_class(p, o, p_idx as int));
                                assert(!at_escape(p, o, p_idx as int));
                            }
                            invalid_class_idx = p_idx;
                            if match_one_with(haystack[h_idx], T::default_class_open(), sensitive) {
                                proof {
                                    assert(unit_matches(p, h, o, p_idx as int, h_idx as int));
                                    assert(unit_len(p, o, p_idx as int) == 1);
                                    if has_seen_wildcard_any {
                                        lemma_chain_snoc(
                                            p,
                                            o,
                                            next_p_idx as int,
                                            p_idx as int,
                                            steps,
                                        );
                                        steps = steps + 1;
                                    }
                                }
                                p_idx += 1;
                                h_idx += 1;
                                continue;
                            }
                            proof {
                                assert(!unit_matches(p, h, o, p_idx as int, h_idx as int));
                                assert(!matches_from(p, h, o, p_idx as int, h_idx as int));
                            }
                        },
                    }
                } else {
                    proof {
                        assert(!matches_from(p, h, o, p_idx as int, h_idx as int));
                    }
                }
            } else {
                proof {
                    assert(!at_any(p, o, p_idx as int));
                    assert(!at_one(p, o, p_idx as int));
                    assert(!at_escape(p, o, p_idx as int));
                    if is_classes_enabled && p[p_idx as int] == T::sp_class_open() {
                        if p_idx + 1 < plen {
                            if (invalid_class_idx as int) < p_idx as int {
                                lemma_invalid_class_monotone(
                                    p,
                                    invalid_class_idx as int,
                                    p_idx as int,
                                    class_negate,
                                );
                            }
                        }
                        assert(!class_valid(p, p_idx as int, class_negate));
                    }
                    assert(!at_class(p, o, p_idx as int));
                }
                if h_idx < hlen && match_one_with(haystack[h_idx], c, sensitive) {
                    proof {
                        assert(unit_matches(p, h, o, p_idx as int, h_idx as int));
                        assert(unit_len(p, o, p_idx as int) == 1);
                        if has_seen_wildcard_any {
                            lemma_chain_snoc(p, o, next_p_idx as int, p_idx as int, steps);
                            steps = steps + 1;
                        }
                    }
                    p_idx += 1;
                    h_idx += 1;
                    continue;
                }
                proof {
                    assert(!matches_from(p, h, o, p_idx as int, h_idx as int));
                }
            }
        } else {
            proof {
                assert(!matches_from(p, h, o, p_idx as int, h_idx as int));
            }
        }
        // The scan failed at the current offset. If an anchor is armed and
        // offsets remain, resume the pattern at the anchor with the next
        // haystack offset; otherwise there is no match.
        if has_seen_wildcard_any && next_h_idx < hlen {
            proof {
                assert(!matches_from(p, h, o, p_idx as int, h_idx as int));
                assert(wild_match_with(p, h, o) == star_from(
                    p,
                    h,
                    o,
                    next_p_idx as int,
                    next_h_idx + 1,
                ));
            }
            let ghost nh_entry = next_h_idx as int;
            p_idx = next_p_idx;
            next_h_idx += 1;
            let skip_forward = p_idx < plen && !((is_classes_enabled
                && T::match_one_case_sensitive(pattern[p_idx], T::default_class_open()) && p_idx
                < invalid_class_idx) || (is_escape_enabled && T::match_one_case_sensitive(
                pattern[p_idx],
                wildcard_escape,
            )));
            if skip_forward {
                proof {
                    assert(!at_any(p, o, p_idx as int));
                    assert(!at_one(p, o, p_idx as int));
                    assert(!at_escape(p, o, p_idx as int));
                    if is_classes_enabled && p[p_idx as int] == T::sp_class_open() {
                        if (invalid_class_idx as int) < p_idx as int {
                            lemma_invalid_class_monotone(
                                p,
                                invalid_class_idx as int,
                                p_idx as int,
                                class_negate,
                            );
                        }
                        assert(!class_valid(p, p_idx as int, class_negate));
                    }
                    assert(!at_class(p, o, p_idx as int));
                }
                // Apply the same skip-ahead as after a wildcard: offsets
                // whose symbol the anchored literal cannot match fail
                // immediately.
                loop
                    invariant
                        p == pattern@,
                        h == haystack@,
                        o == options,
                        plen == p.len(),
                        hlen == h.len(),
                        sensitive == o.case_sensitive,
                        p_idx == next_p_idx,
                        p_idx < plen,
                        nh_entry < next_h_idx,
                        next_h_idx <= hlen,
                        !at_any(p, o, p_idx as int),
                        !at_one(p, o, p_idx as int),
                        !at_escape(p, o, p_idx as int),
                        !at_class(p, o, p_idx as int),
                        wild_match_with(p, h, o) == star_from(
                            p,
                            h,
                            o,
                            p_idx as int,
                            next_h_idx as int,
                        ),
                    decreases hlen - next_h_idx,
                {
                    if next_h_idx >= hlen {
                        break;
                    }
                    if match_one_with(haystack[next_h_idx], pattern[p_idx], sensitive) {
                        break;
                    }
                    proof {
                        assert(!unit_matches(p, h, o, p_idx as int, next_h_idx as int));
                        lemma_star_from_step(p, h, o, p_idx as int, next_h_idx as int);
                    }
                    next_h_idx += 1;
                }
            }
            h_idx = next_h_idx;
            proof {
                steps = 0;
                assert(chain_ok(p, o, next_p_idx as int, p_idx as int, 0));
                lemma_star_from_unfold(p, h, o, next_p_idx as int, next_h_idx as int);
            }
            continue;
        }
        proof {
            assert(!matches_from(p, h, o, p_idx as int, h_idx as int));
        }
        return false;
    }
    // The pattern and the haystack are both exhausted, which means we have a
    // match.
    proof {
        assert(matches_from(p, h, o, p_idx as int, h_idx as int));
    }
    true
}

/// Returns `true` if the wildcard pattern matches the `haystack`. This
/// function can be customized with [`Options`].
///
/// Like with [`dowild`](crate::dowild), the default wildcard characters are
/// `*` to match any amount of characters and `?` to match exactly one
/// character. The [`Options`] allow case-insensitive matching, custom
/// wildcard symbols, escaping of special characters, and character classes
/// with ranges and negation such as `[a-z]` or `[!0-9]`.
pub fn dowild_with<T>(pattern: &[T], haystack: &[T], options: Options<T>) -> (r: bool) where
    T: Wildcard,

    ensures
        r == wild_match_with(pattern@, haystack@, options),
{
    dowild_with_worker(pattern, haystack, options)
}

/// Returns `true` if the wildcard pattern matches the `haystack`.
///
/// Allowed wildcard characters are `*` to match any amount of characters and
/// `?` to match exactly one character.
///
/// This is the basic algorithm without customization options to provide the
/// best performance. If you need [`Options`] you can use
/// [`dowild_with`].
#[verifier::rlimit(50)]
pub fn dowild<T>(pattern: &[T], haystack: &[T]) -> (r: bool) where T: Wildcard
    ensures
        r == wild_match(pattern@, haystack@),
{
    let ghost p = pattern@;
    let ghost h = haystack@;
    let ghost o = crate::options::spec_default_options::<T>();

    let plen = pattern.len();
    let hlen = haystack.len();

    let wildcard_any = T::default_any();
    let wildcard_one = T::default_one();

    let mut p_idx: usize = 0;
    let mut h_idx: usize = 0;

    let mut next_p_idx: usize = 0;
    let mut next_h_idx: usize = 0;

    let mut has_seen_wildcard_any = false;
    let ghost mut steps: int = 0;

    while p_idx < plen || h_idx < hlen
        invariant
            p == pattern@,
            h == haystack@,
            o == crate::options::spec_default_options::<T>(),
            plen == p.len(),
            hlen == h.len(),
            wildcard_any == o.wildcard_any,
            wildcard_one == o.wildcard_one,
            p_idx <= plen,
            h_idx <= hlen,
            next_h_idx <= hlen,
            wild_match_with(p, h, o) == (matches_from(p, h, o, p_idx as int, h_idx as int) || (
            has_seen_wildcard_any && next_h_idx < hlen && star_from(
                p,
                h,
                o,
                next_p_idx as int,
                next_h_idx + 1,
            ))),
            has_seen_wildcard_any ==> {
                &&& next_p_idx < plen
                &&& next_h_idx <= h_idx
                &&& steps == h_idx - next_h_idx
                &&& chain_ok(p, o, next_p_idx as int, p_idx as int, steps)
                &&& (at_one(p, o, next_p_idx as int) ==> next_h_idx == hlen)
                &&& (at_any(p, o, next_p_idx as int) ==> p_idx == next_p_idx)
            },
            !has_seen_wildcard_any ==> next_h_idx == 0,
        decreases hlen - next_h_idx, plen - p_idx + hlen - h_idx,
    {
        if p_idx < plen {
            let c = pattern[p_idx];
            if T::match_one_case_sensitive(c, wildcard_any) {
                // Only entered once per run of consecutive wildcards: pending
                // candidates at the old anchor are absorbed here, so the old
                // anchor can be dropped.
                proof {
                    if has_seen_wildcard_any && next_h_idx < hlen && star_from(
                        p,
                        h,
                        o,
                        next_p_idx as int,
                        next_h_idx + 1,
                    ) {
                        let k = choose|k: int|
                            next_h_idx + 1 <= k <= hlen && #[trigger] matches_from(
                                p,
                                h,
                                o,
                                next_p_idx as int,
                                k,
                            );
                        lemma_chain_forced(p, h, o, next_p_idx as int, p_idx as int, steps, k);
                        lemma_star_absorb(p, h, o, p_idx as int, h_idx as int, k + steps);
                    }
                    assert(wild_match_with(p, h, o) == matches_from(
                        p,
                        h,
                        o,
                        p_idx as int,
                        h_idx as int,
                    ));
                }
                let ghost star_start = p_idx as int;
                let ghost h_entry = h_idx as int;
                has_seen_wildcard_any = true;
                p_idx += 1;

                while p_idx < plen && T::match_one_case_sensitive(pattern[p_idx], wildcard_any)
                    invariant
                        p == pattern@,
                        plen == p.len(),
                        wildcard_any == o.wildcard_any,
                        0 <= star_start,
                        star_start < p_idx,
                        p_idx <= plen,
                        forall|m: int| star_start <= m < p_idx ==> at_any(p, o, m),
                    decreases plen - p_idx,
                {
                    p_idx += 1;
                }
                if p_idx >= plen {
                    proof {
                        lemma_trailing_any_run(p, h, o, star_start, h_idx as int);
                    }
                    return true;
                }
                proof {
                    if matches_from(p, h, o, star_start, h_idx as int) {
                        lemma_star_run_elim(p, h, o, star_start, p_idx as int, h_idx as int);
                    }
                    if star_from(p, h, o, p_idx as int, h_idx as int) {
                        let k = choose|k: int|
                            h_idx as int <= k <= hlen && #[trigger] matches_from(
                                p,
                                h,
                                o,
                                p_idx as int,
                                k,
                            );
                        lemma_star_run_intro(p, h, o, star_start, p_idx as int, h_idx as int, k);
                    }
                    assert(wild_match_with(p, h, o) == star_from(
                        p,
                        h,
                        o,
                        p_idx as int,
                        h_idx as int,
                    ));
                }
                let next_c = pattern[p_idx];
                if T::match_one_case_sensitive(next_c, wildcard_one) {
                    // 1. This optimization avoids re-testing the same
                    //    match-one character in the big loop again.
                    // 2. More importantly, both cursors and with them the
                    //    anchor advance together.
                    while h_idx < hlen
                        invariant_except_break
                            p_idx < plen,
                            at_one(p, o, p_idx as int),
                        invariant
                            p == pattern@,
                            h == haystack@,
                            o == crate::options::spec_default_options::<T>(),
                            plen == p.len(),
                            hlen == h.len(),
                            wildcard_one == o.wildcard_one,
                            wildcard_any == o.wildcard_any,
                            o.wildcard_one != o.wildcard_any,
                            star_start < p_idx,
                            h_entry <= h_idx,
                            p_idx <= plen,
                            h_idx <= hlen,
                            wild_match_with(p, h, o) == star_from(
                                p,
                                h,
                                o,
                                p_idx as int,
                                h_idx as int,
                            ),
                        ensures
                            star_start < p_idx,
                            h_entry <= h_idx,
                            p_idx <= plen,
                            h_idx <= hlen,
                            wild_match_with(p, h, o) == star_from(
                                p,
                                h,
                                o,
                                p_idx as int,
                                h_idx as int,
                            ),
                            p_idx < plen && at_one(p, o, p_idx as int) ==> h_idx == hlen,
                        decreases hlen - h_idx,
                    {
                        proof {
                            lemma_star_shift_one(p, h, o, p_idx as int, h_idx as int);
                        }
                        p_idx += 1;
                        h_idx += 1;
                        if !(p_idx < plen && T::match_one_case_sensitive(
                            pattern[p_idx],
                            wildcard_one,
                        )) {
                            break;
                        }
                    }
                    // The end of the haystack might not yet be reached, but
                    // a pattern tail of only wildcards matches anything.
                    if p_idx >= plen {
                        proof {
                            assert(matches_from(p, h, o, plen as int, hlen as int));
                            assert(h_idx as int <= hlen <= hlen && matches_from(
                                p,
                                h,
                                o,
                                p_idx as int,
                                hlen as int,
                            ));
                        }
                        return true;
                    }
                } else {
                    proof {
                        assert(!at_any(p, o, p_idx as int));
                        assert(!at_one(p, o, p_idx as int));
                        assert(!at_escape(p, o, p_idx as int));
                        assert(!at_class(p, o, p_idx as int));
                    }
                    // Advancing the haystack and with it the anchor to the
                    // first match significantly enhances the overall
                    // performance: the skipped offsets fail immediately.
                    loop
                        invariant
                            p == pattern@,
                            h == haystack@,
                            o == crate::options::spec_default_options::<T>(),
                            plen == p.len(),
                            hlen == h.len(),
                            star_start < p_idx,
                            h_entry <= h_idx,
                            p_idx < plen,
                            h_idx <= hlen,
                            !at_any(p, o, p_idx as int),
                            !at_one(p, o, p_idx as int),
                            !at_escape(p, o, p_idx as int),
                            !at_class(p, o, p_idx as int),
                            wild_match_with(p, h, o) == star_from(
                                p,
                                h,
                                o,
                                p_idx as int,
                                h_idx as int,
                            ),
                        decreases hlen - h_idx,
                    {
                        if h_idx >= hlen {
                            break;
                        }
                        if T::match_one_case_sensitive(haystack[h_idx], pattern[p_idx]) {
                            break;
                        }
                        proof {
                            assert(!unit_matches(p, h, o, p_idx as int, h_idx as int));
                            lemma_star_from_step(p, h, o, p_idx as int, h_idx as int);
                        }
                        h_idx += 1;
                    }
                    if h_idx >= hlen {
                        proof {
                            lemma_star_from_unfold(p, h, o, p_idx as int, hlen as int);
                            assert(!matches_from(p, h, o, p_idx as int, hlen as int));
                        }
                        return false;
                    }
                }
                // Pinning the anchor to the first character after the
                // wildcard run (and after the fast-forwards) avoids entering
                // this branch again after a reset.
                next_p_idx = p_idx;
                next_h_idx = h_idx;
                proof {
                    steps = 0;
                    assert(chain_ok(p, o, next_p_idx as int, p_idx as int, 0));
                    lemma_star_from_unfold(p, h, o, p_idx as int, h_idx as int);
                }
                continue;
            } else if T::match_one_case_sensitive(c, wildcard_one) {
                if h_idx < hlen {
                    proof {
                        assert(at_one(p, o, p_idx as int));
                        assert(unit_matches(p, h, o, p_idx as int, h_idx as int));
                        assert(unit_len(p, o, p_idx as int) == 1);
                        if has_seen_wildcard_any {
                            lemma_chain_snoc(p, o, next_p_idx as int, p_idx as int, steps);
                            steps = steps + 1;
                        }
                    }
                    p_idx += 1;
                    h_idx += 1;
                    continue;
                }
                proof {
                    assert(!matches_from(p, h, o, p_idx as int, h_idx as int));
                }
            } else {
                proof {
                    assert(!at_any(p, o, p_idx as int));
                    assert(!at_one(p, o, p_idx as int));
                    assert(!at_escape(p, o, p_idx as int));
                    assert(!at_class(p, o, p_idx as int));
                }
                if h_idx < hlen && T::match_one_case_sensitive(haystack[h_idx], c) {
                    proof {
                        assert(unit_matches(p, h, o, p_idx as int, h_idx as int));
                        assert(unit_len(p, o, p_idx as int) == 1);
                        if has_seen_wildcard_any {
                            lemma_chain_snoc(p, o, next_p_idx as int, p_idx as int, steps);
                            steps = steps + 1;
                        }
                    }
                    p_idx += 1;
                    h_idx += 1;
                    continue;
                }
                proof {
                    assert(!matches_from(p, h, o, p_idx as int, h_idx as int));
                }
            }
        } else {
            proof {
                assert(!matches_from(p, h, o, p_idx as int, h_idx as int));
            }
        }
        // If an anchor is armed and haystack offsets remain, reset to it;
        // this statement can be entered multiple times per wildcard, so the
        // skip-ahead is applied here again.
        if has_seen_wildcard_any && next_h_idx < hlen {
            proof {
                assert(!matches_from(p, h, o, p_idx as int, h_idx as int));
                assert(wild_match_with(p, h, o) == star_from(
                    p,
                    h,
                    o,
                    next_p_idx as int,
                    next_h_idx + 1,
                ));
            }
            let ghost nh_entry = next_h_idx as int;
            p_idx = next_p_idx;
            next_h_idx += 1;
            if p_idx < plen {
                proof {
                    assert(!at_any(p, o, p_idx as int));
                    assert(!at_one(p, o, p_idx as int));
                    assert(!at_escape(p, o, p_idx as int));
                    assert(!at_class(p, o, p_idx as int));
                }
                loop
                    invariant
                        p == pattern@,
                        h == haystack@,
                        o == crate::options::spec_default_options::<T>(),
                        plen == p.len(),
                        hlen == h.len(),
                        p_idx == next_p_idx,
                        p_idx < plen,
                        nh_entry < next_h_idx,
                        next_h_idx <= hlen,
                        !at_any(p, o, p_idx as int),
                        !at_one(p, o, p_idx as int),
                        !at_escape(p, o, p_idx as int),
                        !at_class(p, o, p_idx as int),
                        wild_match_with(p, h, o) == star_from(
                            p,
                            h,
                            o,
                            p_idx as int,
                            next_h_idx as int,
                        ),
                    decreases hlen - next_h_idx,
                {
                    if next_h_idx >= hlen {
                        break;
                    }
                    if T::match_one_case_sensitive(haystack[next_h_idx], pattern[p_idx]) {
                        break;
                    }
                    proof {
                        assert(!unit_matches(p, h, o, p_idx as int, next_h_idx as int));
                        lemma_star_from_step(p, h, o, p_idx as int, next_h_idx as int);
                    }
                    next_h_idx += 1;
                }
            }
            h_idx = next_h_idx;
            proof {
                steps = 0;
                assert(chain_ok(p, o, next_p_idx as int, p_idx as int, 0));
                lemma_star_from_unfold(p, h, o, next_p_idx as int, next_h_idx as int);
            }
            continue;
        }
        proof {
            assert(!matches_from(p, h, o, p_idx as int, h_idx as int));
        }
        return false;
    }
    // The pattern and the haystack are both exhausted which means we have a
    // match.
    proof {
        assert(matches_from(p, h, o, p_idx as int, h_idx as int));
    }
    true
}

} // verus!
