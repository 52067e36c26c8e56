//! The character-class parser and its memoizing cache.
//!
//! A class expression `[...]` is parsed once into a validated, normalized
//! representation. During backtracking the engine may revisit the same
//! pattern position many times, so parsed classes are cached by their start
//! index and pruned once the backtrack anchor has moved past them.

use std::collections::VecDeque;

use vstd::prelude::*;

use crate::semantics::class_content_start;
use crate::semantics::class_end;
use crate::semantics::class_first_literal_close;
use crate::semantics::class_negated;
use crate::semantics::class_raw_matches;
use crate::semantics::class_scan;
use crate::semantics::class_scan_start;
use crate::semantics::class_valid;
use crate::semantics::kind_len;
use crate::semantics::kind_matches;
use crate::semantics::scan_matches;
use crate::semantics::sp_match_one;
use crate::semantics::sp_match_range;
use crate::token::Wildcard;

verus! {

/// One item of a character class.
#[derive(Debug, Clone)]
pub(crate) enum ClassKind<T> {
    /// A range like `a-z`, stored low-to-high.
    Range(T, T),
    /// A single character.
    One(T),
    /// A range which has the same start and end character like `z-z`.
    RangeOne(T),
}

/// The items of a class, with its polarity.
#[derive(Debug, Clone)]
pub(crate) enum Class<T> {
    Positive(Vec<ClassKind<T>>),
    Negative(Vec<ClassKind<T>>),
}

/// A parsed character class.
///
/// If `class` is `None`, the class expression is invalid: it has no closing
/// bracket, and the engine treats the opening bracket as a literal symbol.
#[derive(Debug, Clone)]
pub(crate) struct CharacterClass<T> {
    /// If `None`, the character class is invalid.
    pub class: Option<Class<T>>,
    /// The end index in the pattern.
    pub end: usize,
    /// The start index in the pattern.
    pub start: usize,
}

/// The insertion-ordered, front-prunable cache of parsed classes, keyed by
/// their start index in the pattern.
#[derive(Debug, Clone)]
pub(crate) struct CharacterClasses<T>(pub VecDeque<CharacterClass<T>>);

/// Whether one class item matches `tok` under the given case sensitivity.
pub(crate) open spec fn kind_spec_matches<T: Wildcard>(
    k: ClassKind<T>,
    tok: T,
    sensitive: bool,
) -> bool {
    match k {
        ClassKind::Range(low, high) => sp_match_range(tok, low, high, sensitive),
        ClassKind::One(c) => sp_match_one(c, tok, sensitive),
        ClassKind::RangeOne(c) => sp_match_one(c, tok, sensitive),
    }
}

/// The number of pattern symbols one class item spans.
pub(crate) open spec fn kind_spec_len<T>(k: ClassKind<T>) -> int {
    match k {
        ClassKind::Range(_, _) => 3,
        ClassKind::One(_) => 1,
        ClassKind::RangeOne(_) => 3,
    }
}

/// The item list of a class.
pub(crate) open spec fn class_kinds<T>(c: Class<T>) -> Seq<ClassKind<T>> {
    match c {
        Class::Positive(kinds) => kinds@,
        Class::Negative(kinds) => kinds@,
    }
}

/// Whether some item in the list matches `tok`.
pub(crate) open spec fn kinds_raw_matches<T: Wildcard>(
    kinds: Seq<ClassKind<T>>,
    tok: T,
    sensitive: bool,
) -> bool {
    exists|n: int| 0 <= n < kinds.len() && kind_spec_matches(#[trigger] kinds[n], tok, sensitive)
}

/// The parser's intermediate state: the items collected so far, together
/// with the items still to be scanned from `j`, cover exactly the raw
/// membership of the class opened at `s`.
pub(crate) open spec fn partial_raw_ok<T: Wildcard>(
    c: Class<T>,
    p: Seq<T>,
    s: int,
    negate: T,
    j: int,
) -> bool {
    forall|tok: T, sensitive: bool|
        (kinds_raw_matches(class_kinds(c), tok, sensitive) || scan_matches(p, j, tok, sensitive))
            == #[trigger] class_raw_matches(p, s, negate, tok, sensitive)
}

/// Whether the class matches `tok`: some item matches, with the polarity
/// applied.
pub(crate) open spec fn class_spec_matches<T: Wildcard>(
    c: Class<T>,
    tok: T,
    sensitive: bool,
) -> bool {
    match c {
        Class::Positive(kinds) => kinds_raw_matches(kinds@, tok, sensitive),
        Class::Negative(kinds) => !kinds_raw_matches(kinds@, tok, sensitive),
    }
}

/// Appending one item to a list extends its membership by exactly that item.
proof fn lemma_raw_matches_push<T: Wildcard>(
    kinds: Seq<ClassKind<T>>,
    k: ClassKind<T>,
    tok: T,
    sensitive: bool,
)
    ensures
        kinds_raw_matches(kinds.push(k), tok, sensitive) == (kinds_raw_matches(
            kinds,
            tok,
            sensitive,
        ) || kind_spec_matches(k, tok, sensitive)),
{
    let pushed = kinds.push(k);
    assert(pushed[kinds.len() as int] == k);
    assert forall|n: int| 0 <= n < kinds.len() implies pushed[n] == kinds[n] by {}
    if kinds_raw_matches(kinds, tok, sensitive) {
        let n = choose|n: int|
            0 <= n < kinds.len() && kind_spec_matches(#[trigger] kinds[n], tok, sensitive);
        assert(kind_spec_matches(pushed[n], tok, sensitive));
    }
    if kinds_raw_matches(pushed, tok, sensitive) {
        let n = choose|n: int|
            0 <= n < pushed.len() && kind_spec_matches(#[trigger] pushed[n], tok, sensitive);
        if n < kinds.len() {
            assert(kind_spec_matches(kinds[n], tok, sensitive));
        }
    }
}

impl<T> ClassKind<T> where T: Wildcard {
    /// Whether this item matches the `token`.
    #[inline]
    pub(crate) fn contains(&self, token: T, sensitive: bool) -> (r: bool)
        ensures
            r == kind_spec_matches(*self, token, sensitive),
    {
        match self {
            ClassKind::Range(low, high) => {
                if sensitive {
                    T::match_range_case_sensitive(token, *low, *high)
                } else {
                    T::match_range_case_insensitive(token, *low, *high)
                }
            },
            ClassKind::One(c) => {
                if sensitive {
                    T::match_one_case_sensitive(*c, token)
                } else {
                    T::match_one_case_insensitive(*c, token)
                }
            },
            ClassKind::RangeOne(c) => {
                if sensitive {
                    T::match_one_case_sensitive(*c, token)
                } else {
                    T::match_one_case_insensitive(*c, token)
                }
            },
        }
    }

    /// Parse one class item, or report the terminator: `None` means the
    /// symbol at `index` is the closing bracket.
    #[inline]
    pub(crate) fn parse(index: usize, pattern: &[T]) -> (r: Option<Self>)
        requires
            index < pattern@.len(),
        ensures
            r is None <==> pattern@[index as int] == T::sp_class_close(),
            r matches Some(k) ==> {
                &&& kind_spec_len(k) == kind_len(pattern@, index as int)
                &&& forall|tok: T, sensitive: bool|
                    kind_spec_matches(k, tok, sensitive) == kind_matches(
                        pattern@,
                        index as int,
                        tok,
                        sensitive,
                    )
            },
    {
        if T::match_one_case_sensitive(pattern[index], T::default_class_close()) {
            None
        } else {
            Some(Self::parse_first(index, pattern))
        }
    }

    /// Parse one class item without the terminator check: the symbol at
    /// `index` is taken as content even if it is the closing bracket.
    pub(crate) fn parse_first(index: usize, pattern: &[T]) -> (r: Self)
        requires
            index < pattern@.len(),
        ensures
            kind_spec_len(r) == kind_len(pattern@, index as int),
            forall|tok: T, sensitive: bool|
                kind_spec_matches(r, tok, sensitive) == kind_matches(
                    pattern@,
                    index as int,
                    tok,
                    sensitive,
                ),
    {
        let first = pattern[index];
        if pattern.len() - index > 2 && T::match_one_case_sensitive(
            pattern[index + 1],
            T::default_class_hyphen(),
        ) {
            let second = pattern[index + 2];
            if T::match_one_case_sensitive(second, T::default_class_close()) {
                Self::One(first)
            } else if T::match_one_case_sensitive(first, second) {
                Self::RangeOne(first)
            } else if T::token_le(first, second) {
                Self::Range(first, second)
            } else {
                Self::Range(second, first)
            }
        } else {
            Self::One(first)
        }
    }

    /// The number of pattern symbols this item spans.
    #[inline]
    pub(crate) fn len(&self) -> (r: usize)
        ensures
            r == kind_spec_len(*self),
    {
        match self {
            ClassKind::Range(_, _) => 3,
            ClassKind::One(_) => 1,
            ClassKind::RangeOne(_) => 3,
        }
    }
}

/// Whether any item of the list matches the `token`: the linear scan behind
/// [`Class::is_match`].
fn kinds_contain<T: Wildcard>(kinds: &Vec<ClassKind<T>>, token: T, sensitive: bool) -> (r: bool)
    ensures
        r == kinds_raw_matches(kinds@, token, sensitive),
{
    let mut n: usize = 0;
    while n < kinds.len()
        invariant
            n <= kinds@.len(),
            forall|m: int| 0 <= m < n ==> !kind_spec_matches(#[trigger] kinds@[m], token, sensitive),
        decreases kinds@.len() - n,
    {
        if kinds[n].contains(token, sensitive) {
            return true;
        }
        n += 1;
    }
    false
}

impl<T> Class<T> where T: Wildcard {
    /// Create a new positive `Class`.
    #[inline]
    pub(crate) fn new_positive() -> (r: Self)
        ensures
            r is Positive,
            class_kinds(r) =~= Seq::<ClassKind<T>>::empty(),
    {
        Self::Positive(Vec::new())
    }

    /// Create a new negative `Class`.
    #[inline]
    pub(crate) fn new_negative() -> (r: Self)
        ensures
            r is Negative,
            class_kinds(r) =~= Seq::<ClassKind<T>>::empty(),
    {
        Self::Negative(Vec::new())
    }

    /// Add a new [`ClassKind`] to this `Class`.
    #[inline]
    pub(crate) fn push(&mut self, kind: ClassKind<T>)
        ensures
            (*final(self)) is Positive <==> (*old(self)) is Positive,
            class_kinds(*final(self)) == class_kinds(*old(self)).push(kind),
            forall|tok: T, sensitive: bool|
                class_spec_matches(*final(self), tok, sensitive) == (if (*final(self)) is Positive {
                    class_spec_matches(*old(self), tok, sensitive) || kind_spec_matches(
                        kind,
                        tok,
                        sensitive,
                    )
                } else {
                    class_spec_matches(*old(self), tok, sensitive) && !kind_spec_matches(
                        kind,
                        tok,
                        sensitive,
                    )
                }),
    {
        match self {
            Class::Positive(kinds) => kinds.push(kind),
            Class::Negative(kinds) => kinds.push(kind),
        }
        proof {
            assert forall|tok: T, sensitive: bool| #![all_triggers] true implies {
                kinds_raw_matches(class_kinds(*self), tok, sensitive) == (kinds_raw_matches(
                    class_kinds(*old(self)),
                    tok,
                    sensitive,
                ) || kind_spec_matches(kind, tok, sensitive))
            } by {
                lemma_raw_matches_push(class_kinds(*old(self)), kind, tok, sensitive);
            }
        }
    }

    /// Returns `true` if a positive `Class` contains the given `token` or if
    /// a negative one does not contain it.
    #[inline]
    pub(crate) fn is_match(&self, token: T, sensitive: bool) -> (r: bool)
        ensures
            r == class_spec_matches(*self, token, sensitive),
    {
        match self {
            Class::Positive(kinds) => kinds_contain(kinds, token, sensitive),
            Class::Negative(kinds) => !kinds_contain(kinds, token, sensitive),
        }
    }
}

impl<T> CharacterClass<T> where T: Wildcard {
    /// The parsed form agrees with the class the pattern spells at `start`:
    /// it is valid exactly when that class has a terminator, it ends at that
    /// terminator, and it accepts exactly the symbols that class accepts.
    pub(crate) open spec fn wf(self, p: Seq<T>, negate: T) -> bool {
        &&& (self.start as int) < p.len()
        &&& (self.class is Some <==> class_valid(p, self.start as int, negate))
        &&& (self.class is Some ==> {
            &&& self.end == class_end(p, self.start as int, negate)->Some_0
            &&& self.start <= self.end
            &&& (self.end as int) < p.len()
            &&& forall|tok: T, sensitive: bool|
                class_spec_matches(self.class->Some_0, tok, sensitive)
                    == crate::semantics::class_matches(p, self.start as int, negate, tok, sensitive)
        })
    }

    /// Create a new character class.
    #[inline]
    pub(crate) fn new(class: Option<Class<T>>, start: usize, end: usize) -> (r: Self)
        ensures
            r == (CharacterClass { class, end, start }),
    {
        Self { class, end, start }
    }

    /// Create a new invalid character class.
    #[inline]
    pub(crate) fn new_invalid(start: usize, end: usize) -> (r: Self)
        ensures
            r == (CharacterClass { class: None::<Class<T>>, end, start }),
    {
        Self::new(None, start, end)
    }

    /// Returns the length of this character class in pattern symbols,
    /// brackets included.
    #[inline]
    pub(crate) fn len(&self) -> (r: usize)
        requires
            self.start <= self.end,
            self.end < usize::MAX,
        ensures
            r == self.end - self.start + 1,
    {
        self.end - self.start + 1
    }

    /// Parse a `CharacterClass` with the opening bracket at the `start`
    /// index.
    ///
    /// Beware, the starting condition is not verified in any way. A
    /// [`CharacterClass`] is considered invalid if there is no closing
    /// bracket.
    pub(crate) fn parse(start: usize, pattern: &[T], class_negate: T) -> (r: Self)
        requires
            start < pattern@.len(),
        ensures
            r.start == start,
            r.wf(pattern@, class_negate),
    {
        let ghost p = pattern@;
        let ghost s = start as int;
        let plen = pattern.len();
        // The first character of a class is always the opening bracket
        let mut p_idx = start + 1;
        if plen - p_idx < 2 {
            // The pattern is too short to hold a valid class
            return Self::new_invalid(start, start);
        }
        let mut class = if T::match_one_case_sensitive(pattern[p_idx], class_negate) {
            p_idx += 1;
            Class::new_negative()
        } else {
            Class::new_positive()
        };
        proof {
            assert(p_idx as int == class_content_start(p, s, class_negate));
        }
        // The `]` directly after the opening `[` (and possibly the negation
        // symbol) is special and matched literally
        if T::match_one_case_sensitive(pattern[p_idx], T::default_class_close()) {
            let ghost c0 = p_idx as int;
            let kind = ClassKind::parse_first(p_idx, pattern);
            p_idx += kind.len();
            let ghost empty_kinds = class_kinds(class);
            class.push(kind);
            proof {
                assert(class_first_literal_close(p, s, class_negate));
                assert(p_idx as int == class_scan_start(p, s, class_negate));
                assert forall|tok: T, sensitive: bool|
                    (kinds_raw_matches(class_kinds(class), tok, sensitive) || scan_matches(
                        p,
                        p_idx as int,
                        tok,
                        sensitive,
                    )) == #[trigger] class_raw_matches(p, s, class_negate, tok, sensitive) by {
                    lemma_raw_matches_push(empty_kinds, kind, tok, sensitive);
                    assert(!kinds_raw_matches(empty_kinds, tok, sensitive));
                    assert(kind_spec_matches(kind, tok, sensitive) == kind_matches(
                        p,
                        c0,
                        tok,
                        sensitive,
                    ));
                }
                assert(partial_raw_ok(class, p, s, class_negate, p_idx as int));
            }
        } else {
            proof {
                assert(!class_first_literal_close(p, s, class_negate));
                assert(p_idx as int == class_scan_start(p, s, class_negate));
                assert forall|tok: T, sensitive: bool|
                    (kinds_raw_matches(class_kinds(class), tok, sensitive) || scan_matches(
                        p,
                        p_idx as int,
                        tok,
                        sensitive,
                    )) == #[trigger] class_raw_matches(p, s, class_negate, tok, sensitive) by {
                    assert(!kinds_raw_matches(class_kinds(class), tok, sensitive));
                }
                assert(partial_raw_ok(class, p, s, class_negate, p_idx as int));
            }
        }
        if p_idx >= plen {
            proof {
                assert(class_scan(p, p_idx as int) is None);
            }
            // The end of the pattern without a closing `]`
            return Self::new_invalid(start, p_idx);
        }
        // Parse until we reach either the end of the pattern or find a `]`
        loop
            invariant
                p == pattern@,
                plen == p.len(),
                s == start as int,
                0 <= s,
                s + 3 <= p.len(),
                s < p_idx,
                p_idx < p.len(),
                class_scan(p, class_scan_start(p, s, class_negate)) == class_scan(
                    p,
                    p_idx as int,
                ),
                class is Positive <==> !class_negated(p, s, class_negate),
                partial_raw_ok(class, p, s, class_negate, p_idx as int),
            decreases p.len() - p_idx,
        {
            match ClassKind::parse(p_idx, pattern) {
                // The `None` case tells us we have found a `]` and a valid class
                None => {
                    proof {
                        assert(class_scan(p, p_idx as int) == Some(p_idx as int));
                        assert(class_end(p, s, class_negate) == Some(p_idx as int));
                        assert forall|tok: T, sensitive: bool|
                            class_spec_matches(class, tok, sensitive)
                                == crate::semantics::class_matches(
                                p,
                                s,
                                class_negate,
                                tok,
                                sensitive,
                            ) by {
                            assert(partial_raw_ok(class, p, s, class_negate, p_idx as int));
                            assert(!scan_matches(p, p_idx as int, tok, sensitive));
                            assert((kinds_raw_matches(class_kinds(class), tok, sensitive)
                                || scan_matches(p, p_idx as int, tok, sensitive))
                                == class_raw_matches(p, s, class_negate, tok, sensitive));
                        }
                    }
                    return Self::new(Some(class), start, p_idx);
                },
                Some(kind) => {
                    let ghost old_idx = p_idx as int;
                    let ghost class_at_top = class;
                    let step = kind.len();
                    proof {
                        assert(p[old_idx] != T::sp_class_close());
                        assert(kind_len(p, old_idx) == 3 ==> old_idx + 2 < p.len());
                        assert(old_idx + kind_len(p, old_idx) <= p.len());
                        assert(class_scan(p, old_idx) == class_scan(
                            p,
                            old_idx + kind_len(p, old_idx),
                        ));
                    }
                    p_idx += step;
                    if p_idx >= plen {
                        proof {
                            assert(class_scan(p, p_idx as int) is None);
                        }
                        // The end of the pattern without a closing `]`
                        return Self::new_invalid(start, p_idx);
                    }
                    let ghost kinds_before = class_kinds(class);
                    proof {
                        assert(kinds_before == class_kinds(class_at_top));
                    }
                    class.push(kind);
                    proof {
                        assert forall|tok: T, sensitive: bool|
                            (kinds_raw_matches(class_kinds(class), tok, sensitive) || scan_matches(
                                p,
                                p_idx as int,
                                tok,
                                sensitive,
                            )) == #[trigger] class_raw_matches(
                                p,
                                s,
                                class_negate,
                                tok,
                                sensitive,
                            ) by {
                            assert(partial_raw_ok(class_at_top, p, s, class_negate, old_idx));
                            assert(scan_matches(p, old_idx, tok, sensitive) == (kind_matches(
                                p,
                                old_idx,
                                tok,
                                sensitive,
                            ) || scan_matches(p, old_idx + kind_len(p, old_idx), tok, sensitive)));
                            assert((kinds_raw_matches(kinds_before, tok, sensitive)
                                || scan_matches(p, old_idx, tok, sensitive))
                                == class_raw_matches(p, s, class_negate, tok, sensitive));
                            lemma_raw_matches_push(kinds_before, kind, tok, sensitive);
                        }
                        assert(partial_raw_ok(class, p, s, class_negate, p_idx as int));
                    }
                },
            }
        }
    }


    /// If this class is valid, returns the result of [`Class::is_match`],
    /// otherwise `None`.
    #[inline]
    pub(crate) fn try_match(&self, token: T, sensitive: bool) -> (r: Option<bool>)
        ensures
            r is Some <==> self.class is Some,
            r matches Some(m) ==> m == class_spec_matches(self.class->Some_0, token, sensitive),
    {
        match &self.class {
            Some(class) => Some(class.is_match(token, sensitive)),
            None => None,
        }
    }
}

impl<T> CharacterClasses<T> where T: Wildcard {
    /// Every cached entry is the parse of the class at its start index, and
    /// the entries are ordered by strictly increasing start index.
    pub(crate) open spec fn wf(self, p: Seq<T>, negate: T) -> bool {
        &&& forall|n: int| 0 <= n < self.0@.len() ==> (#[trigger] self.0@[n]).wf(p, negate)
        &&& forall|n: int, m: int|
            0 <= n < m < self.0@.len() ==> self.0@[n].start < self.0@[m].start
    }

    /// Create a new empty cache.
    ///
    /// This method does not allocate any memory.
    #[inline]
    pub(crate) fn new() -> (r: Self)
        ensures
            r.0@ =~= Seq::<CharacterClass<T>>::empty(),
    {
        Self(VecDeque::new())
    }

    /// Parse the class at `start` without touching the cache.
    #[inline]
    pub(crate) fn parse(start: usize, pattern: &[T], class_negate: T) -> (r: CharacterClass<T>)
        requires
            start < pattern@.len(),
        ensures
            r.start == start,
            r.wf(pattern@, class_negate),
    {
        CharacterClass::parse(start, pattern, class_negate)
    }

    /// Returns the position of the cached class whose start index is `index`.
    pub(crate) fn get(&self, index: usize) -> (r: Option<usize>)
        ensures
            r matches Some(n) ==> n < self.0@.len() && self.0@[n as int].start == index,
            r is None ==> forall|n: int|
                0 <= n < self.0@.len() ==> (#[trigger] self.0@[n]).start != index,
    {
        let mut n: usize = 0;
        while n < self.0.len()
            invariant
                n <= self.0@.len(),
                forall|m: int| 0 <= m < n ==> (#[trigger] self.0@[m]).start != index,
            decreases self.0@.len() - n,
        {
            if self.0[n].start == index {
                return Some(n);
            }
            n += 1;
        }
        None
    }

    /// Parse a new class at this start index, or return the position of the
    /// cached one if it is already present.
    ///
    /// The character at `start` has to be the opening bracket character.
    /// Note a [`CharacterClass`] can be invalid if there was no closing
    /// bracket; invalid classes are cached like valid ones.
    #[verifier::rlimit(50)]
    pub(crate) fn get_or_add(&mut self, start: usize, pattern: &[T], class_negate: T) -> (idx:
        usize)
        requires
            start < pattern@.len(),
            old(self).wf(pattern@, class_negate),
        ensures
            final(self).wf(pattern@, class_negate),
            idx < final(self).0@.len(),
            final(self).0@[idx as int].start == start,
            final(self).0@[idx as int].wf(pattern@, class_negate),
    {
        if let Some(found) = self.get(start) {
            return found;
        }
        let len = self.0.len();
        let mut i: usize = 0;
        while i < len && self.0[i].start < start
            invariant
                i <= len,
                len == self.0@.len(),
                forall|n: int| 0 <= n < i ==> (#[trigger] self.0@[n]).start < start,
                self == old(self),
            decreases len - i,
        {
            i += 1;
        }
        proof {
            if i < len {
                assert(old(self).0@[i as int].start >= start);
                assert(old(self).0@[i as int].start != start);
            }
        }
        let class = Self::parse(start, pattern, class_negate);
        self.0.insert(i, class);
        proof {
            let new_seq = self.0@;
            let old_seq = old(self).0@;
            old_seq.insert_ensures(i as int, class);
            assert(class.start == start);
            assert forall|m: int| i < m < new_seq.len() implies #[trigger] new_seq[m].start
                > start by {
                assert(new_seq[m] == old_seq[m - 1]);
                if m - 1 > i {
                    assert(old_seq[i as int].start < old_seq[m - 1].start);
                }
            }
            assert forall|n: int, m: int|
                0 <= n < m < new_seq.len() implies new_seq[n].start < new_seq[m].start by {
                if m < i {
                    assert(new_seq[n] == old_seq[n]);
                    assert(new_seq[m] == old_seq[m]);
                } else if m == i {
                    assert(new_seq[n] == old_seq[n]);
                    assert(old_seq[n].start < start);
                } else {
                    assert(new_seq[m].start > start);
                    if n < i {
                        assert(new_seq[n] == old_seq[n]);
                        assert(old_seq[n].start < start);
                    } else if n > i {
                        assert(new_seq[n] == old_seq[n - 1]);
                        assert(new_seq[m] == old_seq[m - 1]);
                        assert(old_seq[n - 1].start < old_seq[m - 1].start);
                    }
                }
            }
            assert forall|n: int| 0 <= n < new_seq.len() implies (#[trigger] new_seq[n]).wf(
                pattern@,
                class_negate,
            ) by {
                if n < i {
                    assert(new_seq[n] == old_seq[n]);
                } else if n > i {
                    assert(new_seq[n] == old_seq[n - 1]);
                }
            }
        }
        i
    }

    /// Remove classes that have a smaller starting index than the given
    /// `index`: the backtrack anchor has moved past them, so the engine can
    /// never ask for them again.
    pub(crate) fn prune(&mut self, index: usize)
        ensures
            final(self).0@.len() <= old(self).0@.len(),
            forall|n: int|
                0 <= n < final(self).0@.len() ==> #[trigger] final(self).0@[n] == old(
                    self,
                ).0@[old(self).0@.len() - final(self).0@.len() + n],
    {
        loop
            invariant
                self.0@.len() <= old(self).0@.len(),
                forall|n: int|
                    0 <= n < self.0@.len() ==> #[trigger] self.0@[n] == old(self).0@[old(
                        self,
                    ).0@.len() - self.0@.len() + n],
            decreases self.0@.len(),
        {
            if self.0.len() == 0 {
                return;
            }
            if self.0[0].start >= index {
                return;
            }
            let ghost before = self.0@;
            self.0.pop_front();
            proof {
                assert(self.0@ =~= before.subrange(1, before.len() as int));
            }
        }
    }
}

/// A cache that loses entries from its front is still well formed: the
/// surviving entries are unchanged and keep their order.
pub(crate) proof fn lemma_wf_suffix<T: Wildcard>(
    before: CharacterClasses<T>,
    after: CharacterClasses<T>,
    p: Seq<T>,
    negate: T,
)
    requires
        before.wf(p, negate),
        after.0@.len() <= before.0@.len(),
        forall|n: int|
            0 <= n < after.0@.len() ==> #[trigger] after.0@[n] == before.0@[before.0@.len()
                - after.0@.len() + n],
    ensures
        after.wf(p, negate),
{
    let shift = before.0@.len() - after.0@.len();
    assert forall|n: int| 0 <= n < after.0@.len() implies (#[trigger] after.0@[n]).wf(
        p,
        negate,
    ) by {
        assert(after.0@[n] == before.0@[shift + n]);
    }
    assert forall|n: int, m: int|
        0 <= n < m < after.0@.len() implies after.0@[n].start < after.0@[m].start by {
        assert(after.0@[n] == before.0@[shift + n]);
        assert(after.0@[m] == before.0@[shift + m]);
    }
}

} // verus!
