//! Covering a set of register addresses with few, short read ranges.
//!
//! A cover is a list of inclusive address ranges, in increasing order and disjoint, whose
//! endpoints are members of the set, each no longer than a limit, and which together contain every
//! member. Covers are compared first by their number of ranges, then by the total number of
//! addresses they span.
use vstd::prelude::*;

verus! {

/// `a` is lexicographically below `b`.
pub open spec fn lex_lt(a: (int, int), b: (int, int)) -> bool {
    a.0 < b.0 || (a.0 == b.0 && a.1 < b.1)
}

/// `a` is lexicographically at most `b`.
pub open spec fn lex_le(a: (int, int), b: (int, int)) -> bool {
    !lex_lt(b, a)
}

/// Number of addresses in the inclusive range `lo..=hi`.
pub open spec fn span_len(r: (u16, u16)) -> int {
    r.1 - r.0 + 1
}

/// Total number of addresses spanned by the ranges.
pub open spec fn total_len(r: Seq<(u16, u16)>) -> int
    decreases r.len(),
{
    if r.len() == 0 {
        0
    } else {
        span_len(r[0]) + total_len(r.drop_first())
    }
}

/// The cost of a cover: its number of ranges, then the addresses it spans.
pub open spec fn cover_cost(r: Seq<(u16, u16)>) -> (int, int) {
    (r.len() as int, total_len(r))
}

/// `r` is a cover of `set` by ranges of at most `max` addresses.
#[verifier::opaque]
pub open spec fn is_cover(set: Set<u16>, max: int, r: Seq<(u16, u16)>) -> bool {
    &&& forall|k: int|
        0 <= k < r.len() ==> {
            &&& #[trigger] r[k].0 <= r[k].1
            &&& set.contains(r[k].0)
            &&& set.contains(r[k].1)
            &&& span_len(r[k]) <= max
        }
    &&& forall|k1: int, k2: int| 0 <= k1 < k2 < r.len() ==> #[trigger] r[k1].1 < #[trigger] r[k2].0
    &&& forall|a: u16|
        #[trigger] set.contains(a) ==> in_some_range(r, a)
}

/// Some range of `r` contains `a`.
#[verifier::opaque]
pub open spec fn in_some_range(r: Seq<(u16, u16)>, a: u16) -> bool {
    exists|k: int| 0 <= k < r.len() && (#[trigger] r[k]).0 <= a <= r[k].1
}

/// A range of `r` that contains `a`.
pub proof fn witness_range(r: Seq<(u16, u16)>, a: u16) -> (k: int)
    requires
        in_some_range(r, a),
    ensures
        0 <= k < r.len(),
        r[k].0 <= a <= r[k].1,
{
    reveal(in_some_range);
    choose|k: int| 0 <= k < r.len() && (#[trigger] r[k]).0 <= a <= r[k].1
}

pub proof fn lemma_in_range(r: Seq<(u16, u16)>, a: u16, k: int)
    requires
        0 <= k < r.len(),
        r[k].0 <= a <= r[k].1,
    ensures
        in_some_range(r, a),
{
    reveal(in_some_range);
}

/// `a` is one of the addresses of `s`.
#[verifier::opaque]
pub open spec fn listed(s: Seq<u16>, a: u16) -> bool {
    s.contains(a)
}

pub proof fn lemma_listed(s: Seq<u16>, l: int)
    requires
        0 <= l < s.len(),
    ensures
        listed(s, s[l]),
{
    reveal(listed);
    assert(s.contains(s[l]));
}

/// A sequence of addresses in strictly increasing order.
#[verifier::opaque]
pub open spec fn increasing(s: Seq<u16>) -> bool {
    forall|i: int, j: int| 0 <= i < j < s.len() ==> s[i] < s[j]
}

/// Later addresses of an increasing sequence are larger.
pub proof fn lemma_increasing(s: Seq<u16>, i: int, j: int)
    requires
        increasing(s),
        0 <= i < j < s.len(),
    ensures
        s[i] < s[j],
{
    reveal(increasing);
}

/// Length of the range from `s[i]` to `s[k]`.
pub open spec fn seg_len(s: Seq<u16>, i: int, k: int) -> int {
    s[k] - s[i] + 1
}

/// Cheapest cover of the addresses `s[i..]`, if any, by ranges of at most `m` addresses.
pub open spec fn opt_cost(s: Seq<u16>, m: int, i: int) -> Option<(int, int)>
    decreases s.len() - i, s.len() + 1,
{
    if i < 0 {
        None
    } else if i >= s.len() {
        Some((0, 0))
    } else {
        best_first_range(s, m, i, s.len() as int).0
    }
}

/// Among first ranges `s[i]..=s[k]` with `i <= k < j`, the cheapest cover of `s[i..]` that starts
/// with one, and the first `k` that attains it (`i` when there is none).
pub open spec fn best_first_range(s: Seq<u16>, m: int, i: int, j: int) -> (Option<(int, int)>, int)
    decreases s.len() - i, j,
{
    if !(0 <= i < j <= s.len()) {
        (None, i)
    } else {
        let prev = best_first_range(s, m, i, j - 1);
        let k = j - 1;
        if seg_len(s, i, k) <= m {
            match opt_cost(s, m, j) {
                Some(rest) => {
                    let c = (1 + rest.0, seg_len(s, i, k) + rest.1);
                    if prev.0 is None || lex_lt(c, prev.0->0) {
                        (Some(c), k)
                    } else {
                        prev
                    }
                },
                None => prev,
            }
        } else {
            prev
        }
    }
}

/// The cost of the cover of `s[i..]` that starts with the range `s[i]..=s[k]`.
pub open spec fn candidate(s: Seq<u16>, m: int, i: int, k: int) -> (int, int) {
    (1 + (opt_cost(s, m, k + 1)->0).0, seg_len(s, i, k) + (opt_cost(s, m, k + 1)->0).1)
}

/// The ranges that the optimal choices of first ranges make, from `s[i]` on.
#[verifier::opaque]
pub open spec fn chosen_ranges(s: Seq<u16>, m: int, i: int) -> Seq<(u16, u16)>
    decreases s.len() - i,
{
    if 0 <= i < s.len() {
        let c = best_first_range(s, m, i, s.len() as int).1;
        if i <= c < s.len() {
            seq![(s[i], s[c])] + chosen_ranges(s, m, c + 1)
        } else {
            seq![]
        }
    } else {
        seq![]
    }
}

/// Addresses `s[i..]` spanned by no more than the whole of the rest of `s`.
pub open spec fn suffix_span(s: Seq<u16>, i: int) -> int {
    if 0 <= i < s.len() {
        s[s.len() - 1] - s[i] + 1
    } else {
        0
    }
}

/// What the first ranges considered so far give.
pub proof fn lemma_best_first_range(s: Seq<u16>, m: int, i: int, j: int)
    requires
        0 <= i < j <= s.len(),
    ensures
        best_first_range(s, m, i, j).0 is None ==> best_first_range(s, m, i, j).1 == i,
        best_first_range(s, m, i, j).0 is Some ==> {
            let k = best_first_range(s, m, i, j).1;
            &&& i <= k < j
            &&& seg_len(s, i, k) <= m
            &&& opt_cost(s, m, k + 1) is Some
            &&& best_first_range(s, m, i, j).0 == Some(candidate(s, m, i, k))
        },
        forall|k: int|
            i <= k < j && seg_len(s, i, k) <= m && (#[trigger] opt_cost(s, m, k + 1)) is Some ==> {
                &&& best_first_range(s, m, i, j).0 is Some
                &&& lex_le(best_first_range(s, m, i, j).0->0, candidate(s, m, i, k))
            },
    decreases j,
{
    let prev = best_first_range(s, m, i, j - 1);
    let k = j - 1;
    if j - 1 > i {
        lemma_best_first_range(s, m, i, j - 1);
    } else {
        assert(prev == (None::<(int, int)>, i));
    }
    let cur = best_first_range(s, m, i, j);
    if seg_len(s, i, k) <= m && opt_cost(s, m, j) is Some {
        let c = candidate(s, m, i, k);
        assert(c == (1 + (opt_cost(s, m, j)->0).0, seg_len(s, i, k) + (opt_cost(s, m, j)->0).1));
        if prev.0 is None || lex_lt(c, prev.0->0) {
            assert(cur == (Some(c), k));
        } else {
            assert(cur == prev);
        }
    } else {
        assert(cur == prev);
    }
}

/// Once a first range is too long, so are all longer ones.
pub proof fn lemma_best_first_range_stops(s: Seq<u16>, m: int, i: int, j: int, jp: int)
    requires
        increasing(s),
        0 <= i <= j <= jp <= s.len(),
        j < s.len() ==> seg_len(s, i, j) > m,
    ensures
        best_first_range(s, m, i, jp) == best_first_range(s, m, i, j),
    decreases jp - j,
{
    if jp > j {
        lemma_best_first_range_stops(s, m, i, j, jp - 1);
        if j < jp - 1 {
            lemma_increasing(s, j, jp - 1);
        }
        assert(seg_len(s, i, jp - 1) > m);
    }
}

/// Optimal costs are bounded by the number and span of the addresses left, and exist whenever
/// ranges may hold an address.
pub proof fn lemma_opt_cost(s: Seq<u16>, m: int, i: int)
    requires
        increasing(s),
        0 <= i <= s.len(),
    ensures
        m >= 1 ==> opt_cost(s, m, i) is Some,
        opt_cost(s, m, i) is Some ==> {
            let c = opt_cost(s, m, i)->0;
            &&& 0 <= c.0 <= s.len() - i
            &&& 0 <= c.1 <= suffix_span(s, i)
        },
    decreases s.len() - i,
{
    if i < s.len() {
        let n = s.len() as int;
        lemma_best_first_range(s, m, i, n);
        if m >= 1 {
            lemma_opt_cost(s, m, i + 1);
            assert(seg_len(s, i, i) == 1);
        }
        if opt_cost(s, m, i) is Some {
            let k = best_first_range(s, m, i, n).1;
            lemma_opt_cost(s, m, k + 1);
            if k + 1 < n {
                lemma_increasing(s, k, k + 1);
            }
            if i < k {
                lemma_increasing(s, i, k);
            }
        }
    }
}

/// A cover of the addresses `s[i..]`: ranges of at most `m` addresses with endpoints among them,
/// in increasing order, containing all of them.
#[verifier::opaque]
pub open spec fn is_suffix_cover(s: Seq<u16>, m: int, i: int, r: Seq<(u16, u16)>) -> bool {
    &&& forall|k: int|
        0 <= k < r.len() ==> {
            &&& #[trigger] r[k].0 <= r[k].1
            &&& listed(s, r[k].0)
            &&& listed(s, r[k].1)
            &&& i < s.len() ==> s[i] <= r[k].0
            &&& span_len(r[k]) <= m
        }
    &&& forall|k1: int, k2: int| 0 <= k1 < k2 < r.len() ==> #[trigger] r[k1].1 < #[trigger] r[k2].0
    &&& forall|l: int| i <= l < s.len() ==> in_some_range(r, #[trigger] s[l])
}

pub proof fn lemma_total_len_nonneg(r: Seq<(u16, u16)>)
    requires
        forall|k: int| 0 <= k < r.len() ==> #[trigger] r[k].0 <= r[k].1,
    ensures
        total_len(r) >= r.len(),
    decreases r.len(),
{
    if r.len() > 0 {
        assert forall|k: int| 0 <= k < r.drop_first().len() implies #[trigger] r.drop_first()[k].0
            <= r.drop_first()[k].1 by {
            assert(r.drop_first()[k] == r[k + 1]);
        }
        lemma_total_len_nonneg(r.drop_first());
    }
}

pub proof fn lemma_index_of(s: Seq<u16>, a: u16) -> (l: int)
    requires
        listed(s, a),
    ensures
        0 <= l < s.len(),
        s[l] == a,
{
    reveal(listed);
    choose|l: int| 0 <= l < s.len() && s[l] == a
}

/// `s` lists the addresses of `set` in increasing order.
#[verifier::opaque]
pub open spec fn lists(s: Seq<u16>, set: Set<u16>) -> bool {
    &&& increasing(s)
    &&& forall|l: int| 0 <= l < s.len() ==> set.contains(#[trigger] s[l])
    &&& forall|a: u16| #[trigger] set.contains(a) ==> listed(s, a)
}

} // verus!
