//! No cover of a set of addresses costs less than the optimal one.
use crate::range_cover::{
    cover_cost, in_some_range, increasing, is_cover, is_suffix_cover, lemma_best_first_range,
    lemma_increasing, lemma_index_of, lemma_in_range, listed, witness_range, lemma_opt_cost, lemma_total_len_nonneg, lex_le, lists,
    opt_cost, candidate, best_first_range, chosen_ranges, seg_len, span_len, total_len,
};
use vstd::prelude::*;

verus! {

/// No cover of `s[i..]` costs less than the optimal cost.
#[verifier::rlimit(80)]
pub proof fn lemma_lower_bound(s: Seq<u16>, m: int, i: int, r: Seq<(u16, u16)>)
    requires
        increasing(s),
        m >= 1,
        0 <= i <= s.len(),
        is_suffix_cover(s, m, i, r),
    ensures
        lex_le(opt_cost(s, m, i)->0, cover_cost(r)),
    decreases r.len(),
{
    reveal(is_suffix_cover);
    let n = s.len() as int;
    lemma_opt_cost(s, m, i);
    lemma_total_len_nonneg(r);
    if i < n {
        assert(in_some_range(r, s[i]));
        let k0 = witness_range(r, s[i]);
        let lo = lemma_index_of(s, r[k0].0);
        if lo < i {
            lemma_increasing(s, lo, i);
        }
        if k0 > 0 {
            assert(r[0].1 < r[k0].0);
            let l0 = lemma_index_of(s, r[0].0);
            if l0 < i {
                lemma_increasing(s, l0, i);
            }
        }
        assert(r[0].0 == s[i]);
        let j = lemma_index_of(s, r[0].1);
        if j < i {
            lemma_increasing(s, j, i);
        }
        assert(i <= j);
        let rest = r.drop_first();
        assert forall|k: int| 0 <= k < rest.len() implies {
            &&& #[trigger] rest[k].0 <= rest[k].1
            &&& listed(s, rest[k].0)
            &&& listed(s, rest[k].1)
            &&& j + 1 < s.len() ==> s[j + 1] <= rest[k].0
            &&& span_len(rest[k]) <= m
        } by {
            assert(rest[k] == r[k + 1]);
            assert(r[0].1 < r[k + 1].0);
            if j + 1 < s.len() {
                let l = lemma_index_of(s, r[k + 1].0);
                if l <= j {
                    if l < j {
                        lemma_increasing(s, l, j);
                    }
                } else if l > j + 1 {
                    lemma_increasing(s, j + 1, l);
                }
            }
        }
        assert forall|k1: int, k2: int| 0 <= k1 < k2 < rest.len() implies #[trigger] rest[k1].1
            < #[trigger] rest[k2].0 by {
            assert(rest[k1] == r[k1 + 1] && rest[k2] == r[k2 + 1]);
        }
        assert forall|l: int| j + 1 <= l < s.len() implies in_some_range(rest, #[trigger] s[l]) by {
            assert(in_some_range(r, s[l]));
            let k = witness_range(r, s[l]);
            lemma_increasing(s, j, l);
            assert(k != 0);
            assert(rest[k - 1] == r[k]);
            lemma_in_range(rest, s[l], k - 1);
        }
        lemma_lower_bound(s, m, j + 1, rest);
        lemma_opt_cost(s, m, j + 1);
        lemma_best_first_range(s, m, i, n);
        assert(seg_len(s, i, j) == span_len(r[0]));
        assert(opt_cost(s, m, j + 1) is Some);
        assert(lex_le(opt_cost(s, m, i)->0, candidate(s, m, i, j)));
        assert(total_len(r) == span_len(r[0]) + total_len(rest));
    } else {
        if r.len() > 0 {
        }
    }
}

} // verus!
