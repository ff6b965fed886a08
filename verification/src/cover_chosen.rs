//! The ranges that the optimal choices make form an optimal cover.
use crate::range_cover::{
    cover_cost, in_some_range, increasing, is_cover, is_suffix_cover, lemma_best_first_range,
    lemma_increasing, lemma_index_of, lemma_in_range, lemma_listed, listed, witness_range, lemma_opt_cost, lemma_total_len_nonneg, lex_le, lists,
    opt_cost, candidate, best_first_range, chosen_ranges, seg_len, span_len, total_len,
};
use crate::cover_lower_bound::lemma_lower_bound;
use vstd::prelude::*;

verus! {

/// The chosen ranges cover `s[i..]`, at the optimal cost when ranges may hold an address, and
/// by single addresses when they may not.
#[verifier::rlimit(80)]
pub proof fn lemma_chosen_ranges(s: Seq<u16>, m: int, i: int)
    requires
        increasing(s),
        0 <= i <= s.len(),
    ensures
        is_suffix_cover(s, if m >= 1 { m } else { 1 }, i, chosen_ranges(s, m, i)),
        i < s.len() ==> chosen_ranges(s, m, i).len() > 0 && chosen_ranges(s, m, i)[0].0 == s[i],
        m >= 1 ==> cover_cost(chosen_ranges(s, m, i)) == opt_cost(s, m, i)->0,
    decreases s.len() - i,
{
    reveal(chosen_ranges);
    reveal(is_suffix_cover);
    let n = s.len() as int;
    let r = chosen_ranges(s, m, i);
    let mm = if m >= 1 {
        m
    } else {
        1
    };
    if i < n {
        lemma_best_first_range(s, m, i, n);
        lemma_opt_cost(s, m, i);
        let c = best_first_range(s, m, i, n).1;
        if m < 1 {
            assert(seg_len(s, i, c) == 1) by {
                assert forall|k: int| i <= k < n implies seg_len(s, i, k) > m by {
                    if i < k {
                        lemma_increasing(s, i, k);
                    }
                }
            }
        }
        assert(i <= c < n);
        lemma_chosen_ranges(s, m, c + 1);
        let t = chosen_ranges(s, m, c + 1);
        assert(r == seq![(s[i], s[c])] + t);
        if i < c {
            lemma_increasing(s, i, c);
        }
        lemma_listed(s, i);
        lemma_listed(s, c);
        assert forall|k: int| 0 <= k < r.len() implies {
            &&& #[trigger] r[k].0 <= r[k].1
            &&& listed(s, r[k].0)
            &&& listed(s, r[k].1)
            &&& i < s.len() ==> s[i] <= r[k].0
            &&& span_len(r[k]) <= mm
        } by {
            if k > 0 {
                assert(r[k] == t[k - 1]);
                if c + 1 < n {
                    lemma_increasing(s, i, c + 1);
                }
            }
        }
        assert forall|k1: int, k2: int| 0 <= k1 < k2 < r.len() implies #[trigger] r[k1].1
            < #[trigger] r[k2].0 by {
            assert(r[k2] == t[k2 - 1]);
            if k1 > 0 {
                assert(r[k1] == t[k1 - 1]);
            } else {
                assert(c + 1 < n);
                lemma_increasing(s, c, c + 1);
            }
        }
        assert forall|l: int| i <= l < s.len() implies in_some_range(r, #[trigger] s[l]) by {
            if l <= c {
                if i < l {
                    lemma_increasing(s, i, l);
                }
                if l < c {
                    lemma_increasing(s, l, c);
                }
                lemma_in_range(r, s[l], 0);
            } else {
                let k = witness_range(t, s[l]);
                assert(r[k + 1] == t[k]);
                lemma_in_range(r, s[l], k + 1);
            }
        }
        if m >= 1 {
            lemma_opt_cost(s, m, c + 1);
            assert(r.drop_first() == t);
        }
    }
}

} // verus!
