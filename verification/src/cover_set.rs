//! The chosen ranges of a set of addresses form an optimal cover of the set.
use crate::cover_chosen::lemma_chosen_ranges;
use crate::cover_lower_bound::lemma_lower_bound;
use crate::range_cover::{
    chosen_ranges, cover_cost, in_some_range, is_cover, is_suffix_cover, lemma_increasing,
    lemma_index_of, lex_le, lists, listed, opt_cost, span_len,
};
use vstd::prelude::*;

verus! {

/// A cover of all the listed addresses of a set is a cover of the set.
proof fn lemma_suffix_cover_is_cover(s: Seq<u16>, set: Set<u16>, m: int, r: Seq<(u16, u16)>)
    requires
        lists(s, set),
        is_suffix_cover(s, m, 0, r),
    ensures
        is_cover(set, m, r),
{
    reveal(lists);
    reveal(is_suffix_cover);
    reveal(is_cover);
    assert forall|k: int| 0 <= k < r.len() implies set.contains(r[k].0) && set.contains(r[k].1) by {
        let l0 = lemma_index_of(s, r[k].0);
        let l1 = lemma_index_of(s, r[k].1);
    }
    assert forall|a: u16| #[trigger] set.contains(a) implies in_some_range(r, a) by {
        let l = lemma_index_of(s, a);
        assert(in_some_range(r, s[l]));
    }
}

/// A cover of a set is a cover of all the listed addresses of the set.
proof fn lemma_cover_is_suffix_cover(s: Seq<u16>, set: Set<u16>, m: int, r: Seq<(u16, u16)>)
    requires
        lists(s, set),
        is_cover(set, m, r),
    ensures
        is_suffix_cover(s, m, 0, r),
{
    reveal(lists);
    reveal(is_suffix_cover);
    reveal(is_cover);
    assert forall|k: int| 0 <= k < r.len() implies listed(s, r[k].0) && listed(s, r[k].1) && (0
        < s.len() ==> s[0] <= r[k].0) by {
        assert(set.contains(r[k].0) && set.contains(r[k].1));
        let l = lemma_index_of(s, r[k].0);
        if l > 0 {
            lemma_increasing(s, 0, l);
        }
    }
    assert forall|l: int| 0 <= l < s.len() implies in_some_range(r, #[trigger] s[l]) by {
        assert(set.contains(s[l]));
    }
}

/// The chosen ranges of the addresses of a set cover the set, by ranges of at most `max`
/// addresses when `max >= 1`, else by single addresses.
pub proof fn lemma_chosen_ranges_cover(s: Seq<u16>, set: Set<u16>, max: int)
    requires
        lists(s, set),
    ensures
        is_cover(set, if max >= 1 { max } else { 1 }, chosen_ranges(s, max, 0)),
        max >= 1 ==> cover_cost(chosen_ranges(s, max, 0)) == opt_cost(s, max, 0)->0,
{
    reveal(lists);
    lemma_chosen_ranges(s, max, 0);
    lemma_suffix_cover_is_cover(
        s,
        set,
        if max >= 1 {
            max
        } else {
            1
        },
        chosen_ranges(s, max, 0),
    );
}

/// Covers of a set by ranges of at most `max >= 1` addresses cost no less than the chosen one.
pub proof fn lemma_chosen_ranges_optimal(
    s: Seq<u16>,
    set: Set<u16>,
    max: int,
    other: Seq<(u16, u16)>,
)
    requires
        lists(s, set),
        max >= 1,
        is_cover(set, max, other),
    ensures
        lex_le(cover_cost(chosen_ranges(s, max, 0)), cover_cost(other)),
{
    lemma_chosen_ranges_cover(s, set, max);
    lemma_cover_is_suffix_cover(s, set, max, other);
    reveal(lists);
    lemma_lower_bound(s, max, 0, other);
}

} // verus!
