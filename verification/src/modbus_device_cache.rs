//! A cached view of the registers of a modbus device, and a bitmask of register addresses.
use crate::bits::{
    bit_mask, clear_lowest, has_bit, lemma_and_mask, lemma_and_subset, lemma_clear_lowest,
    lemma_or_mask, lemma_zero_has_no_bits, lowest_bit,
};
use crate::cover_set::{lemma_chosen_ranges_cover, lemma_chosen_ranges_optimal};
use crate::range_cover::{
    best_first_range, chosen_ranges, cover_cost, increasing, is_cover, lemma_best_first_range,
    lemma_best_first_range_stops, 
    lemma_increasing, lemma_opt_cost, lex_le, listed, lists, opt_cost, seg_len, suffix_span,
};
use crate::registers::{value_of_word, RegisterIndex, Value, LAST_ADDRESS};
use std::ops::RangeInclusive;
use vstd::prelude::*;

verus! {

/// Number of 64-bit words in a [`RegisterBitmask`].
pub const BITMASK_WORDS: usize = 1023;

/// Addresses below this bound can be recorded in a [`RegisterBitmask`]; the bitmask has
/// `u16::MAX / 64` words of 64 bits.
pub const BITMASK_CAPACITY: u32 = 65472;

/// A set of register addresses, one bit per address.
pub struct RegisterBitmask([u64; 1023]);

/// Bit `address % 64` of word `address / 64` is set.
pub open spec fn words_contain(words: Seq<u64>, address: int) -> bool {
    &&& 0 <= address < BITMASK_CAPACITY
    &&& has_bit(words[address / 64], (address % 64) as u64)
}

impl View for RegisterBitmask {
    type V = Set<u16>;

    closed spec fn view(&self) -> Set<u16> {
        Set::new(|a: u16| words_contain(self.0@, a as int))
    }
}

impl RegisterBitmask {
    /// The empty set of addresses.
    pub fn new() -> (r: Self)
        ensures
            r@ == Set::<u16>::empty(),
    {
        let r = Self([0u64; 1023]);
        assert forall|a: u16| !r@.contains(a) by {
            if a < BITMASK_CAPACITY {
                lemma_zero_has_no_bits((a % 64) as u64);
            }
        }
        assert(r@ =~= Set::<u16>::empty());
        r
    }

    /// The word that holds the bit of `address`, and the mask that selects the bit in it.
    fn word_bit_mask(&self, address: u16) -> (r: (usize, u64))
        ensures
            r.0 == address / 64,
            r.1 == bit_mask((address % 64) as u64),
    {
        let word = (address / 64) as usize;
        let bit_mask = 1u64 << ((address % 64) as u64);
        (word, bit_mask)
    }

    /// Is `address` in the set.
    pub fn is_set(&self, address: u16) -> (r: bool)
        requires
            address < BITMASK_CAPACITY,
        ensures
            r == self@.contains(address),
    {
        let (word, bitmask) = self.word_bit_mask(address);
        proof {
            lemma_and_mask(self.0@[word as int], (address % 64) as u64);
        }
        (self.0[word] & bitmask) != 0
    }

    /// Adds `address` to the set.
    pub fn set(&mut self, address: u16)
        requires
            address < BITMASK_CAPACITY,
        ensures
            final(self)@ == old(self)@.insert(address),
    {
        let (word, bitmask) = self.word_bit_mask(address);
        let ghost old_words = self.0@;
        let new_word = self.0[word] | bitmask;
        self.0[word] = new_word;
        assert forall|a: u16| #[trigger] self@.contains(a) == old(self)@.insert(address).contains(
            a,
        ) by {
            if a < BITMASK_CAPACITY {
                lemma_or_mask(old_words[word as int], (address % 64) as u64, (a % 64) as u64);
                if a / 64 != address / 64 {
                    assert(self.0@[(a / 64) as int] == old_words[(a / 64) as int]);
                } else if a != address {
                    assert(a % 64 != address % 64);
                }
            }
        }
        assert(self@ =~= old(self)@.insert(address));
    }

    /// Returns `true` only if `superset` has all bits from `self` set.
    pub fn is_subset_of(&self, superset: &RegisterBitmask) -> (r: bool)
        ensures
            r == self@.subset_of(superset@),
    {
        let mut i: usize = 0;
        while i < BITMASK_WORDS
            invariant
                i <= BITMASK_WORDS,
                forall|a: u16|
                    (a as int) < i * 64 && #[trigger] self@.contains(a) ==> superset@.contains(a),
            decreases BITMASK_WORDS - i,
        {
            let our = self.0[i];
            let their = superset.0[i];
            proof {
                lemma_and_subset(their, our);
            }
            if (their & our) != our {
                proof {
                    let b = choose|b: u64| b < 64 && #[trigger] has_bit(our, b) && !has_bit(their, b);
                    let a = (i * 64 + b) as u16;
                    assert(a / 64 == i && a % 64 == b);
                    assert(self@.contains(a) && !superset@.contains(a));
                }
                return false;
            }
            assert forall|a: u16|
                (a as int) < (i + 1) * 64 && #[trigger] self@.contains(a) implies superset@.contains(
                a,
            ) by {
                if a as int >= i * 64 {
                    assert(a / 64 == i);
                    assert(has_bit(our, (a % 64) as u64));
                }
            }
            i = i + 1;
        }
        proof {
            assert forall|a: u16| #[trigger] self@.contains(a) implies superset@.contains(a) by {
                assert(a < BITMASK_CAPACITY);
            }
        }
        true
    }
}

/// The addresses `base + b` of the set bits `b` of `w`, in increasing order.
pub closed spec fn word_bits(w: u64, base: int) -> Seq<u16>
    decreases w,
{
    if w == 0 {
        seq![]
    } else {
        proof {
            lemma_clear_lowest(w, 0);
        }
        seq![(base + lowest_bit(w)) as u16] + word_bits(clear_lowest(w), base)
    }
}

/// The addresses of the set bits of the words from index `wi` on, in increasing order.
pub closed spec fn bits_from(words: Seq<u64>, wi: int) -> Seq<u16>
    decreases words.len() - wi,
{
    if 0 <= wi < words.len() {
        word_bits(words[wi], wi * 64) + bits_from(words, wi + 1)
    } else {
        seq![]
    }
}


proof fn lemma_word_bits(w: u64, base: int)
    requires
        0 <= base,
        base + 64 <= 65536,
    ensures
        forall|k: int|
            0 <= k < word_bits(w, base).len() ==> base <= #[trigger] word_bits(w, base)[k] < base
                + 64 && has_bit(w, (word_bits(w, base)[k] - base) as u64),
        forall|b: u64| b < 64 && #[trigger] has_bit(w, b) ==> word_bits(w, base).contains(
            (base + b) as u16,
        ),
        increasing(word_bits(w, base)),
    decreases w,
{
    reveal(increasing);
    let s = word_bits(w, base);
    if w == 0 {
        assert forall|b: u64| b < 64 && #[trigger] has_bit(w, b) implies s.contains(
            (base + b) as u16,
        ) by {
            lemma_zero_has_no_bits(b);
        }
    } else {
        let p = lowest_bit(w);
        let c = clear_lowest(w);
        lemma_clear_lowest(w, 0);
        lemma_word_bits(c, base);
        let t = word_bits(c, base);
        assert(s == seq![(base + p) as u16] + t);
        assert forall|k: int| 0 <= k < t.len() implies (base + p) < #[trigger] t[k] by {
            let b = (t[k] - base) as u64;
            lemma_clear_lowest(w, b);
            if b < p {
            }
        }
        assert forall|k: int|
            0 <= k < s.len() implies base <= #[trigger] s[k] < base + 64 && has_bit(
            w,
            (s[k] - base) as u64,
        ) by {
            if k > 0 {
                assert(s[k] == t[k - 1]);
                lemma_clear_lowest(w, (t[k - 1] - base) as u64);
            }
        }
        assert forall|b: u64| b < 64 && #[trigger] has_bit(w, b) implies s.contains(
            (base + b) as u16,
        ) by {
            lemma_clear_lowest(w, b);
            if b == p {
                assert(s[0] == (base + b) as u16);
            } else {
                assert(has_bit(c, b));
                let k = choose|k: int| 0 <= k < t.len() && t[k] == (base + b) as u16;
                assert(s[k + 1] == t[k]);
            }
        }
        assert forall|i: int, j: int| 0 <= i < j < s.len() implies s[i] < s[j] by {
            if i > 0 {
                assert(s[i] == t[i - 1] && s[j] == t[j - 1]);
            } else {
                assert(s[j] == t[j - 1]);
            }
        }
    }
}

proof fn lemma_bits_from(words: Seq<u64>, wi: int)
    requires
        words.len() == BITMASK_WORDS,
        0 <= wi,
    ensures
        forall|k: int|
            0 <= k < bits_from(words, wi).len() ==> wi * 64 <= #[trigger] bits_from(words, wi)[k]
                && words_contain(words, bits_from(words, wi)[k] as int),
        forall|a: int|
            wi * 64 <= a && #[trigger] words_contain(words, a) ==> bits_from(words, wi).contains(
                a as u16,
            ),
        increasing(bits_from(words, wi)),
    decreases words.len() - wi,
{
    reveal(increasing);
    let s = bits_from(words, wi);
    if wi < words.len() {
        let base = wi * 64;
        lemma_word_bits(words[wi], base);
        lemma_bits_from(words, wi + 1);
        let h = word_bits(words[wi], base);
        let t = bits_from(words, wi + 1);
        assert(s == h + t);
        assert forall|k: int|
            0 <= k < s.len() implies wi * 64 <= #[trigger] s[k] && words_contain(
            words,
            s[k] as int,
        ) by {
            if k < h.len() {
                assert(s[k] == h[k]);
                let x = h[k] as int;
                assert(x / 64 == wi && x % 64 == x - base);
            } else {
                assert(s[k] == t[k - h.len()]);
            }
        }
        assert forall|a: int| wi * 64 <= a && #[trigger] words_contain(words, a) implies s.contains(
            a as u16,
        ) by {
            if a < base + 64 {
                assert(a / 64 == wi);
                let b = (a % 64) as u64;
                assert(has_bit(words[wi], b));
                let k = choose|k: int| 0 <= k < h.len() && h[k] == (base + b) as u16;
                assert(s[k] == h[k]);
            } else {
                let k = choose|k: int| 0 <= k < t.len() && t[k] == a as u16;
                assert(s[h.len() + k] == t[k]);
            }
        }
        assert forall|i: int, j: int| 0 <= i < j < s.len() implies s[i] < s[j] by {
            if j < h.len() {
                assert(s[i] == h[i] && s[j] == h[j]);
            } else if i >= h.len() {
                assert(s[i] == t[i - h.len()] && s[j] == t[j - h.len()]);
            } else {
                assert(s[i] == h[i] && s[j] == t[j - h.len()]);
            }
        }
    }
}

impl RegisterBitmask {
    /// The addresses in the set, in increasing order.
    pub closed spec fn elements(&self) -> Seq<u16> {
        bits_from(self.0@, 0)
    }

    /// Every address in the set is below [`BITMASK_CAPACITY`].
    pub proof fn lemma_bounded(&self)
        ensures
            forall|a: u16| #[trigger] self@.contains(a) ==> a < BITMASK_CAPACITY,
    {
    }

    /// [`Self::elements`] lists the addresses of the set in strictly increasing order.
    pub proof fn lemma_elements(&self)
        ensures
            increasing(self.elements()),
            forall|a: u16| #[trigger] self.elements().contains(a) == self@.contains(a),
    {
        lemma_bits_from(self.0@, 0);
        let s = self.elements();
        assert forall|a: u16| #[trigger] s.contains(a) == self@.contains(a) by {
            if s.contains(a) {
                let k = choose|k: int| 0 <= k < s.len() && s[k] == a;
                assert(words_contain(self.0@, s[k] as int));
            }
            if self@.contains(a) {
                assert(words_contain(self.0@, a as int));
            }
        }
    }

    /// Finds an optimal list of ranges of set bits using dynamic programming.
    ///
    /// The ranges cover the set with the fewest ranges of at most `max_range_len` addresses, and
    /// among those with the fewest addresses spanned. With `max_range_len == 0` no such cover
    /// exists and each address gets a range of its own.
    pub fn find_optimal_ranges(&self, max_range_len: u16) -> (r: Vec<RangeInclusive<u16>>)
        ensures
            range_pairs(r@) == chosen_ranges(self.elements(), max_range_len as int, 0),
            is_cover(
                self@,
                if max_range_len >= 1 {
                    max_range_len as int
                } else {
                    1
                },
                range_pairs(r@),
            ),
            max_range_len >= 1 ==> forall|other: Seq<(u16, u16)>|
                #[trigger] is_cover(self@, max_range_len as int, other) ==> lex_le(
                    cover_cost(range_pairs(r@)),
                    cover_cost(other),
                ),
            forall|k: int| 0 <= k < r@.len() ==> !(#[trigger] r@[k]@).exhausted,
    {
        let ghost m = max_range_len as int;
        let set_bits = self.set_bits();
        let ghost s = self.elements();
        proof {
            self.lemma_elements();
            self.lemma_bounded();
            lemma_elements_below(s, self@);
            lemma_chosen_ranges_cover(s, self@, m);
            assert forall|other: Seq<(u16, u16)>|
                m >= 1 && #[trigger] is_cover(self@, m, other) implies lex_le(
                cover_cost(chosen_ranges(s, m, 0)),
                cover_cost(other),
            ) by {
                lemma_chosen_ranges_optimal(s, self@, m, other);
            }
        }
        let n = set_bits.len();
        if n == 0 {
            let r: Vec<RangeInclusive<u16>> = Vec::new();
            proof {
                reveal(chosen_ranges);
                assert(range_pairs(r@) =~= chosen_ranges(s, m, 0));
            }
            return r;
        }
        let choices = optimal_choices(&set_bits, max_range_len, Ghost(s));
        let mut ranges: Vec<RangeInclusive<u16>> = Vec::new();
        let mut current_bit_index: usize = 0;
        while current_bit_index < n
            invariant
                m == max_range_len as int,
                current_bit_index <= n,
                set_bits@ == s,
                n == s.len(),
                choices@.len() == n,
                forall|l: int|
                    0 <= l < n ==> #[trigger] choices@[l] == best_first_range(s, m, l, n as int).1,
                range_pairs(ranges@) + chosen_ranges(s, m, current_bit_index as int)
                    == chosen_ranges(s, m, 0),
                forall|l: int| 0 <= l < ranges@.len() ==> !(#[trigger] ranges@[l]@).exhausted,
            decreases n - current_bit_index,
        {
            let start_bit = set_bits[current_bit_index];
            let end_bit_index = choices[current_bit_index];
            proof {
                lemma_best_first_range(s, m, current_bit_index as int, n as int);
                reveal(chosen_ranges);
            }
            let end_bit = set_bits[end_bit_index];
            let ghost before = ranges@;
            ranges.push(start_bit..=end_bit);
            assert(range_pairs(ranges@) =~= range_pairs(before).push((start_bit, end_bit)));
            assert(range_pairs(ranges@) + chosen_ranges(s, m, end_bit_index + 1) =~= range_pairs(
                before,
            ) + chosen_ranges(s, m, current_bit_index as int));
            current_bit_index = end_bit_index + 1;
        }
        proof {
            reveal(chosen_ranges);
            assert(range_pairs(ranges@) =~= chosen_ranges(s, m, 0));
        }
        ranges
    }

    /// The addresses in the set, in increasing order.
    pub fn set_bits(&self) -> (r: Vec<u16>)
        ensures
            r@ == self.elements(),
    {
        let mut iter = SetBitsIterator::new(self);
        let mut r: Vec<u16> = Vec::new();
        loop
            invariant
                iter.wf(),
                iter.bitmask == self,
                r@ + iter.remaining() == self.elements(),
            decreases iter.remaining().len(),
        {
            match iter.next() {
                Some(a) => {
                    r.push(a);
                    assert(r@ + iter.remaining() =~= self.elements());
                },
                None => {
                    assert(r@ =~= self.elements());
                    return r;
                },
            }
        }
    }
}

/// For each index `i` of `set_bits`, the index of the last address of the first range of an
/// optimal cover of `set_bits[i..]`.
fn optimal_choices(set_bits: &Vec<u16>, max_range_len: u16, Ghost(s): Ghost<Seq<u16>>) -> (r: Vec<
    usize,
>)
    requires
        set_bits@ == s,
        0 < s.len() <= BITMASK_CAPACITY,
        increasing(s),
        forall|l: int| 0 <= l < s.len() ==> #[trigger] s[l] < BITMASK_CAPACITY,
    ensures
        r@.len() == s.len(),
        forall|l: int|
            0 <= l < s.len() ==> #[trigger] r@[l] == best_first_range(
                s,
                max_range_len as int,
                l,
                s.len() as int,
            ).1,
{
    let ghost m = max_range_len as int;
    let n = set_bits.len();
    let mut dp: Vec<(u32, u64)> = Vec::new();
    let mut k: usize = 0;
    while k <= n
        invariant
            k <= n + 1,
            n == s.len(),
            n <= BITMASK_CAPACITY,
            dp@.len() == k,
            forall|l: int| 0 <= l < k ==> dp@[l] == (0u32, 0u64),
        decreases n + 1 - k,
    {
        dp.push((0, 0));
        k = k + 1;
    }
    let mut choices: Vec<usize> = Vec::new();
    let mut k: usize = 0;
    while k < n
        invariant
            k <= n,
            choices@.len() == k,
        decreases n - k,
    {
        choices.push(0);
        k = k + 1;
    }
    let mut i = n;
    assert(opt_cost(s, m, n as int) == Some((0int, 0int)));
    while i > 0
        invariant
            m == max_range_len as int,
            i <= n,
            set_bits@ == s,
            n == s.len(),
            n <= BITMASK_CAPACITY,
            increasing(s),
            forall|l: int| 0 <= l < n ==> #[trigger] s[l] < BITMASK_CAPACITY,
            dp@.len() == n + 1,
            choices@.len() == n,
            forall|l: int| i <= l <= n ==> #[trigger] dp@[l] == encode_cost(opt_cost(s, m, l)),
            forall|l: int|
                i <= l < n ==> #[trigger] choices@[l] == best_first_range(s, m, l, n as int).1,
        decreases i,
    {
        i = i - 1;
        let (best_cost, best_choice_j) = best_first_range_from(
            &set_bits,
            &dp,
            i,
            max_range_len,
            Ghost(s),
        );
        dp.set(i, best_cost);
        choices.set(i, best_choice_j);
    }
    choices
}

/// The cheapest first range from `set_bits[i]`, given the optimal costs of the later suffixes.
fn best_first_range_from(
    set_bits: &Vec<u16>,
    dp: &Vec<(u32, u64)>,
    i: usize,
    max_range_len: u16,
    Ghost(s): Ghost<Seq<u16>>,
) -> (r: ((u32, u64), usize))
    requires
        set_bits@ == s,
        s.len() <= BITMASK_CAPACITY,
        increasing(s),
        forall|l: int| 0 <= l < s.len() ==> #[trigger] s[l] < BITMASK_CAPACITY,
        i < s.len(),
        dp@.len() == s.len() + 1,
        forall|l: int|
            i < l <= s.len() ==> #[trigger] dp@[l] == encode_cost(
                opt_cost(s, max_range_len as int, l),
            ),
    ensures
        r.0 == encode_cost(best_first_range(s, max_range_len as int, i as int, s.len() as int).0),
        r.1 == best_first_range(s, max_range_len as int, i as int, s.len() as int).1,
{
    let ghost m = max_range_len as int;
    let n = set_bits.len();
    let mut best_cost: (u32, u64) = (u32::MAX, u64::MAX);
    let mut best_choice_j = i;
    let mut j = i;
    proof {
        reveal_with_fuel(best_first_range, 1);
        assert(best_first_range(s, m, i as int, i as int) == (None::<(int, int)>, i as int));
    }
    while j < n
        invariant_except_break
            m == max_range_len as int,
            i <= j <= n,
            i < n,
            set_bits@ == s,
            n == s.len(),
            n <= BITMASK_CAPACITY,
            increasing(s),
            forall|l: int| 0 <= l < n ==> #[trigger] s[l] < BITMASK_CAPACITY,
            dp@.len() == n + 1,
            forall|l: int|
                i < l <= n ==> #[trigger] dp@[l] == encode_cost(opt_cost(s, m, l)),
            best_cost == encode_cost(best_first_range(s, m, i as int, j as int).0),
            best_choice_j == best_first_range(s, m, i as int, j as int).1,
        ensures
            i <= j <= n,
            best_first_range(s, m, i as int, n as int) == best_first_range(
                s,
                m,
                i as int,
                j as int,
            ),
            best_cost == encode_cost(best_first_range(s, m, i as int, j as int).0),
            best_choice_j == best_first_range(s, m, i as int, j as int).1,
        decreases n - j,
    {
        let start_bit = set_bits[i];
        let end_bit = set_bits[j];
        proof {
            if i < j {
                lemma_increasing(s, i as int, j as int);
            }
        }
        let range_len = end_bit.saturating_sub(start_bit).saturating_add(1);
        assert(range_len == seg_len(s, i as int, j as int));
        if range_len > max_range_len {
            assert(seg_len(s, i as int, j as int) > m);
            proof {
                lemma_best_first_range_stops(s, m, i as int, j as int, n as int);
            }
            break;
        }
        proof {
            lemma_opt_cost(s, m, j + 1);
            if i < j {
                lemma_best_first_range(s, m, i as int, j as int);
                let kk = best_first_range(s, m, i as int, j as int).1;
                if best_first_range(s, m, i as int, j as int).0 is Some {
                    lemma_opt_cost(s, m, kk + 1);
                    if kk < n - 1 {
                        lemma_increasing(s, kk, n - 1);
                    }
                    if i < kk {
                        lemma_increasing(s, i as int, kk);
                    }
                }
            }
            if j + 1 < n {
                if j + 1 < n - 1 {
                    lemma_increasing(s, j + 1, n - 1);
                }
            }
        }
        let cost_of_rest = dp[j + 1];
        let cost_of_this_range: (u32, u64) = (1, range_len as u64);
        let current_total_cost = (
            cost_of_this_range.0 + cost_of_rest.0,
            cost_of_this_range.1 + cost_of_rest.1,
        );
        proof {
            reveal_with_fuel(best_first_range, 1);
        }
        if current_total_cost.0 < best_cost.0 || (current_total_cost.0 == best_cost.0
            && current_total_cost.1 < best_cost.1) {
            best_cost = current_total_cost;
            best_choice_j = j;
        }
        j = j + 1;
    }
    if j == n {
        proof {
            lemma_best_first_range_stops(s, m, i as int, n as int, n as int);
        }
    }
    (best_cost, best_choice_j)
}

/// The endpoints of inclusive ranges.
pub open spec fn range_pairs(v: Seq<RangeInclusive<u16>>) -> Seq<(u16, u16)> {
    Seq::new(v.len(), |k: int| (v[k]@.start, v[k]@.end))
}

/// A cost as the dynamic program stores it; no cost is stored as the largest values.
spec fn encode_cost(c: Option<(int, int)>) -> (u32, u64) {
    match c {
        Some(c) => (c.0 as u32, c.1 as u64),
        None => (u32::MAX, u64::MAX),
    }
}

proof fn lemma_elements_below(s: Seq<u16>, set: Set<u16>)
    requires
        increasing(s),
        forall|a: u16| #[trigger] s.contains(a) == set.contains(a),
        forall|a: u16| #[trigger] set.contains(a) ==> a < BITMASK_CAPACITY,
    ensures
        lists(s, set),
        s.len() <= BITMASK_CAPACITY,
        forall|l: int| 0 <= l < s.len() ==> #[trigger] s[l] < BITMASK_CAPACITY,
{
    reveal(lists);
    reveal(listed);
    assert forall|l: int| 0 <= l < s.len() implies set.contains(#[trigger] s[l]) by {
        assert(s.contains(s[l]));
    }
    assert forall|l: int| 0 <= l < s.len() implies #[trigger] s[l] < BITMASK_CAPACITY by {
        assert(s.contains(s[l]));
    }
    assert forall|l: int| 0 <= l < s.len() implies #[trigger] s[l] >= l by {
        lemma_at_least_index(s, l);
    }
    if s.len() > BITMASK_CAPACITY {
        assert(s[s.len() - 1] >= s.len() - 1);
    }
}

proof fn lemma_at_least_index(s: Seq<u16>, l: int)
    requires
        increasing(s),
        0 <= l < s.len(),
    ensures
        s[l] >= l,
    decreases l,
{
    if l > 0 {
        lemma_increasing(s, l - 1, l);
        lemma_at_least_index(s, l - 1);
    }
}

/// Walks the set addresses of a [`RegisterBitmask`] in increasing order.
pub struct SetBitsIterator<'a> {
    bitmask: &'a RegisterBitmask,
    word_index: u16,
    current_word_val: u64,
}

impl<'a> SetBitsIterator<'a> {
    /// The bitmask being walked.
    pub closed spec fn bitmask(&self) -> &'a RegisterBitmask {
        self.bitmask
    }

    /// The iterator is in a state that [`Self::new`] and [`Self::next`] produce.
    pub closed spec fn wf(&self) -> bool {
        self.current_word_val == 0 || self.word_index < BITMASK_WORDS
    }

    /// The addresses that the iterator has yet to produce, in order.
    pub closed spec fn remaining(&self) -> Seq<u16> {
        word_bits(self.current_word_val, self.word_index * 64) + bits_from(
            self.bitmask.0@,
            self.word_index + 1,
        )
    }

    /// Starts at the lowest address of `bitmask`.
    pub fn new(bitmask: &'a RegisterBitmask) -> (r: Self)
        ensures
            r.wf(),
            r.bitmask() == bitmask,
            r.remaining() == bitmask.elements(),
    {
        SetBitsIterator { bitmask, word_index: 0, current_word_val: bitmask.0[0] }
    }

    /// Produces the next set address, or `None` once all have been produced.
    pub fn next(&mut self) -> (r: Option<u16>)
        requires
            old(self).wf(),
        ensures
            final(self).wf(),
            final(self).bitmask() == old(self).bitmask(),
            match r {
                Some(a) => {
                    &&& old(self).remaining().len() > 0
                    &&& a == old(self).remaining()[0]
                    &&& final(self).remaining() == old(self).remaining().drop_first()
                },
                None => old(self).remaining().len() == 0 && final(self).remaining().len() == 0,
            },
    {
        loop
            invariant
                self.wf(),
                self.bitmask == old(self).bitmask,
                self.remaining() == old(self).remaining(),
            decreases 65536 - self.word_index,
        {
            if self.current_word_val == 0 {
                let ghost before = self.remaining();
                if self.word_index >= 1022 {
                    if self.word_index < u16::MAX {
                        self.word_index = self.word_index + 1;
                    }
                    assert(before =~= seq![]);
                    assert(self.remaining() =~= seq![]);
                    return None;
                }
                self.word_index = self.word_index + 1;
                self.current_word_val = self.bitmask.0[self.word_index as usize];
                assert(before =~= self.remaining());
                continue;
            }
            let set_bit_pos = self.current_word_val.trailing_zeros() as u16;
            proof {
                lemma_clear_lowest(self.current_word_val, 0);
            }
            let address = self.word_index * 64 + set_bit_pos;
            self.current_word_val = self.current_word_val & (self.current_word_val - 1);
            return Some(address);
        }
    }
}

/// What one call of [`SetBitsIterator::next`] does, as its contract states it: from the iterator
/// `before` to the iterator `after`, answering `r`.
pub open spec fn next_step<'a>(
    before: SetBitsIterator<'a>,
    after: SetBitsIterator<'a>,
    r: Option<u16>,
) -> bool {
    &&& after.wf()
    &&& after.bitmask() == before.bitmask()
    &&& match r {
        Some(a) => {
            &&& before.remaining().len() > 0
            &&& a == before.remaining()[0]
            &&& after.remaining() == before.remaining().drop_first()
        },
        None => before.remaining().len() == 0 && after.remaining().len() == 0,
    }
}

/// Walking a bitmask from a fresh iterator: the `k`-th call of `next` answers the `k`-th
/// smallest address of the set while there is one, and `None` from then on; the set's
/// addresses come out in strictly increasing order, each once, and nothing else comes out.
/// `states` are the iterator before and after each call and `answers` what the calls returned.
pub proof fn lemma_walk_lists_the_set<'a>(
    bitmask: &'a RegisterBitmask,
    states: Seq<SetBitsIterator<'a>>,
    answers: Seq<Option<u16>>,
)
    requires
        states.len() == answers.len() + 1,
        states[0].wf(),
        states[0].bitmask() == bitmask,
        states[0].remaining() == bitmask.elements(),
        forall|k: int|
            0 <= k < answers.len() ==> next_step(
                #[trigger] states[k],
                states[k + 1],
                answers[k],
            ),
    ensures
        forall|k: int|
            0 <= k < answers.len() ==> #[trigger] answers[k] == if k < bitmask.elements().len() {
                Some(bitmask.elements()[k])
            } else {
                None::<u16>
            },
        increasing(bitmask.elements()),
        forall|a: u16| #[trigger] bitmask.elements().contains(a) == bitmask@.contains(a),
{
    bitmask.lemma_elements();
    let elements = bitmask.elements();
    assert forall|k: int| 0 <= k <= answers.len() implies #[trigger] states[k].remaining() == (
    if k <= elements.len() {
        elements.skip(k)
    } else {
        Seq::<u16>::empty()
    }) by {
        lemma_walk_remaining(bitmask, states, answers, k);
    }
    assert forall|k: int| 0 <= k < answers.len() implies #[trigger] answers[k] == if k
        < elements.len() {
        Some(elements[k])
    } else {
        None::<u16>
    } by {
        assert(next_step(states[k], states[k + 1], answers[k]));
        let before = states[k].remaining();
        if k < elements.len() {
            assert(before == elements.skip(k));
            assert(before.len() > 0);
            assert(before[0] == elements[k]);
        } else {
            assert(before.len() == 0);
        }
    }
}

proof fn lemma_walk_remaining<'a>(
    bitmask: &'a RegisterBitmask,
    states: Seq<SetBitsIterator<'a>>,
    answers: Seq<Option<u16>>,
    k: int,
)
    requires
        states.len() == answers.len() + 1,
        states[0].remaining() == bitmask.elements(),
        forall|j: int|
            0 <= j < answers.len() ==> next_step(#[trigger] states[j], states[j + 1], answers[j]),
        0 <= k <= answers.len(),
    ensures
        states[k].remaining() == if k <= bitmask.elements().len() {
            bitmask.elements().skip(k)
        } else {
            Seq::<u16>::empty()
        },
    decreases k,
{
    let elements = bitmask.elements();
    if k == 0 {
        assert(elements.skip(0) =~= elements);
    } else {
        lemma_walk_remaining(bitmask, states, answers, k - 1);
        assert(next_step(states[k - 1], states[k], answers[k - 1]));
        if k - 1 < elements.len() {
            let before = states[k - 1].remaining();
            assert(before.len() > 0);
            assert(answers[k - 1] is Some);
            assert(states[k].remaining() =~= elements.skip(k));
        } else {
            assert(states[k - 1].remaining().len() == 0);
            if answers[k - 1] is Some {
                assert(false);
            }
            assert(states[k].remaining() =~= Seq::<u16>::empty());
        }
    }
}

/// The last read value of each register of a device, for the registers read so far.
pub struct ModbusDeviceValues {
    values: [u16; 65535],
    have_value: RegisterBitmask,
}

/// Number of register words a [`ModbusDeviceValues`] stores, one per address below `u16::MAX`.
pub const VALUE_SLOTS: usize = 65535;

impl View for ModbusDeviceValues {
    type V = Map<u16, u16>;

    /// The value of each register that has been read.
    closed spec fn view(&self) -> Map<u16, u16> {
        Map::new(|a: u16| self.have_value@.contains(a), |a: u16| self.values@[a as int])
    }
}

impl ModbusDeviceValues {
    /// No register has been read yet.
    pub fn new() -> (r: Self)
        ensures
            r@ == Map::<u16, u16>::empty(),
    {
        let r = Self { values: [0u16; 65535], have_value: RegisterBitmask::new() };
        assert(r@ =~= Map::<u16, u16>::empty());
        r
    }

    /// Whether the register at `address` has been read.
    pub fn contains(&self, address: u16) -> (r: bool)
        requires
            address < BITMASK_CAPACITY,
        ensures
            r == self@.dom().contains(address),
    {
        self.have_value.is_set(address)
    }

    /// The value of `register`, if it has been read.
    pub fn value_of(&self, register: RegisterIndex) -> (r: Option<Value>)
        ensures
            r == (if self@.dom().contains(register.address_spec()) {
                Some(value_of_word(register.data_type_spec(), self@[register.address_spec()]))
            } else {
                None
            }),
    {
        let address = register.address();
        let word = self.value_of_address(address);
        match word {
            Some(word) => Some(register.data_type().from_word(word)),
            None => None,
        }
    }

    /// The word last read at `address`, if any.
    pub fn value_of_address(&self, address: u16) -> (r: Option<u16>)
        requires
            address < BITMASK_CAPACITY,
        ensures
            r == (if self@.dom().contains(address) {
                Some(self@[address])
            } else {
                None
            }),
    {
        if !self.contains(address) {
            return None;
        }
        Some(self.values[address as usize])
    }

    /// Set the newly read modbus value with our cache view of the device.
    ///
    /// Returns `true` if the value has changed.
    pub fn set_value(&mut self, address: u16, value: u16) -> (r: bool)
        requires
            address < BITMASK_CAPACITY,
        ensures
            final(self)@ == old(self)@.insert(address, value),
            r == !(old(self)@.dom().contains(address) && old(self)@[address] == value),
    {
        let index = address as usize;
        let changed = value != self.values[index] || !self.have_value.is_set(address);
        self.values[index] = value;
        self.have_value.set(address);
        assert(self@ =~= old(self)@.insert(address, value));
        changed
    }

    /// Whether every register of `address_mask` has been read.
    pub fn has_all_values(&self, address_mask: &RegisterBitmask) -> (r: bool)
        ensures
            r == address_mask@.subset_of(self@.dom()),
    {
        let r = address_mask.is_subset_of(&self.have_value);
        assert(self@.dom() =~= self.have_value@);
        r
    }
}

/// The register values after a sequence of writes `(address, value)` into an empty cache.
pub open spec fn replay(writes: Seq<(u16, u16)>) -> Map<u16, u16>
    decreases writes.len(),
{
    if writes.len() == 0 {
        Map::empty()
    } else {
        replay(writes.drop_last()).insert(writes.last().0, writes.last().1)
    }
}

/// The history of a cache: `caches` are the cache after [`ModbusDeviceValues::new`] and after
/// each [`ModbusDeviceValues::set_value`] of `writes`. The cache then holds exactly the registers
/// that were written, each with the value of its last write, so that
/// [`ModbusDeviceValues::value_of_address`] answers `None` for the others and that value for
/// these.
pub proof fn lemma_cache_history(caches: Seq<ModbusDeviceValues>, writes: Seq<(u16, u16)>)
    requires
        caches.len() == writes.len() + 1,
        caches[0]@ == Map::<u16, u16>::empty(),
        forall|k: int|
            0 <= k < writes.len() ==> #[trigger] caches[k + 1]@ == caches[k]@.insert(
                writes[k].0,
                writes[k].1,
            ),
    ensures
        caches.last()@ == replay(writes),
        forall|a: u16|
            #[trigger] caches.last()@.dom().contains(a) <==> exists|k: int|
                0 <= k < writes.len() && #[trigger] writes[k].0 == a,
        forall|k: int|
            0 <= k < writes.len() && (forall|j: int|
                k < j < writes.len() ==> #[trigger] writes[j].0 != writes[k].0) ==> caches.last()@[
            #[trigger] writes[k].0] == writes[k].1,
    decreases writes.len(),
{
    let n = writes.len() as int;
    if n == 0 {
        assert(caches.last()@ =~= replay(writes));
    } else {
        let earlier = caches.drop_last();
        let before = writes.drop_last();
        assert forall|k: int| 0 <= k < before.len() implies #[trigger] earlier[k + 1]@
            == earlier[k]@.insert(before[k].0, before[k].1) by {
            assert(caches[k + 1]@ == caches[k]@.insert(writes[k].0, writes[k].1));
        }
        lemma_cache_history(earlier, before);
        let k = n - 1;
        assert(caches[k + 1]@ == caches[k]@.insert(writes[k].0, writes[k].1));
        let last = caches.last()@;
        assert(last =~= replay(writes));
        assert forall|a: u16| #[trigger] last.dom().contains(a) <==> exists|k: int|
            0 <= k < writes.len() && #[trigger] writes[k].0 == a by {
            if last.dom().contains(a) && a != writes[n - 1].0 {
                assert(earlier.last()@.dom().contains(a));
                let k = choose|k: int| 0 <= k < before.len() && #[trigger] before[k].0 == a;
                assert(writes[k].0 == a);
            }
            if exists|k: int| 0 <= k < writes.len() && #[trigger] writes[k].0 == a {
                let k = choose|k: int| 0 <= k < writes.len() && #[trigger] writes[k].0 == a;
                if k < n - 1 {
                    assert(before[k].0 == a);
                }
            }
        }
        assert forall|k: int|
            0 <= k < writes.len() && (forall|j: int|
                k < j < writes.len() ==> #[trigger] writes[j].0 != writes[k].0) implies last[
            #[trigger] writes[k].0] == writes[k].1 by {
            if k < n - 1 {
                assert(writes[n - 1].0 != writes[k].0);
                assert forall|j: int| k < j < before.len() implies #[trigger] before[j].0
                    != before[k].0 by {
                    assert(writes[j].0 != writes[k].0);
                }
                assert(before[k] == writes[k]);
            }
        }
    }
}

} // verus!
