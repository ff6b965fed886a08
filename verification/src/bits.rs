//! Facts about single bits of 64-bit words, used by the register bitmask.
use vstd::prelude::*;
use vstd::std_specs::bits::{axiom_u64_trailing_zeros, u64_trailing_zeros};

verus! {

/// Bit `b` of the word `w` is set.
pub open spec fn has_bit(w: u64, b: u64) -> bool {
    (w >> b) & 1u64 == 1u64
}

/// The word with only the bit `b` set.
pub open spec fn bit_mask(b: u64) -> u64 {
    1u64 << b
}

pub proof fn lemma_and_mask(w: u64, b: u64)
    requires
        b < 64,
    ensures
        (w & bit_mask(b) != 0) == has_bit(w, b),
{
    assert(b < 64 ==> ((w & (1u64 << b) != 0) == ((w >> b) & 1u64 == 1u64))) by (bit_vector);
}

pub proof fn lemma_or_mask(w: u64, b: u64, c: u64)
    requires
        b < 64,
        c < 64,
    ensures
        has_bit(w | bit_mask(b), c) == (has_bit(w, c) || b == c),
{
    assert(b < 64 && c < 64 ==> ((((w | (1u64 << b)) >> c) & 1u64 == 1u64) == (((w >> c) & 1u64
        == 1u64) || b == c))) by (bit_vector);
}

pub proof fn lemma_zero_has_no_bits(b: u64)
    ensures
        !has_bit(0, b),
{
    assert(((0u64 >> b) & 1u64) != 1u64) by (bit_vector);
}

/// `(t & o) == o` exactly when every bit of `o` is also set in `t`.
pub proof fn lemma_and_subset(t: u64, o: u64)
    ensures
        ((t & o) == o) == (forall|b: u64| b < 64 && #[trigger] has_bit(o, b) ==> has_bit(t, b)),
{
    if (t & o) == o {
        assert forall|b: u64| b < 64 && #[trigger] has_bit(o, b) implies has_bit(t, b) by {
            assert((t & o) == o && b < 64 && ((o >> b) & 1u64 == 1u64) ==> ((t >> b) & 1u64
                == 1u64)) by (bit_vector);
        }
    } else {
        let d = o & !t;
        assert((t & o) != o ==> (o & !t) != 0) by (bit_vector);
        axiom_u64_trailing_zeros(d);
        let p = u64_trailing_zeros(d) as u64;
        assert(p < 64);
        assert(((d >> p) & 1u64 == 1u64) && d == (o & !t) && p < 64 ==> ((o >> p) & 1u64 == 1u64
            && (t >> p) & 1u64 != 1u64)) by (bit_vector);
        assert(has_bit(o, p) && !has_bit(t, p));
    }
}

/// The lowest set bit of `w` is its number of trailing zeros.
pub open spec fn lowest_bit(w: u64) -> u64 {
    u64_trailing_zeros(w) as u64
}

/// `w` with its lowest set bit cleared.
pub open spec fn clear_lowest(w: u64) -> u64 {
    w & ((w - 1) as u64)
}

/// Clearing the lowest set bit with `w & (w - 1)`.
pub proof fn lemma_clear_lowest(w: u64, b: u64)
    requires
        w != 0,
        b < 64,
    ensures
        lowest_bit(w) < 64,
        has_bit(w, lowest_bit(w)),
        b < lowest_bit(w) ==> !has_bit(w, b),
        has_bit(clear_lowest(w), b) == (has_bit(w, b) && b != lowest_bit(w)),
        clear_lowest(w) < w,
{
    axiom_u64_trailing_zeros(w);
    let p = lowest_bit(w);
    assert(p < 64);
    assert(b < p ==> ((w >> b) & 1u64 == 0u64));
    assert(w != 0 && p < 64 && b < 64 && ((w >> p) & 1u64 == 1u64) && w << ((64 - p) as u64)
        == 0 ==> ((((w & ((w - 1) as u64)) >> b) & 1u64 == 1u64) == (((w >> b) & 1u64 == 1u64)
        && b != p))) by (bit_vector);
    assert(w != 0 ==> (w & ((w - 1) as u64)) < w) by (bit_vector);
}

} // verus!
