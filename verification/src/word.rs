//! Facts about the low-bit flag that the lock state words use.
use vstd::prelude::*;

verus! {

/// The low bit of a state word is its parity, and the usual bit
/// operations on that bit are arithmetic on the parity.
pub proof fn lemma_low_bit(s: usize)
    ensures
        s & 1usize == s % 2,
        s & !1usize == s - s % 2,
        s | 1usize == s - s % 2 + 1,
{
    assert(s & 1usize == s % 2) by (bit_vector);
    assert(s & !1usize == s - s % 2) by (bit_vector);
    assert(s | 1usize == s - s % 2 + 1) by (bit_vector);
}

} // verus!
