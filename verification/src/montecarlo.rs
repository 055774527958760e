//! The bit manipulation behind the low-discrepancy sample sequences.
//!
//! The base-2 radical inverse reads an index with its bits mirrored; the
//! scrambling and the scaling of the mirrored word into the unit interval
//! are floating-point work done outside the library.

use vstd::prelude::*;

verus! {

/// Mirroring a word swaps halves of ever smaller size.
proof fn lemma_bit_reverse(v: u32, x1: u32, x2: u32, x3: u32, x4: u32, x5: u32)
    by (bit_vector)
    requires
        x1 == (v << 16) | (v >> 16),
        x2 == ((x1 & 0x00ff00ff) << 8) | ((x1 & 0xff00ff00) >> 8),
        x3 == ((x2 & 0x0f0f0f0f) << 4) | ((x2 & 0xf0f0f0f0) >> 4),
        x4 == ((x3 & 0x33333333) << 2) | ((x3 & 0xcccccccc) >> 2),
        x5 == ((x4 & 0x55555555) << 1) | ((x4 & 0xaaaaaaaa) >> 1),
    ensures
        forall|i: u32| i < 32 ==> #[trigger] ((x5 >> i) & 1) == (v >> ((31 - i) as u32)) & 1,
{
}

/// The word `v` with its bits in reverse order: bit `i` of the result is
/// bit `31 - i` of `v`.
pub fn reverse_bits_32(v: u32) -> (r: u32)
    ensures
        forall|i: u32| i < 32 ==> #[trigger] ((r >> i) & 1) == (v >> ((31 - i) as u32)) & 1,
{
    let x1: u32 = (v << 16) | (v >> 16);
    let x2: u32 = ((x1 & 0x00ff00ff) << 8) | ((x1 & 0xff00ff00) >> 8);
    let x3: u32 = ((x2 & 0x0f0f0f0f) << 4) | ((x2 & 0xf0f0f0f0) >> 4);
    let x4: u32 = ((x3 & 0x33333333) << 2) | ((x3 & 0xcccccccc) >> 2);
    let x5: u32 = ((x4 & 0x55555555) << 1) | ((x4 & 0xaaaaaaaa) >> 1);
    proof {
        lemma_bit_reverse(v, x1, x2, x3, x4, x5);
    }
    x5
}

} // verus!
