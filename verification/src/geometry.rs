//! Scalar utilities shared across the renderer: range clamping and the
//! power-of-two helpers used when sizing sample sets.

use vstd::prelude::*;

verus! {

/// A value is a power of two exactly when it is non-zero and clearing its
/// lowest set bit leaves nothing.
pub open spec fn spec_is_power_of_2(v: u64) -> bool {
    v != 0 && v & ((v - 1) as u64) == 0
}

/// The union of a bounding region with another region or a point of the
/// same scalar kind; the floating-point boxes implementing it live outside
/// the library.
pub trait Union<R, S> {
    fn union(&self, rhs: &R) -> S;
}

/// Clamps `val` into the interval `[low, high]`.
pub fn clamp(val: i64, low: i64, high: i64) -> (r: i64)
    ensures
        r == if val < low {
            low
        } else if val > high {
            high
        } else {
            val
        },
{
    if val < low {
        low
    } else if val > high {
        high
    } else {
        val
    }
}

/// Whether `v` is a power of two; zero is not one.
pub fn is_power_of_2(v: usize) -> (r: bool)
    ensures
        r == spec_is_power_of_2(v as u64),
{
    let w: u64 = v as u64;
    w != 0 && (w & (w - 1)) == 0
}

/// Two powers of two are at least a factor of two apart.
proof fn lemma_power_of_2_spacing(p: u64, q: u64)
    by (bit_vector)
    requires
        spec_is_power_of_2(p),
        spec_is_power_of_2(q),
        p < q,
    ensures
        2 * p <= q,
{
}

/// Smearing the high bit of `v - 1` across the low bits and adding one yields
/// the least power of two that is at least `v`.
proof fn lemma_bit_smear(v: u64, x0: u64, x1: u64, x2: u64, x3: u64, x4: u64, x5: u64, x6: u64)
    by (bit_vector)
    requires
        1 <= v,
        v - 1 <= 0x7fff_ffff_ffff_ffff,
        x0 == (v - 1) as u64,
        x1 == x0 | (x0 >> 1),
        x2 == x1 | (x1 >> 2),
        x3 == x2 | (x2 >> 4),
        x4 == x3 | (x3 >> 8),
        x5 == x4 | (x4 >> 16),
        x6 == x5 | (x5 >> 32),
    ensures
        x6 < 0xffff_ffff_ffff_ffff,
        v <= x6 + 1,
        x6 + 1 < 2 * v,
        spec_is_power_of_2((x6 + 1) as u64),
{
}

/// The least power of two that is at least `v`.
///
/// The bound on `v` keeps that power representable in a `usize`.
pub fn round_up_pow_2(v: usize) -> (r: usize)
    requires
        1 <= v,
        v - 1 <= usize::MAX / 2,
    ensures
        spec_is_power_of_2(r as u64),
        v <= r,
        r < 2 * v,
        forall|p: usize| #[trigger] spec_is_power_of_2(p as u64) && p >= v ==> r <= p,
{
    let w: u64 = v as u64;
    let x0: u64 = w - 1;
    let x1: u64 = x0 | (x0 >> 1);
    let x2: u64 = x1 | (x1 >> 2);
    let x3: u64 = x2 | (x2 >> 4);
    let x4: u64 = x3 | (x3 >> 8);
    let x5: u64 = x4 | (x4 >> 16);
    let x6: u64 = x5 | (x5 >> 32);
    proof {
        lemma_bit_smear(w, x0, x1, x2, x3, x4, x5, x6);
        assert forall|p: usize| #[trigger] spec_is_power_of_2(p as u64) && p >= v implies (x6 + 1) as usize <= p by {
            if (p as u64) < x6 + 1 {
                lemma_power_of_2_spacing(p as u64, (x6 + 1) as u64);
            }
        };
    }
    (x6 + 1) as usize
}

} // verus!
