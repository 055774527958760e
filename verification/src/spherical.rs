//! Index arithmetic for spherical-harmonics coefficient arrays.
//!
//! Coefficients are stored in one flat array, band by band: band `l` occupies
//! the `2l + 1` slots starting at `l*l`, with order `m` (for `-l <= m <= l`)
//! at offset `l + m` inside the band.

use vstd::prelude::*;

verus! {

/// Number of coefficients carried by the bands `0 ..= lmax`.
pub open spec fn spec_sh_terms(lmax: int) -> int {
    (lmax + 1) * (lmax + 1)
}

/// Flat position of the coefficient of band `l`, order `m`.
pub open spec fn spec_sh_index(l: int, m: int) -> int {
    l * l + l + m
}

/// How many coefficients the bands up to and including `lmax` hold.
pub fn sh_terms(lmax: i32) -> (r: usize)
    requires
        0 <= lmax,
        lmax + 1 <= 46340,
    ensures
        r == spec_sh_terms(lmax as int),
{
    proof {
        assert((lmax + 1) * (lmax + 1) <= 46340 * 46340) by (nonlinear_arith)
            requires
                0 <= lmax,
                lmax + 1 <= 46340,
        ;
        assert(0 <= (lmax + 1) * (lmax + 1)) by (nonlinear_arith)
            requires
                0 <= lmax,
        ;
    }
    ((lmax + 1) * (lmax + 1)) as usize
}

/// Flat index of the coefficient of band `l`, order `m`.
pub fn sh_index(l: i32, m: i32) -> (r: usize)
    requires
        0 <= l,
        l + 1 <= 46340,
        -l <= m <= l,
    ensures
        r == spec_sh_index(l as int, m as int),
{
    proof {
        assert(0 <= l * l && l * l + l + m <= 46340 * 46340) by (nonlinear_arith)
            requires
                0 <= l,
                l + 1 <= 46340,
                -l <= m <= l,
        ;
    }
    (l * l + l + m) as usize
}

/// Every in-band coefficient index lies inside the array sized by
/// `spec_sh_terms`: for `l <= lmax` and `-l <= m <= l`,
/// `spec_sh_index(l, m) < spec_sh_terms(lmax)`, and no index is negative.
pub proof fn lemma_sh_index_in_range(l: int, m: int, lmax: int)
    by (nonlinear_arith)
    requires
        0 <= l <= lmax,
        -l <= m <= l,
    ensures
        0 <= spec_sh_index(l, m),
        spec_sh_index(l, m) < spec_sh_terms(lmax),
{
}

} // verus!
