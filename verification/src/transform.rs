//! The interface shared by coordinate transforms.
//!
//! Points, vectors, normals, rays and boxes each go through a transform by
//! their own rule; the trait below is the one entry point they share.  The
//! matrices themselves are floating-point and live outside the library.

use vstd::prelude::*;

verus! {

/// Application of a transform to some geometric entity, returning a fresh
/// value or writing into an existing one.
pub trait Applicable<S, R> {
    fn apply(&self, s: S) -> R;

    fn apply_to(&self, s: S, r: &mut R);
}

} // verus!
