//! The resolution shared by every film implementation.
//!
//! Sample accumulation and image output work on floating-point spectra and
//! belong to the unverified shell; the library carries only the pixel grid
//! dimensions they all share.

use vstd::prelude::*;

verus! {

/// The pixel grid a film resolves the image onto.
pub struct FilmBase {
    pub x_resolution: usize,
    pub y_resolution: usize,
}

impl FilmBase {
    /// A film covering `x_resolution` by `y_resolution` pixels.
    pub fn new(x_resolution: usize, y_resolution: usize) -> (r: FilmBase)
        ensures
            r.x_resolution == x_resolution,
            r.y_resolution == y_resolution,
    {
        FilmBase { x_resolution, y_resolution }
    }
}

} // verus!
