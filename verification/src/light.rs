//! Bookkeeping for light sampling.
//!
//! A light draws its stochastic values from fixed positions inside a sample
//! vector; the offsets recorded here say where.  Radiance evaluation and the
//! visibility rays themselves are floating-point work done outside the
//! library.

use vstd::prelude::*;

verus! {

/// Where a light sample draws its random values inside a sample vector.
pub struct LightSampleOffsets {
    pub num_samples: usize,
    pub component_offset: usize,
    pub position_offset: usize,
}

} // verus!
