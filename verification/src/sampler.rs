//! The part of the sampler framework every implementation shares.
//!
//! Sample vectors hold floating-point stochastic values and are produced by
//! the unverified shell; the library keeps the common base those samplers
//! extend.

use vstd::prelude::*;

verus! {

/// The state shared by every sampler implementation.
pub struct SamplerBase;

} // verus!
