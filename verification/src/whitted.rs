//! The Whitted surface integrator's configuration and recursion policy.
//!
//! The integrator follows specular reflection and transmission by recursing
//! on child rays, but only while the child's depth stays strictly below the
//! configured maximum: at the cutoff the indirect specular terms are
//! truncated by design.  The radiance arithmetic itself is floating-point
//! and lives outside the library.

use crate::paramset::ParamSet;
use crate::paramset::spec_find_one;
use vstd::prelude::*;

verus! {

/// Whether an integrator bounded by `max_depth` spawns specular child rays
/// from a hit at recursion depth `depth`.
pub open spec fn spec_spawns_specular(max_depth: int, depth: int) -> bool {
    depth + 1 < max_depth
}

/// A Whitted-style recursive surface integrator, bounded in depth.
pub struct WhittedIntegrator {
    pub max_depth: usize,
}

impl WhittedIntegrator {
    /// An integrator that stops spawning specular child rays once their
    /// depth would reach `max_depth`.
    pub fn new(max_depth: usize) -> (r: WhittedIntegrator)
        ensures
            r.max_depth == max_depth,
    {
        WhittedIntegrator { max_depth }
    }

    /// Reads the depth bound from the `maxdepth` parameter, defaulting to 5.
    pub fn from_paramset(params: &ParamSet) -> (r: WhittedIntegrator)
        ensures
            r.max_depth == spec_find_one(params.ints@, "maxdepth"@, 5i32) as usize,
    {
        let depth: i32 = params.find_one_int("maxdepth", 5);
        WhittedIntegrator::new(#[verifier::truncate] (depth as usize))
    }

    /// Whether a hit at recursion depth `depth` spawns specular reflection
    /// and transmission child rays.
    pub fn specular_recursion_allowed(&self, depth: usize) -> (r: bool)
        requires
            depth < usize::MAX,
        ensures
            r == spec_spawns_specular(self.max_depth as int, depth as int),
    {
        depth + 1 < self.max_depth
    }
}

/// The designed truncation of the estimator: at the cutoff — when a child
/// ray would reach the configured maximum depth — no specular recursion is
/// spawned, so the deeper indirect specular terms contribute nothing.
pub proof fn lemma_no_specular_recursion_at_cutoff(max_depth: int, depth: int)
    requires
        depth + 1 == max_depth,
    ensures
        !spec_spawns_specular(max_depth, depth),
{
}

} // verus!
