//! Verified core of a Whitted-style ray tracer.
//!
//! The floating-point shading arithmetic lives outside this library; what is
//! verified here is the discrete machinery the renderer is built on: power-of-two
//! and clamping utilities, spherical-harmonics indexing, the scattering-type flag
//! algebra and component selection of the BSDF aggregate, parameter-set lookup,
//! progress accounting, texture-coordinate wrapping, octree child addressing and
//! the recursion-depth policy of the surface integrator.

pub mod film;
pub mod geometry;
pub mod light;
pub mod mipmap;
pub mod montecarlo;
pub mod octree;
pub mod paramset;
pub mod progress;
pub mod reflection;
pub mod sampler;
pub mod spectrum;
pub mod spherical;
pub mod transform;
pub mod whitted;
