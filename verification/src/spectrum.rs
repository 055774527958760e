//! The discrete tags of the spectrum framework.
//!
//! The numeric spectra themselves are floating-point radiance values and
//! live outside the library; what the library keeps is the tag telling a
//! conversion how a tabulated spectrum is meant to be interpreted, and the
//! base every spectrum representation extends.

use vstd::prelude::*;

verus! {

/// How a tabulated spectrum is interpreted when converted to a working
/// color space: as a surface reflectance or as an illuminant.
#[derive(Clone, Copy, PartialEq, Eq, Structural, Debug)]
pub enum SpectrumType {
    Reflectance,
    Illuminant,
}

/// The state shared by every spectrum representation.
pub struct SpectrumBase;

} // verus!
