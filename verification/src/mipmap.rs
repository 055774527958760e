//! Texture-coordinate wrapping for mip-map texel fetches.
//!
//! A texel address may fall outside a level's extent; the wrap mode decides
//! whether it is tiled back in, pinned to the border, or treated as black
//! (no texel at all).  The texel storage itself holds floating-point image
//! data and lives outside the library.

use vstd::prelude::*;

verus! {

/// What to do with a texel coordinate outside a level's extent.
#[derive(Clone, Copy, PartialEq, Eq, Structural, Debug)]
pub enum ImageWrap {
    Repeat,
    Black,
    Clamp,
}

/// What a mip-map level must disclose about itself: its extent in each
/// parametric direction.
pub trait MipMapType {
    fn usize(&self) -> usize;

    fn vsize(&self) -> usize;
}

/// The in-range texel address that `wrap` assigns to coordinate `v` on an
/// axis of `size` texels, or `None` when the mode maps it to black.
pub open spec fn spec_wrap_texel(wrap: ImageWrap, v: usize, size: usize) -> Option<usize> {
    match wrap {
        ImageWrap::Repeat => Some((v % size) as usize),
        ImageWrap::Clamp => Some(
            if v < size {
                v
            } else {
                (size - 1) as usize
            },
        ),
        ImageWrap::Black => if v < size {
            Some(v)
        } else {
            None
        },
    }
}

/// Wraps the texel coordinate `v` into an axis of `size` texels.
pub fn wrap_texel(wrap: ImageWrap, v: usize, size: usize) -> (r: Option<usize>)
    requires
        1 <= size,
    ensures
        r == spec_wrap_texel(wrap, v, size),
        r matches Some(t) ==> t < size,
{
    match wrap {
        ImageWrap::Repeat => Some(v % size),
        ImageWrap::Clamp => Some(
            if v < size {
                v
            } else {
                size - 1
            },
        ),
        ImageWrap::Black => {
            if v < size {
                Some(v)
            } else {
                None
            }
        },
    }
}

} // verus!
