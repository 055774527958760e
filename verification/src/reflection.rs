//! The scattering-type flag algebra of the BSDF framework, and the selection
//! of a component out of the aggregate's tag list.
//!
//! A BSDF aggregates up to eight BxDF components, each tagged with a bitmask
//! describing its capabilities (reflection/transmission crossed with
//! diffuse/glossy/specular).  Sampling picks one component among those whose
//! tag matches the requested flags; evaluation sums over the matching ones.
//! The floating-point lobes themselves live outside the library and identify
//! their components by index into the tag list.

use vstd::prelude::*;

verus! {

/// Capability bitmask of one BxDF component or of a sampling request.
pub type BxDFType = u32;

pub const NO_TYPE: BxDFType = 0x0;

pub const REFLECTION: BxDFType = 0x1;

pub const TRANSMISSION: BxDFType = 0x10;

pub const DIFFUSE: BxDFType = 0x100;

pub const GLOSSY: BxDFType = 0x1000;

pub const SPECULAR: BxDFType = 0x10000;

pub const ALL_TYPES: BxDFType = DIFFUSE | GLOSSY | SPECULAR;

pub const ALL_REFLECTION: BxDFType = REFLECTION | ALL_TYPES;

pub const ALL_TRANSMISSION: BxDFType = TRANSMISSION | ALL_TYPES;

pub const ALL: BxDFType = ALL_REFLECTION | ALL_TRANSMISSION;

/// A component matches a request when every capability bit it carries is part
/// of the request.
pub open spec fn spec_matches_flags(t: BxDFType, flags: BxDFType) -> bool {
    t & flags == t
}

/// Whether a component tag carries the specular bit.
pub open spec fn spec_is_specular(t: BxDFType) -> bool {
    t & SPECULAR != NO_TYPE
}

/// How many tags of `s` match the request `flags`.
pub open spec fn count_matching(s: Seq<BxDFType>, flags: BxDFType) -> nat
    decreases s.len(),
{
    if s.len() == 0 {
        0
    } else {
        count_matching(s.drop_last(), flags) + if spec_matches_flags(s.last(), flags) {
            1nat
        } else {
            0nat
        }
    }
}

/// A prefix never holds more matching tags than the whole sequence.
proof fn lemma_count_matching_take_le(s: Seq<BxDFType>, flags: BxDFType, i: int)
    requires
        0 <= i <= s.len(),
    ensures
        count_matching(s.take(i), flags) <= count_matching(s, flags),
    decreases s.len() - i,
{
    if i == s.len() {
        assert(s.take(i) =~= s);
    } else {
        assert(s.take(i + 1).drop_last() =~= s.take(i));
        assert(s.take(i + 1).last() == s[i]);
        lemma_count_matching_take_le(s, flags, i + 1);
    }
}

/// When the count of matching tags is zero, no tag matches at all: there is
/// no component a sampler could select.
pub proof fn lemma_no_matching_components(s: Seq<BxDFType>, flags: BxDFType)
    requires
        count_matching(s, flags) == 0,
    ensures
        forall|i: int| 0 <= i < s.len() ==> !#[trigger] spec_matches_flags(s[i], flags),
    decreases s.len(),
{
    if s.len() > 0 {
        lemma_no_matching_components(s.drop_last(), flags);
        assert forall|i: int| 0 <= i < s.len() implies !#[trigger] spec_matches_flags(s[i], flags) by {
            if i < s.len() - 1 {
                assert(s.drop_last()[i] == s[i]);
            } else {
                assert(s.last() == s[i]);
            }
        };
    }
}

/// The shared part of every BxDF component: its capability tag.
pub struct BxDFBase {
    pub bxdf_type: BxDFType,
}

impl BxDFBase {
    /// Whether this component takes part in a request for `flags`.
    pub fn matches_flags(&self, flags: BxDFType) -> (r: bool)
        ensures
            r == spec_matches_flags(self.bxdf_type, flags),
    {
        self.bxdf_type & flags == self.bxdf_type
    }
}

/// Where a BSDF sample draws its random values inside a sample vector.
pub struct BsdfSampleOffsets {
    pub num_samples: usize,
    pub component_offset: usize,
    pub dir_offset: usize,
}

/// Whether a component tag carries the specular bit.
pub fn is_specular_type(t: BxDFType) -> (r: bool)
    ensures
        r == spec_is_specular(t),
{
    t & SPECULAR != NO_TYPE
}

/// Restricts a request after a specular bounce: when the sampled direction
/// stays in the hemisphere of the outgoing one the bounce reflected, so
/// transmission is dropped; otherwise reflection is dropped.
pub fn narrow_specular_flags(flags: BxDFType, same_hemisphere: bool) -> (r: BxDFType)
    ensures
        r == if same_hemisphere {
            flags & !TRANSMISSION
        } else {
            flags & !REFLECTION
        },
{
    if same_hemisphere {
        flags & !TRANSMISSION
    } else {
        flags & !REFLECTION
    }
}

/// Counts the components of `tags` matching the request `flags`.
pub fn num_matching_components(tags: &Vec<BxDFType>, flags: BxDFType) -> (n: usize)
    ensures
        n == count_matching(tags@, flags),
{
    let mut n: usize = 0;
    let mut i: usize = 0;
    while i < tags.len()
        invariant
            0 <= i <= tags@.len(),
            n <= i,
            n == count_matching(tags@.take(i as int), flags),
        decreases tags@.len() - i,
    {
        proof {
            assert(tags@.take(i + 1).drop_last() =~= tags@.take(i as int));
            assert(tags@.take(i + 1).last() == tags@[i as int]);
        }
        if tags[i] & flags == tags[i] {
            n = n + 1;
        }
        i = i + 1;
    }
    proof {
        assert(tags@.take(tags@.len() as int) =~= tags@);
    }
    n
}

/// Finds the index of the `n`-th (zero-based) component of `tags` matching
/// `flags`, in list order; `None` exactly when fewer than `n + 1` match.
pub fn nth_matching_component(tags: &Vec<BxDFType>, flags: BxDFType, n: usize) -> (r: Option<
    usize,
>)
    ensures
        match r {
            Some(i) => i < tags@.len() && spec_matches_flags(tags@[i as int], flags)
                && count_matching(tags@.take(i as int), flags) == n,
            None => count_matching(tags@, flags) <= n,
        },
        r is Some <==> n < count_matching(tags@, flags),
{
    let mut c: usize = 0;
    let mut i: usize = 0;
    while i < tags.len()
        invariant
            0 <= i <= tags@.len(),
            c <= n,
            c == count_matching(tags@.take(i as int), flags),
        decreases tags@.len() - i,
    {
        proof {
            assert(tags@.take(i + 1).drop_last() =~= tags@.take(i as int));
            assert(tags@.take(i + 1).last() == tags@[i as int]);
        }
        if tags[i] & flags == tags[i] {
            if c == n {
                proof {
                    lemma_count_matching_take_le(tags@, flags, i + 1);
                }
                return Some(i);
            }
            c = c + 1;
        }
        i = i + 1;
    }
    proof {
        assert(tags@.take(tags@.len() as int) =~= tags@);
    }
    None
}

} // verus!
