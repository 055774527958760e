//! The node shape and child addressing of the octree used for volume lookups.
//!
//! A node holds up to eight children, one per octant, and the items stored at
//! the node itself.  An octant is addressed by whether the query point lies
//! above the midpoint on each axis; the bounding geometry that computes those
//! comparisons is floating-point and lives outside the library.

use vstd::prelude::*;

verus! {

/// One octree node: eight optional children and the items kept at this node.
pub struct OctNode<T> {
    pub children: Vec<Option<OctNode<T>>>,
    pub data: Vec<T>,
}

impl<T> OctNode<T> {
    /// A leaf node: eight empty child slots and no items.
    pub fn new() -> (r: OctNode<T>)
        ensures
            r.children@.len() == 8,
            forall|i: int| 0 <= i < 8 ==> (#[trigger] r.children@[i]) is None,
            r.data@.len() == 0,
    {
        let mut children: Vec<Option<OctNode<T>>> = Vec::new();
        let mut i: usize = 0;
        while i < 8
            invariant
                0 <= i <= 8,
                children@.len() == i,
                forall|j: int| 0 <= j < i ==> (#[trigger] children@[j]) is None,
            decreases 8 - i,
        {
            children.push(None);
            i = i + 1;
        }
        OctNode { children, data: Vec::new() }
    }
}

/// Index of the octant selected by being above (`true`) or below the
/// midpoint on each axis: four for x, two for y, one for z.
pub fn octree_child_index(x_high: bool, y_high: bool, z_high: bool) -> (r: usize)
    ensures
        r == (if x_high {
            4int
        } else {
            0int
        }) + (if y_high {
            2int
        } else {
            0int
        }) + (if z_high {
            1int
        } else {
            0int
        }),
        r < 8,
{
    (if x_high {
        4
    } else {
        0
    }) + (if y_high {
        2
    } else {
        0
    }) + (if z_high {
        1
    } else {
        0
    })
}

} // verus!
