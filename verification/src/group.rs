//! The commitment group.
//!
//! The derivation only ever consumes the proving curve through "a commutative
//! group of points with a scalar action": points are added, scaled by field
//! scalars, and absorbed coordinate-wise into the transcript. A point is
//! modelled as a pair of scalar coordinates under componentwise field
//! addition, with the scalar action acting on both coordinates.
//!
//! A polynomial commitment is a small ordered sequence of points (several
//! chunks for a degree-split polynomial) together with an optional shifted
//! point for degree bounds.

use vstd::prelude::*;
use crate::field::{fadd, fmul, Scalar};

verus! {

/// A point of the commitment group.
#[derive(Clone, Copy, PartialEq, Eq, Structural, Debug)]
pub struct GroupElement {
    pub x: Scalar,
    pub y: Scalar,
}

/// The group's neutral element.
pub open spec fn spec_identity() -> GroupElement {
    GroupElement { x: Scalar { v: 0u64 }, y: Scalar { v: 0u64 } }
}

/// Group addition, componentwise in the field.
pub open spec fn spec_g_add(a: GroupElement, b: GroupElement) -> GroupElement {
    GroupElement { x: fadd(a.x, b.x), y: fadd(a.y, b.y) }
}

/// The scalar action on a point.
pub open spec fn spec_scale(s: Scalar, g: GroupElement) -> GroupElement {
    GroupElement { x: fmul(s, g.x), y: fmul(s, g.y) }
}

impl GroupElement {
    /// A point is well formed when both coordinates are reduced.
    pub open spec fn wf(self) -> bool {
        self.x.wf() && self.y.wf()
    }

    /// The group's neutral element.
    pub fn identity() -> (r: GroupElement)
        ensures
            r == spec_identity(),
            r.wf(),
    {
        GroupElement { x: Scalar::zero(), y: Scalar::zero() }
    }

    /// Group addition.
    pub fn g_add(self, other: GroupElement) -> (r: GroupElement)
        requires
            self.wf(),
            other.wf(),
        ensures
            r.wf(),
            r == spec_g_add(self, other),
    {
        GroupElement { x: self.x.add(other.x), y: self.y.add(other.y) }
    }

    /// The scalar action on this point.
    pub fn scale(self, s: Scalar) -> (r: GroupElement)
        requires
            self.wf(),
            s.wf(),
        ensures
            r.wf(),
            r == spec_scale(s, self),
    {
        GroupElement { x: s.mul(self.x), y: s.mul(self.y) }
    }
}

/// A polynomial commitment: the ordered chunk points and an optional shifted
/// point for a degree bound.
#[derive(Clone, PartialEq, Eq, Debug)]
pub struct PolyComm {
    pub unshifted: Vec<GroupElement>,
    pub shifted: Option<GroupElement>,
}

/// The mathematical value of a `PolyComm`.
pub ghost struct PolyCommV {
    pub unshifted: Seq<GroupElement>,
    pub shifted: Option<GroupElement>,
}

impl PolyCommV {
    /// All points of the commitment are well formed.
    pub open spec fn wf(self) -> bool {
        &&& forall|i: int| 0 <= i < self.unshifted.len() ==> self.unshifted[i].wf()
        &&& match self.shifted {
            Some(s) => s.wf(),
            None => true,
        }
    }
}

impl View for PolyComm {
    type V = PolyCommV;

    open spec fn view(&self) -> PolyCommV {
        PolyCommV { unshifted: self.unshifted@, shifted: self.shifted }
    }
}

/// The views of a sequence of commitments.
pub open spec fn comm_views(cs: Seq<PolyComm>) -> Seq<PolyCommV> {
    cs.map_values(|c: PolyComm| c@)
}

} // verus!
