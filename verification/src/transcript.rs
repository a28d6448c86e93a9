//! The transcript: the sponge that turns everything absorbed so far into the
//! protocol's random challenges.
//!
//! The sponge keeps one field element of state. Absorbing a scalar adds it
//! into the state and applies the permutation; squeezing applies the
//! permutation and reads the state out. The permutation is the power map
//! `s -> s^7 + ROUND_CONSTANT` (7 is coprime to `MODULUS - 1`, so the power
//! map permutes the field). Points are absorbed coordinate by coordinate;
//! commitments chunk by chunk, shifted point last.
//!
//! Every operation is deterministic and exactly specified, so a transcript's
//! state — and with it every squeezed challenge — is a pure function of the
//! absorption history.

use vstd::prelude::*;
use crate::field::{fadd, fmul, Scalar};
use crate::group::{GroupElement, PolyComm, PolyCommV};

verus! {

/// The sponge's initial state.
pub const SPONGE_IV: u64 = 0x706c_6f6e_6b5f_6673;

/// The round constant of the permutation.
pub const ROUND_CONSTANT: u64 = 0x9e37_79b9_7f4a_7c15;

/// The tag added to the state before a digest is read out.
pub const DIGEST_TAG: u64 = 0x6469_6765_7374_3031;

/// The sponge permutation: `s -> s^7 + ROUND_CONSTANT`.
pub open spec fn spec_permute(s: Scalar) -> Scalar {
    let s2 = fmul(s, s);
    let s4 = fmul(s2, s2);
    let s6 = fmul(s4, s2);
    let s7 = fmul(s6, s);
    fadd(s7, Scalar { v: ROUND_CONSTANT })
}

/// The state after absorbing one scalar.
pub open spec fn spec_absorb(st: Scalar, x: Scalar) -> Scalar {
    spec_permute(fadd(st, x))
}

/// The state after absorbing a point, coordinate by coordinate.
pub open spec fn spec_absorb_point(st: Scalar, g: GroupElement) -> Scalar {
    spec_absorb(spec_absorb(st, g.x), g.y)
}

/// The state after absorbing a sequence of points in order.
pub open spec fn spec_absorb_points(st: Scalar, pts: Seq<GroupElement>) -> Scalar
    decreases pts.len(),
{
    if pts.len() == 0 {
        st
    } else {
        spec_absorb_point(spec_absorb_points(st, pts.drop_last()), pts.last())
    }
}

/// The state after absorbing a commitment: all chunk points in order, then
/// the shifted point if there is one.
pub open spec fn spec_absorb_comm(st: Scalar, c: PolyCommV) -> Scalar {
    match c.shifted {
        None => spec_absorb_points(st, c.unshifted),
        Some(s) => spec_absorb_point(spec_absorb_points(st, c.unshifted), s),
    }
}

/// The state after absorbing a sequence of commitments in order.
pub open spec fn spec_absorb_comms(st: Scalar, cs: Seq<PolyCommV>) -> Scalar
    decreases cs.len(),
{
    if cs.len() == 0 {
        st
    } else {
        spec_absorb_comm(spec_absorb_comms(st, cs.drop_last()), cs.last())
    }
}

/// The digest read out of a state, without disturbing it.
pub open spec fn spec_digest(st: Scalar) -> Scalar {
    spec_permute(fadd(st, Scalar { v: DIGEST_TAG }))
}

/// The stateful absorb/squeeze primitive.
#[derive(Clone, PartialEq, Eq, Structural, Debug)]
pub struct Transcript {
    pub state: Scalar,
}

impl Transcript {
    /// The transcript's state is a reduced field element.
    pub open spec fn wf(self) -> bool {
        self.state.wf()
    }

    /// A fresh transcript in the fixed initial state.
    pub fn new() -> (t: Transcript)
        ensures
            t.wf(),
            t.state == (Scalar { v: SPONGE_IV }),
    {
        Transcript { state: Scalar { v: SPONGE_IV } }
    }

    /// Apply the permutation to the state.
    fn permute(&mut self)
        requires
            old(self).wf(),
        ensures
            final(self).wf(),
            final(self).state == spec_permute(old(self).state),
    {
        let s = self.state;
        let s2 = s.mul(s);
        let s4 = s2.mul(s2);
        let s6 = s4.mul(s2);
        let s7 = s6.mul(s);
        self.state = s7.add(Scalar { v: ROUND_CONSTANT });
    }

    /// Mix one scalar into the state.
    pub fn absorb(&mut self, x: Scalar)
        requires
            old(self).wf(),
            x.wf(),
        ensures
            final(self).wf(),
            final(self).state == spec_absorb(old(self).state, x),
    {
        self.state = self.state.add(x);
        self.permute();
    }

    /// Mix a point into the state, coordinate by coordinate.
    pub fn absorb_point(&mut self, g: GroupElement)
        requires
            old(self).wf(),
            g.wf(),
        ensures
            final(self).wf(),
            final(self).state == spec_absorb_point(old(self).state, g),
    {
        self.absorb(g.x);
        self.absorb(g.y);
    }

    /// Mix a whole commitment into the state: chunk points in order, then the
    /// shifted point if there is one.
    pub fn absorb_comm(&mut self, c: &PolyComm)
        requires
            old(self).wf(),
            c@.wf(),
        ensures
            final(self).wf(),
            final(self).state == spec_absorb_comm(old(self).state, c@),
    {
        let ghost st0 = old(self).state;
        let mut i: usize = 0;
        while i < c.unshifted.len()
            invariant
                old(self).wf(),
                c@.wf(),
                i <= c.unshifted@.len(),
                self.wf(),
                self.state == spec_absorb_points(st0, c.unshifted@.take(i as int)),
                st0 == old(self).state,
            decreases c.unshifted@.len() - i,
        {
            proof {
                assert(c@.unshifted[i as int].wf());
            }
            self.absorb_point(c.unshifted[i]);
            proof {
                assert(c.unshifted@.take(i + 1).drop_last() =~= c.unshifted@.take(i as int));
                assert(c.unshifted@.take(i + 1).last() == c.unshifted@[i as int]);
            }
            i += 1;
        }
        proof {
            assert(c.unshifted@.take(c.unshifted@.len() as int) =~= c.unshifted@);
        }
        match c.shifted {
            Some(s) => self.absorb_point(s),
            None => (),
        }
    }

    /// Draw one challenge: permute, then read the state out.
    pub fn squeeze(&mut self) -> (r: Scalar)
        requires
            old(self).wf(),
        ensures
            final(self).wf(),
            final(self).state == spec_permute(old(self).state),
            r == final(self).state,
            r.wf(),
    {
        self.permute();
        self.state
    }

    /// Read a digest of the current state without disturbing it.
    pub fn digest(&self) -> (r: Scalar)
        requires
            self.wf(),
        ensures
            r == spec_digest(self.state),
            r.wf(),
    {
        let mut snapshot = Transcript { state: self.state.add(Scalar { v: DIGEST_TAG }) };
        snapshot.permute();
        snapshot.state
    }
}

} // verus!
