//! The public-input commitment aggregator.
//!
//! The instance's public inputs are represented by one commitment: the sum of
//! the leading Lagrange commitments, each scaled by the corresponding negated
//! public-input scalar. The negation cancels the public-input contribution
//! baked into the prover's combined wire commitment. A public-input vector
//! longer than the supplied commitment table is a caller contract violation
//! and is rejected before any scalar multiplication takes place.

use vstd::prelude::*;
use crate::field::{fneg, lemma_fadd_cancel, Scalar};
use crate::group::{spec_g_add, spec_identity, spec_scale, GroupElement};
use crate::OraclesError;

verus! {

/// The aggregated public-input commitment:
/// the sum over `i` of `lgr[i]` scaled by `-pub_input[i]`.
pub open spec fn spec_aggregate(lgr: Seq<GroupElement>, pub_input: Seq<Scalar>) -> GroupElement
    recommends
        pub_input.len() <= lgr.len(),
    decreases pub_input.len(),
{
    if pub_input.len() == 0 {
        spec_identity()
    } else {
        spec_g_add(
            spec_aggregate(lgr, pub_input.drop_last()),
            spec_scale(fneg(pub_input.last()), lgr[pub_input.len() - 1]),
        )
    }
}

/// Combine the Lagrange commitments with the negated public-input scalars
/// into the single commitment representing the instance's public inputs.
/// Exactly the vectors with more public inputs than commitments are rejected;
/// extra commitments beyond the public-input length are ignored.
pub fn aggregate_public_commitment(lgr_comm: &Vec<GroupElement>, pub_input: &Vec<Scalar>) -> (r:
    Result<GroupElement, OraclesError>)
    requires
        forall|i: int| 0 <= i < lgr_comm@.len() ==> lgr_comm@[i].wf(),
        forall|i: int| 0 <= i < pub_input@.len() ==> pub_input@[i].wf(),
    ensures
        (match r {
            Ok(g) => pub_input@.len() <= lgr_comm@.len() && g == spec_aggregate(
                lgr_comm@,
                pub_input@,
            ) && g.wf(),
            Err(e) => pub_input@.len() > lgr_comm@.len() && e == OraclesError::ShapeMismatch,
        }),
{
    if pub_input.len() > lgr_comm.len() {
        return Err(OraclesError::ShapeMismatch);
    }
    let mut acc = GroupElement::identity();
    let mut i: usize = 0;
    while i < pub_input.len()
        invariant
            forall|k: int| 0 <= k < lgr_comm@.len() ==> lgr_comm@[k].wf(),
            forall|k: int| 0 <= k < pub_input@.len() ==> pub_input@[k].wf(),
            i <= pub_input@.len() <= lgr_comm@.len(),
            acc.wf(),
            acc == spec_aggregate(lgr_comm@, pub_input@.take(i as int)),
        decreases pub_input@.len() - i,
    {
        let term = lgr_comm[i].scale(pub_input[i].neg());
        acc = acc.g_add(term);
        proof {
            assert(pub_input@.take(i + 1).drop_last() =~= pub_input@.take(i as int));
            assert(pub_input@.take(i + 1).last() == pub_input@[i as int]);
        }
        i += 1;
    }
    proof {
        assert(pub_input@.take(pub_input@.len() as int) =~= pub_input@);
    }
    Ok(acc)
}

/// Every point of the aggregate is reduced.
pub proof fn lemma_aggregate_wf(lgr: Seq<GroupElement>, pub_input: Seq<Scalar>)
    ensures
        spec_aggregate(lgr, pub_input).wf(),
    decreases pub_input.len(),
{
    if pub_input.len() > 0 {
        lemma_aggregate_wf(lgr, pub_input.drop_last());
    }
}

/// Group addition by a common point cancels.
proof fn lemma_g_add_cancel(a: GroupElement, t: GroupElement, u: GroupElement)
    requires
        t.wf(),
        u.wf(),
    ensures
        spec_g_add(a, t) == spec_g_add(a, u) <==> t == u,
{
    lemma_fadd_cancel(a.x, t.x, u.x);
    lemma_fadd_cancel(a.y, t.y, u.y);
}

/// Public-input sensitivity of the aggregator: when two public-input vectors
/// differ in exactly one position, the two aggregated commitments are equal
/// exactly when the scaled Lagrange terms at that position are equal. In
/// particular, whenever the negated scalars act differently on that Lagrange
/// commitment — for a commitment with a trivial scalar action this can fail —
/// the aggregate changes.
pub proof fn lemma_public_input_sensitivity(
    lgr: Seq<GroupElement>,
    pub_a: Seq<Scalar>,
    pub_b: Seq<Scalar>,
    j: int,
)
    requires
        pub_a.len() == pub_b.len(),
        pub_a.len() <= lgr.len(),
        0 <= j < pub_a.len(),
        forall|i: int| 0 <= i < pub_a.len() ==> pub_a[i].wf(),
        forall|i: int| 0 <= i < pub_b.len() ==> pub_b[i].wf(),
        forall|i: int| 0 <= i < lgr.len() ==> lgr[i].wf(),
        forall|i: int| 0 <= i < pub_a.len() && i != j ==> pub_a[i] == pub_b[i],
    ensures
        spec_aggregate(lgr, pub_a) == spec_aggregate(lgr, pub_b) <==> spec_scale(fneg(pub_a[j]), lgr[j])
            == spec_scale(fneg(pub_b[j]), lgr[j]),
    decreases pub_a.len(),
{
    let n = pub_a.len() as int;
    let t1 = spec_scale(fneg(pub_a.last()), lgr[n - 1]);
    let t2 = spec_scale(fneg(pub_b.last()), lgr[n - 1]);
    if j == n - 1 {
        assert(pub_a.drop_last() =~= pub_b.drop_last());
        let a = spec_aggregate(lgr, pub_a.drop_last());
        lemma_g_add_cancel(a, t1, t2);
        assert(t1 == spec_scale(fneg(pub_a[j]), lgr[j]));
        assert(t2 == spec_scale(fneg(pub_b[j]), lgr[j]));
    } else {
        assert(pub_a.last() == pub_b.last());
        assert(t1 == t2);
        let a1 = spec_aggregate(lgr, pub_a.drop_last());
        let a2 = spec_aggregate(lgr, pub_b.drop_last());
        lemma_public_input_sensitivity(lgr, pub_a.drop_last(), pub_b.drop_last(), j);
        assert(pub_a.drop_last()[j] == pub_a[j]);
        assert(pub_b.drop_last()[j] == pub_b[j]);
        if a1 == a2 {
            assert(spec_g_add(a1, t1) == spec_g_add(a2, t2));
        } else {
            lemma_aggregate_wf(lgr, pub_a.drop_last());
            lemma_aggregate_wf(lgr, pub_b.drop_last());
            lemma_g_add_swap_cancel(a1, a2, t1);
        }
    }
}

/// Adding a common term to two distinct well-formed points yields distinct
/// points.
proof fn lemma_g_add_swap_cancel(a1: GroupElement, a2: GroupElement, t: GroupElement)
    requires
        a1.wf(),
        a2.wf(),
        a1 != a2,
    ensures
        spec_g_add(a1, t) != spec_g_add(a2, t),
{
    lemma_fadd_cancel(t.x, a1.x, a2.x);
    lemma_fadd_cancel(t.y, a1.y, a2.y);
    assert(spec_g_add(a1, t).x == spec_g_add(t, a1).x);
    assert(spec_g_add(a1, t).y == spec_g_add(t, a1).y);
    assert(spec_g_add(a2, t).x == spec_g_add(t, a2).x);
    assert(spec_g_add(a2, t).y == spec_g_add(t, a2).y);
}

} // verus!
