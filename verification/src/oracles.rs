//! The challenge-derivation pipeline and the prechallenge extractor.
//!
//! `spec_oracles` states, once and in full, the protocol-fixed order in which
//! commitments and evaluations are absorbed and challenges squeezed. That
//! order is the security contract of the Fiat-Shamir transform: the
//! transcript commits to everything absorbed so far, so any reordering would
//! let a prover choose commitments after seeing challenges. `oracles_create`
//! is proved to return exactly the values of `spec_oracles`.

use vstd::prelude::*;
use vstd::arithmetic::power2::pow2;
use crate::aggregator::{aggregate_public_commitment, spec_aggregate};
use crate::field::{fmul, fadd, Scalar};
use crate::group::{comm_views, GroupElement, PolyComm, PolyCommV};
use crate::public_eval::{eval_public, spec_eval_public};
use crate::transcript::{
    spec_absorb, spec_absorb_comm, spec_absorb_comms, spec_absorb_point, spec_digest,
    spec_permute, Transcript, SPONGE_IV,
};
use crate::OraclesError;

verus! {

// ---------------------------------------------------------------------------
// Data types
// ---------------------------------------------------------------------------

/// The prover-claimed evaluations of the proof polynomials at one evaluation
/// point, in the protocol's fixed field order: the three wire polynomials,
/// the permutation polynomial, the quotient, the linearization, and the two
/// permutation selectors.
#[derive(Clone, Copy, PartialEq, Eq, Structural, Debug)]
pub struct ProofEvaluations {
    pub l: Scalar,
    pub r: Scalar,
    pub o: Scalar,
    pub z: Scalar,
    pub t: Scalar,
    pub f: Scalar,
    pub sigma1: Scalar,
    pub sigma2: Scalar,
}

impl ProofEvaluations {
    /// All claimed evaluations are reduced scalars.
    pub open spec fn wf(self) -> bool {
        self.l.wf() && self.r.wf() && self.o.wf() && self.z.wf() && self.t.wf() && self.f.wf()
            && self.sigma1.wf() && self.sigma2.wf()
    }
}

/// The opening (folding) proof, as far as challenge derivation reads it: one
/// pair of points per folding round, in round order.
#[derive(Clone, PartialEq, Eq, Debug)]
pub struct OpeningProof {
    pub lr: Vec<(GroupElement, GroupElement)>,
}

/// A submitted proof: the prover's commitments, the claimed evaluations at
/// the two evaluation points, the public-input vector, and the opening proof.
#[derive(Clone, PartialEq, Eq, Debug)]
pub struct ProverProof {
    pub l_comm: PolyComm,
    pub r_comm: PolyComm,
    pub o_comm: PolyComm,
    pub z_comm: PolyComm,
    pub t_comm: PolyComm,
    pub evals_zeta: ProofEvaluations,
    pub evals_zeta_omega: ProofEvaluations,
    pub public: Vec<Scalar>,
    pub opening: OpeningProof,
}

/// The mathematical value of a `ProverProof`.
pub ghost struct ProverProofV {
    pub l_comm: PolyCommV,
    pub r_comm: PolyCommV,
    pub o_comm: PolyCommV,
    pub z_comm: PolyCommV,
    pub t_comm: PolyCommV,
    pub evals_zeta: ProofEvaluations,
    pub evals_zeta_omega: ProofEvaluations,
    pub public: Seq<Scalar>,
    pub lr: Seq<(GroupElement, GroupElement)>,
}

impl ProverProofV {
    /// Every scalar and point of the proof is well formed.
    pub open spec fn wf(self) -> bool {
        &&& self.l_comm.wf()
        &&& self.r_comm.wf()
        &&& self.o_comm.wf()
        &&& self.z_comm.wf()
        &&& self.t_comm.wf()
        &&& self.evals_zeta.wf()
        &&& self.evals_zeta_omega.wf()
        &&& forall|i: int| 0 <= i < self.public.len() ==> self.public[i].wf()
        &&& forall|i: int| 0 <= i < self.lr.len() ==> self.lr[i].0.wf() && self.lr[i].1.wf()
    }
}

impl View for ProverProof {
    type V = ProverProofV;

    open spec fn view(&self) -> ProverProofV {
        ProverProofV {
            l_comm: self.l_comm@,
            r_comm: self.r_comm@,
            o_comm: self.o_comm@,
            z_comm: self.z_comm@,
            t_comm: self.t_comm@,
            evals_zeta: self.evals_zeta,
            evals_zeta_omega: self.evals_zeta_omega,
            public: self.public@,
            lr: self.opening.lr@,
        }
    }
}

/// The circuit-fixed verification key, as far as challenge derivation reads
/// it: the evaluation domain (a power of two with its generator), the
/// endomorphism coefficient of the challenge mapping, and the circuit's fixed
/// commitments, which open the transcript.
#[derive(Clone, PartialEq, Eq, Debug)]
pub struct VerifierIndex {
    pub domain_size: u64,
    pub log_domain_size: u64,
    pub omega: Scalar,
    pub endo: Scalar,
    pub circuit_comm: Vec<PolyComm>,
}

/// The mathematical value of a `VerifierIndex`.
pub ghost struct VerifierIndexV {
    pub domain_size: u64,
    pub log_domain_size: u64,
    pub omega: Scalar,
    pub endo: Scalar,
    pub circuit_comm: Seq<PolyCommV>,
}

impl VerifierIndexV {
    /// The domain size is the power of two named by `log_domain_size`, and
    /// every scalar and point of the key is well formed.
    pub open spec fn wf(self) -> bool {
        &&& self.omega.wf()
        &&& self.endo.wf()
        &&& self.log_domain_size <= 63
        &&& self.domain_size as nat == pow2(self.log_domain_size as nat)
        &&& forall|i: int| 0 <= i < self.circuit_comm.len() ==> self.circuit_comm[i].wf()
    }
}

impl View for VerifierIndex {
    type V = VerifierIndexV;

    open spec fn view(&self) -> VerifierIndexV {
        VerifierIndexV {
            domain_size: self.domain_size,
            log_domain_size: self.log_domain_size,
            omega: self.omega,
            endo: self.endo,
            circuit_comm: comm_views(self.circuit_comm@),
        }
    }
}

/// The named random oracles: each challenge actually used by the protocol,
/// paired with its raw squeezed pre-image where the endomorphism mapping is
/// applied.
#[derive(Clone, Copy, PartialEq, Eq, Structural, Debug)]
pub struct CamlTweedleFqPlonkRandomOracles {
    pub beta: Scalar,
    pub gamma: Scalar,
    pub alpha_chal: Scalar,
    pub alpha: Scalar,
    pub zeta: Scalar,
    pub v: Scalar,
    pub u: Scalar,
    pub zeta_chal: Scalar,
    pub v_chal: Scalar,
    pub u_chal: Scalar,
}

/// The public-input polynomial's value at the two evaluation points.
#[derive(Clone, Copy, PartialEq, Eq, Structural, Debug)]
pub struct PublicEvaluations {
    pub zeta: Scalar,
    pub zeta_omega: Scalar,
}

/// Everything the derivation returns: the named oracles, the two public
/// evaluations, the opening-proof prechallenge sequence, and the transcript
/// digest taken immediately before evaluation data is absorbed.
#[derive(Clone, PartialEq, Eq, Debug)]
pub struct CamlTweedleFqPlonkOracles {
    pub o: CamlTweedleFqPlonkRandomOracles,
    pub p_eval: PublicEvaluations,
    pub opening_prechallenges: Vec<Scalar>,
    pub digest_before_evaluations: Scalar,
}

// ---------------------------------------------------------------------------
// The protocol order, at specification level
// ---------------------------------------------------------------------------

/// The endomorphism mapping from a raw squeezed challenge to the scalar the
/// protocol uses: `chal^2 * endo + chal`.
pub open spec fn spec_endo_map(endo: Scalar, chal: Scalar) -> Scalar {
    fadd(fmul(fmul(chal, chal), endo), chal)
}

/// The state after absorbing one evaluation point's data: the public
/// evaluation, then the claimed evaluations in their fixed field order.
pub open spec fn spec_absorb_evals(st: Scalar, pe: Scalar, e: ProofEvaluations) -> Scalar {
    let s1 = spec_absorb(st, pe);
    let s2 = spec_absorb(s1, e.l);
    let s3 = spec_absorb(s2, e.r);
    let s4 = spec_absorb(s3, e.o);
    let s5 = spec_absorb(s4, e.z);
    let s6 = spec_absorb(s5, e.t);
    let s7 = spec_absorb(s6, e.f);
    let s8 = spec_absorb(s7, e.sigma1);
    spec_absorb(s8, e.sigma2)
}

/// One folding round: absorb the round's pair of points, then squeeze the
/// round's prechallenge, which is also the new transcript state.
pub open spec fn spec_round(st: Scalar, pair: (GroupElement, GroupElement)) -> Scalar {
    spec_permute(spec_absorb_point(spec_absorb_point(st, pair.0), pair.1))
}

/// The transcript state after all folding rounds.
pub open spec fn spec_prechallenge_state(
    st: Scalar,
    lr: Seq<(GroupElement, GroupElement)>,
) -> Scalar
    decreases lr.len(),
{
    if lr.len() == 0 {
        st
    } else {
        spec_round(spec_prechallenge_state(st, lr.drop_last()), lr.last())
    }
}

/// The prechallenge sequence, one scalar per folding round, in round order.
pub open spec fn spec_prechallenges(st: Scalar, lr: Seq<(GroupElement, GroupElement)>) -> Seq<
    Scalar,
>
    decreases lr.len(),
{
    if lr.len() == 0 {
        Seq::empty()
    } else {
        spec_prechallenges(st, lr.drop_last()).push(
            spec_round(spec_prechallenge_state(st, lr.drop_last()), lr.last()),
        )
    }
}

/// There is exactly one prechallenge per folding round.
pub proof fn lemma_prechallenges_len(st: Scalar, lr: Seq<(GroupElement, GroupElement)>)
    ensures
        spec_prechallenges(st, lr).len() == lr.len(),
    decreases lr.len(),
{
    if lr.len() > 0 {
        lemma_prechallenges_len(st, lr.drop_last());
    }
}

/// The complete output of the derivation, at specification level.
pub ghost struct SpecOracles {
    pub beta: Scalar,
    pub gamma: Scalar,
    pub alpha_chal: Scalar,
    pub alpha: Scalar,
    pub zeta: Scalar,
    pub v: Scalar,
    pub u: Scalar,
    pub zeta_chal: Scalar,
    pub v_chal: Scalar,
    pub u_chal: Scalar,
    pub p_eval_zeta: Scalar,
    pub p_eval_zeta_omega: Scalar,
    pub digest: Scalar,
    pub prechallenges: Seq<Scalar>,
}

/// Both structural conditions the inputs must meet: no more public inputs
/// than Lagrange commitments, and exactly the opening-proof round count fixed
/// by the verification key's domain size (its base-two logarithm).
pub open spec fn spec_shape_ok(
    lgr: Seq<GroupElement>,
    index: VerifierIndexV,
    pf: ProverProofV,
) -> bool {
    pf.public.len() <= lgr.len() && pf.lr.len() == index.log_domain_size
}

/// The protocol's entire absorb/squeeze schedule, fixed here once:
///
/// 1. the verification key's circuit commitments;
/// 2. the aggregated public-input commitment;
/// 3. the wire commitments; squeeze `beta`, `gamma`;
/// 4. the permutation commitment; squeeze `alpha_chal`, map to `alpha`;
/// 5. the quotient commitment; squeeze `zeta_chal`, map to `zeta`;
/// 6. snapshot the digest, absorb it, then absorb the public evaluation and
///    claimed evaluations at `zeta`, then at `zeta * omega`;
/// 7. squeeze `v_chal`, `u_chal`, map to `v`, `u`;
/// 8. one absorb/squeeze round per opening-proof pair for the
///    prechallenges, continuing the same transcript.
pub open spec fn spec_oracles(
    lgr: Seq<GroupElement>,
    index: VerifierIndexV,
    pf: ProverProofV,
) -> SpecOracles {
    let st_circuit = spec_absorb_comms(Scalar { v: SPONGE_IV }, index.circuit_comm);
    let p_comm = spec_aggregate(lgr, pf.public);
    let st_p = spec_absorb_point(st_circuit, p_comm);
    let st_wires = spec_absorb_comm(
        spec_absorb_comm(spec_absorb_comm(st_p, pf.l_comm), pf.r_comm),
        pf.o_comm,
    );
    let beta = spec_permute(st_wires);
    let gamma = spec_permute(beta);
    let st_z = spec_absorb_comm(gamma, pf.z_comm);
    let alpha_chal = spec_permute(st_z);
    let st_t = spec_absorb_comm(alpha_chal, pf.t_comm);
    let zeta_chal = spec_permute(st_t);
    let zeta = spec_endo_map(index.endo, zeta_chal);
    let digest = spec_digest(zeta_chal);
    let pe_zeta = spec_eval_public(pf.public, zeta, index.domain_size, index.omega);
    let zeta_omega = fmul(zeta, index.omega);
    let pe_zeta_omega = spec_eval_public(pf.public, zeta_omega, index.domain_size, index.omega);
    let st_digest = spec_absorb(zeta_chal, digest);
    let st_evals = spec_absorb_evals(
        spec_absorb_evals(st_digest, pe_zeta, pf.evals_zeta),
        pe_zeta_omega,
        pf.evals_zeta_omega,
    );
    let v_chal = spec_permute(st_evals);
    let u_chal = spec_permute(v_chal);
    SpecOracles {
        beta,
        gamma,
        alpha_chal,
        alpha: spec_endo_map(index.endo, alpha_chal),
        zeta,
        v: spec_endo_map(index.endo, v_chal),
        u: spec_endo_map(index.endo, u_chal),
        zeta_chal,
        v_chal,
        u_chal,
        p_eval_zeta: pe_zeta,
        p_eval_zeta_omega: pe_zeta_omega,
        digest,
        prechallenges: spec_prechallenges(u_chal, pf.lr),
    }
}

/// The returned bundle carries exactly the specification's values.
pub open spec fn oracles_match(b: CamlTweedleFqPlonkOracles, s: SpecOracles) -> bool {
    &&& b.o.beta == s.beta
    &&& b.o.gamma == s.gamma
    &&& b.o.alpha_chal == s.alpha_chal
    &&& b.o.alpha == s.alpha
    &&& b.o.zeta == s.zeta
    &&& b.o.v == s.v
    &&& b.o.u == s.u
    &&& b.o.zeta_chal == s.zeta_chal
    &&& b.o.v_chal == s.v_chal
    &&& b.o.u_chal == s.u_chal
    &&& b.p_eval.zeta == s.p_eval_zeta
    &&& b.p_eval.zeta_omega == s.p_eval_zeta_omega
    &&& b.opening_prechallenges@ == s.prechallenges
    &&& b.digest_before_evaluations == s.digest
}

// ---------------------------------------------------------------------------
// Executable pipeline
// ---------------------------------------------------------------------------

/// The endomorphism mapping from a raw squeezed challenge to the scalar the
/// protocol uses.
pub fn endo_map(endo: Scalar, chal: Scalar) -> (r: Scalar)
    requires
        endo.wf(),
        chal.wf(),
    ensures
        r.wf(),
        r == spec_endo_map(endo, chal),
{
    chal.mul(chal).mul(endo).add(chal)
}

/// Absorb the verification key's circuit commitments in order.
fn absorb_comm_list(t: &mut Transcript, cs: &Vec<PolyComm>)
    requires
        old(t).wf(),
        forall|i: int| 0 <= i < cs@.len() ==> (#[trigger] cs@[i])@.wf(),
    ensures
        final(t).wf(),
        final(t).state == spec_absorb_comms(old(t).state, comm_views(cs@)),
{
    let ghost st0 = old(t).state;
    let mut i: usize = 0;
    while i < cs.len()
        invariant
            forall|k: int| 0 <= k < cs@.len() ==> (#[trigger] cs@[k])@.wf(),
            i <= cs@.len(),
            t.wf(),
            t.state == spec_absorb_comms(st0, comm_views(cs@).take(i as int)),
        decreases cs@.len() - i,
    {
        t.absorb_comm(&cs[i]);
        proof {
            assert(comm_views(cs@).take(i + 1).drop_last() =~= comm_views(cs@).take(i as int));
            assert(comm_views(cs@).take(i + 1).last() == cs@[i as int]@);
        }
        i += 1;
    }
    proof {
        assert(comm_views(cs@).take(comm_views(cs@).len() as int) =~= comm_views(cs@));
    }
}

/// Absorb one evaluation point's data: the public evaluation, then the
/// claimed evaluations in their fixed field order.
fn absorb_evaluations(t: &mut Transcript, pe: Scalar, e: &ProofEvaluations)
    requires
        old(t).wf(),
        pe.wf(),
        e.wf(),
    ensures
        final(t).wf(),
        final(t).state == spec_absorb_evals(old(t).state, pe, *e),
{
    t.absorb(pe);
    t.absorb(e.l);
    t.absorb(e.r);
    t.absorb(e.o);
    t.absorb(e.z);
    t.absorb(e.t);
    t.absorb(e.f);
    t.absorb(e.sigma1);
    t.absorb(e.sigma2);
}

/// Continue squeezing the same transcript to derive one prechallenge per
/// opening-proof folding round, in round order.
pub fn opening_prechallenges(t: &mut Transcript, lr: &Vec<(GroupElement, GroupElement)>) -> (r:
    Vec<Scalar>)
    requires
        old(t).wf(),
        forall|i: int| 0 <= i < lr@.len() ==> (#[trigger] lr@[i]).0.wf() && lr@[i].1.wf(),
    ensures
        final(t).wf(),
        final(t).state == spec_prechallenge_state(old(t).state, lr@),
        r@ == spec_prechallenges(old(t).state, lr@),
        r@.len() == lr@.len(),
{
    let ghost st0 = old(t).state;
    let mut out: Vec<Scalar> = Vec::new();
    let mut i: usize = 0;
    while i < lr.len()
        invariant
            forall|k: int| 0 <= k < lr@.len() ==> (#[trigger] lr@[k]).0.wf() && lr@[k].1.wf(),
            i <= lr@.len(),
            t.wf(),
            t.state == spec_prechallenge_state(st0, lr@.take(i as int)),
            out@ == spec_prechallenges(st0, lr@.take(i as int)),
            out@.len() == i,
        decreases lr@.len() - i,
    {
        let (l, r) = lr[i];
        t.absorb_point(l);
        t.absorb_point(r);
        let c = t.squeeze();
        out.push(c);
        proof {
            assert(lr@.take(i + 1).drop_last() =~= lr@.take(i as int));
            assert(lr@.take(i + 1).last() == lr@[i as int]);
        }
        i += 1;
    }
    proof {
        assert(lr@.take(lr@.len() as int) =~= lr@);
    }
    out
}

/// Derive every random oracle of the protocol from the Lagrange commitments,
/// the verification key and a submitted proof.
///
/// The derivation is a pure function of its inputs. A well-shaped proof never
/// fails, however cryptographically invalid it is; exactly the inputs that
/// break `spec_shape_ok` are rejected with `ShapeMismatch`, before any
/// transcript work begins.
pub fn oracles_create(
    lgr_comm: &Vec<GroupElement>,
    index: &VerifierIndex,
    pf: &ProverProof,
) -> (r: Result<CamlTweedleFqPlonkOracles, OraclesError>)
    requires
        index@.wf(),
        pf@.wf(),
        forall|i: int| 0 <= i < lgr_comm@.len() ==> lgr_comm@[i].wf(),
    ensures
        (match r {
            Ok(b) => spec_shape_ok(lgr_comm@, index@, pf@) && oracles_match(
                b,
                spec_oracles(lgr_comm@, index@, pf@),
            ),
            Err(e) => !spec_shape_ok(lgr_comm@, index@, pf@) && e == OraclesError::ShapeMismatch,
        }),
        r is Ok ==> r->Ok_0.opening_prechallenges@.len() == index@.log_domain_size,
{
    if pf.public.len() > lgr_comm.len() {
        return Err(OraclesError::ShapeMismatch);
    }
    if pf.opening.lr.len() as u64 != index.log_domain_size {
        return Err(OraclesError::ShapeMismatch);
    }
    proof {
        assert forall|i: int| 0 <= i < pf.public@.len() implies pf.public@[i].wf() by {
            assert(pf@.public[i].wf());
        }
        assert forall|i: int|
            0 <= i < index.circuit_comm@.len() implies (#[trigger] index.circuit_comm@[i])@.wf() by {
            assert(index@.circuit_comm[i].wf());
            assert(index@.circuit_comm[i] == index.circuit_comm@[i]@);
        }
        assert forall|i: int|
            0 <= i < pf.opening.lr@.len() implies (#[trigger] pf.opening.lr@[i]).0.wf()
                && pf.opening.lr@[i].1.wf() by {
            assert(pf@.lr[i].0.wf() && pf@.lr[i].1.wf());
        }
    }
    let p_comm = match aggregate_public_commitment(lgr_comm, &pf.public) {
        Ok(g) => g,
        Err(e) => {
            return Err(e);
        },
    };
    let mut t = Transcript::new();
    absorb_comm_list(&mut t, &index.circuit_comm);
    t.absorb_point(p_comm);
    t.absorb_comm(&pf.l_comm);
    t.absorb_comm(&pf.r_comm);
    t.absorb_comm(&pf.o_comm);
    let beta = t.squeeze();
    let gamma = t.squeeze();
    t.absorb_comm(&pf.z_comm);
    let alpha_chal = t.squeeze();
    let alpha = endo_map(index.endo, alpha_chal);
    t.absorb_comm(&pf.t_comm);
    let zeta_chal = t.squeeze();
    let zeta = endo_map(index.endo, zeta_chal);
    let digest_before_evaluations = t.digest();
    t.absorb(digest_before_evaluations);
    let pe_zeta = eval_public(&pf.public, zeta, index.domain_size, index.omega);
    let zeta_omega = zeta.mul(index.omega);
    let pe_zeta_omega = eval_public(&pf.public, zeta_omega, index.domain_size, index.omega);
    absorb_evaluations(&mut t, pe_zeta, &pf.evals_zeta);
    absorb_evaluations(&mut t, pe_zeta_omega, &pf.evals_zeta_omega);
    let v_chal = t.squeeze();
    let v = endo_map(index.endo, v_chal);
    let u_chal = t.squeeze();
    let u = endo_map(index.endo, u_chal);
    let prechallenges = opening_prechallenges(&mut t, &pf.opening.lr);
    proof {
        lemma_prechallenges_len(u_chal, pf@.lr);
    }
    Ok(
        CamlTweedleFqPlonkOracles {
            o: CamlTweedleFqPlonkRandomOracles {
                beta,
                gamma,
                alpha_chal,
                alpha,
                zeta,
                v,
                u,
                zeta_chal,
                v_chal,
                u_chal,
            },
            p_eval: PublicEvaluations { zeta: pe_zeta, zeta_omega: pe_zeta_omega },
            opening_prechallenges: prechallenges,
            digest_before_evaluations,
        },
    )
}

// ---------------------------------------------------------------------------
// Laws of the derivation
// ---------------------------------------------------------------------------

/// Determinism: the derivation is a pure function of the Lagrange
/// commitments, the verification key and the proof. Two derivations over
/// equal inputs agree on every output: oracles, public evaluations, digest
/// and prechallenges.
pub proof fn lemma_deterministic(
    lgr1: Seq<GroupElement>,
    index1: VerifierIndexV,
    pf1: ProverProofV,
    lgr2: Seq<GroupElement>,
    index2: VerifierIndexV,
    pf2: ProverProofV,
)
    requires
        lgr1 == lgr2,
        index1 == index2,
        pf1 == pf2,
    ensures
        spec_oracles(lgr1, index1, pf1) == spec_oracles(lgr2, index2, pf2),
{
}

/// Challenge/pre-image consistency: each mapped challenge is the fixed
/// endomorphism mapping of its raw squeezed pre-image.
pub proof fn lemma_challenge_preimage_consistency(
    lgr: Seq<GroupElement>,
    index: VerifierIndexV,
    pf: ProverProofV,
)
    ensures
        spec_oracles(lgr, index, pf).alpha == spec_endo_map(
            index.endo,
            spec_oracles(lgr, index, pf).alpha_chal,
        ),
        spec_oracles(lgr, index, pf).zeta == spec_endo_map(
            index.endo,
            spec_oracles(lgr, index, pf).zeta_chal,
        ),
        spec_oracles(lgr, index, pf).v == spec_endo_map(
            index.endo,
            spec_oracles(lgr, index, pf).v_chal,
        ),
        spec_oracles(lgr, index, pf).u == spec_endo_map(
            index.endo,
            spec_oracles(lgr, index, pf).u_chal,
        ),
{
}

/// Prechallenge count: the derivation returns exactly one prechallenge per
/// opening-protocol round, the round count being fixed by the verification
/// key's domain size.
pub proof fn lemma_prechallenge_count(
    lgr: Seq<GroupElement>,
    index: VerifierIndexV,
    pf: ProverProofV,
)
    requires
        spec_shape_ok(lgr, index, pf),
    ensures
        spec_oracles(lgr, index, pf).prechallenges.len() == index.log_domain_size,
{
    let s = spec_oracles(lgr, index, pf);
    lemma_prechallenges_len(s.u_chal, pf.lr);
}

} // verus!
