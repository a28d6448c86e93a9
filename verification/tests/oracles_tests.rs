use plonk_oracles::aggregator::aggregate_public_commitment;
use plonk_oracles::field::Scalar;
use plonk_oracles::group::{GroupElement, PolyComm};
use plonk_oracles::oracles::{
    endo_map, opening_prechallenges, oracles_create, OpeningProof, ProofEvaluations, ProverProof,
    VerifierIndex,
};
use plonk_oracles::public_eval::eval_public;
use plonk_oracles::transcript::Transcript;
use plonk_oracles::OraclesError;

fn s(v: u64) -> Scalar {
    Scalar { v }
}

fn pt(x: u64, y: u64) -> GroupElement {
    GroupElement { x: s(x), y: s(y) }
}

fn comm(x: u64, y: u64) -> PolyComm {
    PolyComm { unshifted: vec![pt(x, y)], shifted: None }
}

fn zero_evals() -> ProofEvaluations {
    ProofEvaluations {
        l: s(0),
        r: s(0),
        o: s(0),
        z: s(0),
        t: s(0),
        f: s(0),
        sigma1: s(0),
        sigma2: s(0),
    }
}

fn evals(base: u64) -> ProofEvaluations {
    ProofEvaluations {
        l: s(base),
        r: s(base + 1),
        o: s(base + 2),
        z: s(base + 3),
        t: s(base + 4),
        f: s(base + 5),
        sigma1: s(base + 6),
        sigma2: s(base + 7),
    }
}

/// A small verification key over the domain of size 4.
fn toy_index() -> VerifierIndex {
    VerifierIndex {
        domain_size: 4,
        log_domain_size: 2,
        omega: s(281474976710656),
        endo: s(11),
        circuit_comm: vec![comm(9, 10), comm(11, 12)],
    }
}

/// A well-shaped proof for `toy_index`: two opening rounds.
fn toy_proof() -> ProverProof {
    ProverProof {
        l_comm: comm(1, 2),
        r_comm: comm(3, 4),
        o_comm: comm(5, 6),
        z_comm: comm(7, 8),
        t_comm: PolyComm { unshifted: vec![pt(13, 14), pt(15, 16)], shifted: Some(pt(17, 18)) },
        evals_zeta: evals(100),
        evals_zeta_omega: evals(200),
        public: vec![s(41), s(42)],
        opening: OpeningProof { lr: vec![(pt(21, 22), pt(23, 24)), (pt(25, 26), pt(27, 28))] },
    }
}

fn toy_lgr() -> Vec<GroupElement> {
    vec![pt(31, 32), pt(33, 34), pt(35, 36)]
}

#[test]
fn determinism_identical_outputs() {
    let b1 = oracles_create(&toy_lgr(), &toy_index(), &toy_proof()).unwrap();
    let b2 = oracles_create(&toy_lgr(), &toy_index(), &toy_proof()).unwrap();
    assert_eq!(b1, b2);
}

#[test]
fn challenge_preimage_consistency() {
    let index = toy_index();
    let b = oracles_create(&toy_lgr(), &index, &toy_proof()).unwrap();
    assert_eq!(b.o.alpha, endo_map(index.endo, b.o.alpha_chal));
    assert_eq!(b.o.zeta, endo_map(index.endo, b.o.zeta_chal));
    assert_eq!(b.o.v, endo_map(index.endo, b.o.v_chal));
    assert_eq!(b.o.u, endo_map(index.endo, b.o.u_chal));
}

#[test]
fn public_input_sensitivity() {
    let lgr = toy_lgr();
    let p1 = toy_proof();
    let mut p2 = toy_proof();
    p2.public[1] = s(43);

    let c1 = aggregate_public_commitment(&lgr, &p1.public).unwrap();
    let c2 = aggregate_public_commitment(&lgr, &p2.public).unwrap();
    assert_ne!(c1, c2);

    let b1 = oracles_create(&lgr, &toy_index(), &p1).unwrap();
    let b2 = oracles_create(&lgr, &toy_index(), &p2).unwrap();
    assert_ne!(b1.o.beta, b2.o.beta);
    assert_ne!(b1.o.gamma, b2.o.gamma);
    assert_ne!(b1.o.alpha, b2.o.alpha);
    assert_ne!(b1.o.zeta, b2.o.zeta);
    assert_ne!(b1.o.v, b2.o.v);
    assert_ne!(b1.o.u, b2.o.u);
    assert_ne!(b1.digest_before_evaluations, b2.digest_before_evaluations);
}

#[test]
fn length_mismatch_rejected() {
    let lgr = vec![pt(31, 32)];
    let mut p = toy_proof();
    p.public = vec![s(1), s(2)];
    let r = oracles_create(&lgr, &toy_index(), &p);
    assert!(matches!(r, Err(OraclesError::ShapeMismatch)));

    let a = aggregate_public_commitment(&lgr, &p.public);
    assert!(matches!(a, Err(OraclesError::ShapeMismatch)));
}

#[test]
fn round_count_mismatch_rejected() {
    let mut p = toy_proof();
    p.opening.lr.pop();
    let r = oracles_create(&toy_lgr(), &toy_index(), &p);
    assert!(matches!(r, Err(OraclesError::ShapeMismatch)));
}

#[test]
fn prechallenge_count_matches_domain() {
    let index = toy_index();
    let b = oracles_create(&toy_lgr(), &index, &toy_proof()).unwrap();
    assert_eq!(b.opening_prechallenges.len() as u64, index.log_domain_size);
    assert_eq!(b.opening_prechallenges.len(), 2);
}

#[test]
fn absorption_order_sensitivity() {
    let p1 = toy_proof();
    let mut p2 = toy_proof();
    p2.l_comm = p1.r_comm.clone();
    p2.r_comm = p1.l_comm.clone();
    let b1 = oracles_create(&toy_lgr(), &toy_index(), &p1).unwrap();
    let b2 = oracles_create(&toy_lgr(), &toy_index(), &p2).unwrap();
    assert_ne!(b1.o.beta, b2.o.beta);
    assert_ne!(b1.digest_before_evaluations, b2.digest_before_evaluations);
}

#[test]
fn aggregate_ignores_extra_commitments() {
    let lgr = toy_lgr();
    let pub_input = vec![s(5)];
    let agg = aggregate_public_commitment(&lgr, &pub_input).unwrap();
    let expected = lgr[0].scale(s(5).neg());
    assert_eq!(agg, expected);

    let empty: Vec<Scalar> = Vec::new();
    let zero = aggregate_public_commitment(&lgr, &empty).unwrap();
    assert_eq!(zero, pt(0, 0));
}

/// The verification key of the all-zero scenario: domain of size one.
fn zero_index() -> VerifierIndex {
    VerifierIndex {
        domain_size: 1,
        log_domain_size: 0,
        omega: s(1),
        endo: s(1),
        circuit_comm: vec![comm(0, 0)],
    }
}

/// The all-zero proof: identity commitments, zero evaluations, empty public
/// input, no opening rounds.
fn zero_proof() -> ProverProof {
    ProverProof {
        l_comm: comm(0, 0),
        r_comm: comm(0, 0),
        o_comm: comm(0, 0),
        z_comm: comm(0, 0),
        t_comm: comm(0, 0),
        evals_zeta: zero_evals(),
        evals_zeta_omega: zero_evals(),
        public: Vec::new(),
        opening: OpeningProof { lr: Vec::new() },
    }
}

#[test]
fn all_zero_scenario_golden() {
    let b = oracles_create(&Vec::new(), &zero_index(), &zero_proof()).unwrap();
    assert_eq!(b.o.beta.v, 0x1887ab6bbaa8544e);
    assert_eq!(b.o.gamma.v, 0xefda3fb606b128ac);
    assert_eq!(b.o.alpha_chal.v, 0x87d131bacf43f83b);
    assert_eq!(b.o.alpha.v, 0x310aa3658d80dffb);
    assert_eq!(b.o.zeta_chal.v, 0xf56a226e3f0381b8);
    assert_eq!(b.o.zeta.v, 0x434f93dba33fc6a7);
    assert_eq!(b.digest_before_evaluations.v, 0x13104aa9ff9f0331);
    assert_eq!(b.o.v_chal.v, 0xc17a0ca737913cb5);
    assert_eq!(b.o.v.v, 0xe30601ae0cfd4504);
    assert_eq!(b.o.u_chal.v, 0x9e1129abfef96c77);
    assert_eq!(b.o.u.v, 0x4c245f24107690f3);
    assert_eq!(b.p_eval.zeta.v, 0);
    assert_eq!(b.p_eval.zeta_omega.v, 0);
    assert!(b.opening_prechallenges.is_empty());
}

#[test]
fn all_zero_scenario_replays_the_sponge() {
    let b = oracles_create(&Vec::new(), &zero_index(), &zero_proof()).unwrap();

    // Replay the documented absorption schedule on a bare transcript: the
    // circuit commitment, the aggregated public-input commitment (the
    // identity, since there are no public inputs), and the three wire
    // commitments are all the identity point here.
    let mut t = Transcript::new();
    let zero = pt(0, 0);
    for _ in 0..5 {
        t.absorb_point(zero);
    }
    assert_eq!(b.o.beta, t.squeeze());
    assert_eq!(b.o.gamma, t.squeeze());
    t.absorb_point(zero);
    assert_eq!(b.o.alpha_chal, t.squeeze());
    t.absorb_point(zero);
    assert_eq!(b.o.zeta_chal, t.squeeze());
    assert_eq!(b.digest_before_evaluations, t.digest());
    t.absorb(b.digest_before_evaluations);
    for _ in 0..18 {
        t.absorb(s(0));
    }
    assert_eq!(b.o.v_chal, t.squeeze());
    assert_eq!(b.o.u_chal, t.squeeze());
}

#[test]
fn prechallenges_continue_the_transcript() {
    let mut t1 = Transcript::new();
    t1.absorb(s(77));
    let mut t2 = Transcript::new();
    t2.absorb(s(77));

    let lr = vec![(pt(1, 2), pt(3, 4)), (pt(5, 6), pt(7, 8))];
    let chals = opening_prechallenges(&mut t1, &lr);
    assert_eq!(chals.len(), 2);

    // Each round is: absorb both points, then squeeze; the challenge is the
    // squeezed value, and the next round continues from it.
    t2.absorb_point(pt(1, 2));
    t2.absorb_point(pt(3, 4));
    assert_eq!(chals[0], t2.squeeze());
    t2.absorb_point(pt(5, 6));
    t2.absorb_point(pt(7, 8));
    assert_eq!(chals[1], t2.squeeze());
    assert_eq!(t1, t2);
}

#[test]
fn commitment_absorption_order() {
    let c = PolyComm { unshifted: vec![pt(1, 2), pt(3, 4)], shifted: Some(pt(5, 6)) };
    let mut t1 = Transcript::new();
    t1.absorb_comm(&c);
    let mut t2 = Transcript::new();
    t2.absorb_point(pt(1, 2));
    t2.absorb_point(pt(3, 4));
    t2.absorb_point(pt(5, 6));
    assert_eq!(t1, t2);
}

#[test]
fn public_evaluation_golden() {
    let pub_input = vec![s(2), s(3)];
    let r = eval_public(&pub_input, s(7), 4, s(3));
    assert_eq!(r.v, 0xfffffffefffff9f3);

    let empty: Vec<Scalar> = Vec::new();
    assert_eq!(eval_public(&empty, s(7), 4, s(3)).v, 0);
}

#[test]
fn bundle_evaluations_match_direct_evaluation() {
    let index = toy_index();
    let pf = toy_proof();
    let b = oracles_create(&toy_lgr(), &index, &pf).unwrap();
    let at_zeta = eval_public(&pf.public, b.o.zeta, index.domain_size, index.omega);
    let zeta_omega = b.o.zeta.mul(index.omega);
    let at_zeta_omega = eval_public(&pf.public, zeta_omega, index.domain_size, index.omega);
    assert_eq!(b.p_eval.zeta, at_zeta);
    assert_eq!(b.p_eval.zeta_omega, at_zeta_omega);
}
