//! Verifier-side Fiat-Shamir challenge derivation for a PLONK-style
//! polynomial-commitment argument.
//!
//! Given the per-instance Lagrange commitments, a circuit-fixed verification
//! key and a submitted proof, the library deterministically re-derives every
//! random challenge the prover must have used, together with the auxiliary
//! prechallenge sequence consumed by the polynomial-opening (folding)
//! verifier. The derivation is a pure function of its inputs: equal inputs
//! always yield identical outputs, which is what makes the argument
//! non-interactive.
//!
//! The absorption order of the transcript is the security contract of the
//! whole pipeline and is fixed once, in `oracles::spec_oracles`.

use vstd::prelude::*;

pub mod aggregator;
pub mod field;
pub mod group;
pub mod oracles;
pub mod public_eval;
pub mod transcript;

verus! {

/// The single structural error of the derivation: caller-supplied
/// collections have inconsistent lengths (more public inputs than Lagrange
/// commitments, or an opening proof with the wrong number of rounds).
///
/// A cryptographically invalid but well-shaped proof is *not* an error at
/// this layer: it simply yields challenges under which the caller's final
/// verification equation will fail.
#[derive(Clone, Copy, PartialEq, Eq, Structural, Debug)]
pub enum OraclesError {
    ShapeMismatch,
}

} // verus!
