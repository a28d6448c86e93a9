//! Evaluation of the public-input polynomial.
//!
//! The public-input polynomial interpolates the negated public-input scalars
//! over the multiplicative domain `{ omega^0, ..., omega^(n-1) }` of size `n`.
//! Its value at a point `z` is computed in barycentric form:
//!
//! `p(z) = (sum_i -pub[i] * omega^i / (z - omega^i)) * (z^n - 1) / n`
//!
//! Inverses are Fermat inverses, so the formula is total: at `z` inside the
//! domain, or over an empty public-input vector, it still returns a
//! well-defined (protocol-fixed) scalar, which is all the transcript needs.

use vstd::prelude::*;
use crate::field::{fadd, finv, fmul, fneg, fpow, fsub, Scalar};

verus! {

/// One barycentric summand: `-pub_input[i] * omega^i / (z - omega^i)`.
pub open spec fn spec_lagrange_term(pub_input: Seq<Scalar>, z: Scalar, omega: Scalar, i: int) -> Scalar {
    let w = fpow(omega, i as nat);
    fmul(fneg(pub_input[i]), fmul(w, finv(fsub(z, w))))
}

/// The barycentric sum over all public inputs.
pub open spec fn spec_lagrange_sum(pub_input: Seq<Scalar>, z: Scalar, omega: Scalar) -> Scalar
    decreases pub_input.len(),
{
    if pub_input.len() == 0 {
        Scalar { v: 0u64 }
    } else {
        fadd(
            spec_lagrange_sum(pub_input.drop_last(), z, omega),
            spec_lagrange_term(pub_input, z, omega, pub_input.len() - 1),
        )
    }
}

/// The public-input polynomial evaluated at `z` over the domain of size
/// `domain_size` generated by `omega`.
pub open spec fn spec_eval_public(
    pub_input: Seq<Scalar>,
    z: Scalar,
    domain_size: u64,
    omega: Scalar,
) -> Scalar {
    fmul(
        spec_lagrange_sum(pub_input, z, omega),
        fmul(
            fsub(fpow(z, domain_size as nat), Scalar { v: 1u64 }),
            finv(Scalar { v: (domain_size % crate::field::MODULUS) as u64 }),
        ),
    )
}

/// Evaluate the public-input polynomial at `z`.
pub fn eval_public(pub_input: &Vec<Scalar>, z: Scalar, domain_size: u64, omega: Scalar) -> (r:
    Scalar)
    requires
        forall|i: int| 0 <= i < pub_input@.len() ==> pub_input@[i].wf(),
        z.wf(),
        omega.wf(),
    ensures
        r.wf(),
        r == spec_eval_public(pub_input@, z, domain_size, omega),
{
    let mut acc = Scalar::zero();
    let mut w = Scalar::one();
    let mut i: usize = 0;
    proof {
        vstd::arithmetic::power::lemma_pow0(omega.v as int);
        vstd::arithmetic::div_mod::lemma_small_mod(1nat, crate::field::MODULUS as nat);
        assert(w == fpow(omega, 0));
    }
    while i < pub_input.len()
        invariant
            forall|k: int| 0 <= k < pub_input@.len() ==> pub_input@[k].wf(),
            z.wf(),
            omega.wf(),
            i <= pub_input@.len(),
            acc.wf(),
            w.wf(),
            w == fpow(omega, i as nat),
            acc == spec_lagrange_sum(pub_input@.take(i as int), z, omega),
        decreases pub_input@.len() - i,
    {
        let term = pub_input[i].neg().mul(w.mul(z.sub(w).inv()));
        acc = acc.add(term);
        proof {
            assert(pub_input@.take(i + 1).drop_last() =~= pub_input@.take(i as int));
            assert(pub_input@.take(i + 1).last() == pub_input@[i as int]);
            assert(term == spec_lagrange_term(pub_input@.take(i + 1), z, omega, i as int));
        }
        w = omega.mul(w);
        proof {
            lemma_fpow_unfold(omega, (i + 1) as nat);
        }
        i += 1;
    }
    proof {
        assert(pub_input@.take(pub_input@.len() as int) =~= pub_input@);
    }
    let zn = z.pow(domain_size);
    let numerator = zn.sub(Scalar::one());
    let n_inv = Scalar::from_u64(domain_size).inv();
    acc.mul(numerator.mul(n_inv))
}

/// One unfolding step of field exponentiation:
/// `omega^e == omega * omega^(e-1)` for `e > 0`.
proof fn lemma_fpow_unfold(omega: Scalar, e: nat)
    requires
        e > 0,
        omega.wf(),
    ensures
        fpow(omega, e) == fmul(omega, fpow(omega, (e - 1) as nat)),
{
    let m = crate::field::MODULUS as int;
    let a = omega.v as int;
    vstd::arithmetic::power::lemma_pow1(a);
    vstd::arithmetic::power::lemma_pow_adds(a, 1, (e - 1) as nat);
    assert(vstd::arithmetic::power::pow(a, e) == a * vstd::arithmetic::power::pow(
        a,
        (e - 1) as nat,
    ));
    vstd::arithmetic::div_mod::lemma_mul_mod_noop_right(
        a,
        vstd::arithmetic::power::pow(a, (e - 1) as nat),
        m,
    );
}

} // verus!
