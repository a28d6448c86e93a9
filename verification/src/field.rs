//! Scalar-field arithmetic.
//!
//! A `Scalar` is an element of the proof system's scalar field, the prime
//! field of order `MODULUS`, kept as a reduced representative. All arithmetic
//! is field arithmetic; every operation is total and returns a reduced value.

use vstd::prelude::*;
use vstd::arithmetic::div_mod::{
    lemma_mod_add_multiples_vanish, lemma_mod_equivalence, lemma_mul_mod_noop_left,
    lemma_mul_mod_noop_right, lemma_small_mod,
};
use vstd::arithmetic::mul::lemma_mul_is_associative;
use vstd::arithmetic::power::{
    lemma_pow1, lemma_pow_adds, lemma_pow_mod_noop, lemma_pow_multiplies, lemma_square_is_pow2,
    pow,
};

verus! {

/// The field's prime order: 2^64 - 2^32 + 1.
pub const MODULUS: u64 = 0xFFFF_FFFF_0000_0001;

/// An element of the scalar field.
#[derive(Clone, Copy, PartialEq, Eq, Structural, Debug)]
pub struct Scalar {
    pub v: u64,
}

// ---------------------------------------------------------------------------
// The field operations at specification level. Each executable method below
// is proved to return exactly the corresponding specification value.
// ---------------------------------------------------------------------------

/// Field addition.
pub open spec fn fadd(a: Scalar, b: Scalar) -> Scalar {
    Scalar { v: ((a.v + b.v) % (MODULUS as int)) as u64 }
}

/// Field subtraction.
pub open spec fn fsub(a: Scalar, b: Scalar) -> Scalar {
    Scalar { v: ((a.v - b.v) % (MODULUS as int)) as u64 }
}

/// Field negation.
pub open spec fn fneg(a: Scalar) -> Scalar {
    Scalar { v: ((0 - a.v) % (MODULUS as int)) as u64 }
}

/// Field multiplication.
pub open spec fn fmul(a: Scalar, b: Scalar) -> Scalar {
    Scalar { v: ((a.v * b.v) % (MODULUS as int)) as u64 }
}

/// Field exponentiation.
pub open spec fn fpow(a: Scalar, e: nat) -> Scalar {
    Scalar { v: (pow(a.v as int, e) % (MODULUS as int)) as u64 }
}

/// Field inversion by Fermat exponentiation; `finv` of zero is zero.
pub open spec fn finv(a: Scalar) -> Scalar {
    fpow(a, (MODULUS - 2) as nat)
}

impl Scalar {
    /// A scalar is well formed when its representative is reduced.
    pub open spec fn wf(self) -> bool {
        self.v < MODULUS
    }

    /// The additive identity.
    pub fn zero() -> (r: Scalar)
        ensures
            r == (Scalar { v: 0u64 }),
            r.wf(),
    {
        Scalar { v: 0 }
    }

    /// The multiplicative identity.
    pub fn one() -> (r: Scalar)
        ensures
            r == (Scalar { v: 1u64 }),
            r.wf(),
    {
        Scalar { v: 1 }
    }

    /// The field element represented by an arbitrary machine word.
    pub fn from_u64(x: u64) -> (r: Scalar)
        ensures
            r.wf(),
            r.v == x % MODULUS,
    {
        Scalar { v: x % MODULUS }
    }

    /// Field addition.
    pub fn add(self, other: Scalar) -> (r: Scalar)
        requires
            self.wf(),
            other.wf(),
        ensures
            r.wf(),
            r == fadd(self, other),
    {
        let r: u64 = if self.v >= MODULUS - other.v {
            self.v - (MODULUS - other.v)
        } else {
            self.v + other.v
        };
        proof {
            let m = MODULUS as int;
            let s = self.v + other.v;
            if self.v >= MODULUS - other.v {
                lemma_mod_add_multiples_vanish(s - m, m);
                lemma_small_mod((s - m) as nat, MODULUS as nat);
            } else {
                lemma_small_mod(s as nat, MODULUS as nat);
            }
        }
        Scalar { v: r }
    }

    /// Field subtraction.
    pub fn sub(self, other: Scalar) -> (r: Scalar)
        requires
            self.wf(),
            other.wf(),
        ensures
            r.wf(),
            r == fsub(self, other),
    {
        let r: u64 = if self.v >= other.v {
            self.v - other.v
        } else {
            self.v + (MODULUS - other.v)
        };
        proof {
            let m = MODULUS as int;
            let d = self.v - other.v;
            if self.v >= other.v {
                lemma_small_mod(d as nat, MODULUS as nat);
            } else {
                lemma_mod_add_multiples_vanish(d, m);
                lemma_small_mod((d + m) as nat, MODULUS as nat);
            }
        }
        Scalar { v: r }
    }

    /// Field negation.
    pub fn neg(self) -> (r: Scalar)
        requires
            self.wf(),
        ensures
            r.wf(),
            r == fneg(self),
    {
        let r: u64 = if self.v == 0 {
            0
        } else {
            MODULUS - self.v
        };
        proof {
            let m = MODULUS as int;
            if self.v == 0 {
                lemma_small_mod(0, MODULUS as nat);
            } else {
                lemma_mod_add_multiples_vanish(0 - self.v, m);
                lemma_small_mod((m - self.v) as nat, MODULUS as nat);
            }
        }
        Scalar { v: r }
    }

    /// Field multiplication.
    pub fn mul(self, other: Scalar) -> (r: Scalar)
        requires
            self.wf(),
            other.wf(),
        ensures
            r.wf(),
            r == fmul(self, other),
    {
        proof {
            let a = self.v as int;
            let b = other.v as int;
            assert(a * b < 0x1_0000_0000_0000_0000_0000_0000_0000_0000) by (nonlinear_arith)
                requires
                    a < 0x1_0000_0000_0000_0000,
                    b < 0x1_0000_0000_0000_0000,
                    0 <= a,
                    0 <= b;
        }
        let p: u128 = (self.v as u128) * (other.v as u128);
        let r: u64 = (p % (MODULUS as u128)) as u64;
        Scalar { v: r }
    }

    /// Field exponentiation by square and multiply.
    pub fn pow(self, e: u64) -> (r: Scalar)
        requires
            self.wf(),
        ensures
            r.wf(),
            r == fpow(self, e as nat),
    {
        let ghost m = MODULUS as int;
        let mut result = Scalar { v: 1 };
        let mut acc = self;
        let mut k = e;
        while k > 0
            invariant
                result.wf(),
                acc.wf(),
                (result.v * pow(acc.v as int, k as nat)) % m == pow(self.v as int, e as nat) % m,
                m == MODULUS as int,
            decreases k,
        {
            let ghost a = acc.v as int;
            let ghost r0 = result.v as int;
            let ghost k0 = k as nat;
            if k % 2 == 1 {
                result = result.mul(acc);
            }
            acc = acc.mul(acc);
            k = k / 2;
            proof {
                let half = k as nat;
                lemma_pow_multiplies(a, 2, half);
                lemma_square_is_pow2(a);
                lemma_pow_mod_noop(a * a, half, m);
                // pow(acc.v, half) % m == pow(a, 2 * half) % m
                assert(acc.v as int == (a * a) % m);
                assert(pow(acc.v as int, half) % m == pow(a, 2 * half) % m);
                if k0 % 2 == 1 {
                    assert(k0 == 2 * half + 1);
                    lemma_pow_adds(a, 1, (2 * half) as nat);
                    lemma_pow1(a);
                    // pow(a, k0) == a * pow(a, 2 * half)
                    assert(result.v as int == (r0 * a) % m);
                    lemma_mul_mod_noop_left(r0 * a, pow(acc.v as int, half), m);
                    lemma_mul_mod_noop_right(r0 * a, pow(acc.v as int, half), m);
                    lemma_mul_mod_noop_right(r0 * a, pow(a, 2 * half), m);
                    assert((result.v * pow(acc.v as int, half)) % m == ((r0 * a) * pow(
                        a,
                        2 * half,
                    )) % m);
                    lemma_mul_is_associative(r0, a, pow(a, 2 * half));
                    assert((r0 * a) * pow(a, 2 * half) == r0 * (a * pow(a, 2 * half)));
                    assert(pow(a, k0) == pow(a, 1) * pow(a, 2 * half));
                    assert((result.v * pow(acc.v as int, half)) % m == (r0 * pow(a, k0)) % m);
                } else {
                    assert(k0 == 2 * half);
                    lemma_mul_mod_noop_right(r0, pow(acc.v as int, half), m);
                    lemma_mul_mod_noop_right(r0, pow(a, 2 * half), m);
                    assert((result.v * pow(acc.v as int, half)) % m == (r0 * pow(a, k0)) % m);
                }
            }
        }
        proof {
            assert(pow(acc.v as int, 0) == 1) by {
                vstd::arithmetic::power::lemma_pow0(acc.v as int);
            }
            lemma_small_mod(result.v as nat, MODULUS as nat);
        }
        result
    }

    /// Field inversion by Fermat exponentiation; the inverse of zero is zero.
    pub fn inv(self) -> (r: Scalar)
        requires
            self.wf(),
        ensures
            r.wf(),
            r == finv(self),
    {
        self.pow(MODULUS - 2)
    }
}

/// Addition by a common element cancels: for reduced operands,
/// `a + t == a + u` exactly when `t == u`.
pub proof fn lemma_fadd_cancel(a: Scalar, t: Scalar, u: Scalar)
    requires
        t.wf(),
        u.wf(),
    ensures
        fadd(a, t) == fadd(a, u) <==> t == u,
{
    let m = MODULUS as int;
    if fadd(a, t) == fadd(a, u) {
        assert((a.v + t.v) % m == (a.v + u.v) % m);
        lemma_mod_equivalence(a.v + t.v, a.v + u.v, m);
        assert(((a.v + t.v) - (a.v + u.v)) % m == 0);
        assert((t.v - u.v) % m == 0);
        if t.v >= u.v {
            lemma_small_mod((t.v - u.v) as nat, MODULUS as nat);
            assert(t.v == u.v);
        } else {
            lemma_mod_add_multiples_vanish(t.v - u.v, m);
            lemma_small_mod((t.v - u.v + m) as nat, MODULUS as nat);
            assert((t.v - u.v) % m == t.v - u.v + m);
            assert(false);
        }
        assert(t == u);
    }
}

} // verus!
