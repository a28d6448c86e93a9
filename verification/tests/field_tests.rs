use plonk_oracles::field::{Scalar, MODULUS};

fn s(v: u64) -> Scalar {
    Scalar { v }
}

#[test]
fn add_wraps_at_modulus() {
    assert_eq!(s(MODULUS - 1).add(s(5)).v, 4);
    assert_eq!(s(2).add(s(3)).v, 5);
}

#[test]
fn sub_wraps_below_zero() {
    assert_eq!(s(3).sub(s(5)).v, MODULUS - 2);
    assert_eq!(s(5).sub(s(3)).v, 2);
}

#[test]
fn neg_golden() {
    assert_eq!(s(5).neg().v, 18446744069414584316);
    assert_eq!(s(0).neg().v, 0);
}

#[test]
fn add_neg_is_zero() {
    let a = s(123456789);
    assert_eq!(a.add(a.neg()).v, 0);
}

#[test]
fn mul_golden() {
    let h = s(1u64 << 63);
    assert_eq!(h.mul(h).v, 18446744068340842497);
    assert_eq!(s(3).mul(s(7)).v, 21);
}

#[test]
fn pow_golden() {
    assert_eq!(s(3).pow(5).v, 243);
    assert_eq!(s(7).pow(0).v, 1);
    assert_eq!(s(0).pow(3).v, 0);
}

#[test]
fn inv_golden() {
    assert_eq!(s(7).inv().v, 2635249152773512046);
    assert_eq!(s(7).mul(s(7).inv()).v, 1);
    assert_eq!(s(1).inv().v, 1);
    assert_eq!(s(0).inv().v, 0);
}

#[test]
fn from_u64_reduces() {
    assert_eq!(Scalar::from_u64(u64::MAX).v, 0xFFFF_FFFE);
    assert_eq!(Scalar::from_u64(MODULUS).v, 0);
    assert_eq!(Scalar::from_u64(42).v, 42);
}
