use plonkish::field::{Felt, FIELD_MODULUS};
use plonkish::value::CellValue;

#[test]
fn zero_and_one() {
    let z = Felt::zero();
    let o = Felt::one();
    assert_eq!(z.v, 0);
    assert_eq!(o.v, 1);
    assert_eq!(z.add(o), o);
    assert_eq!(o.mul(o), o);
    assert_eq!(o.mul(z), z);
}

#[test]
fn from_u64_reduces() {
    assert_eq!(Felt::from_u64(5).v, 5);
    assert_eq!(Felt::from_u64(FIELD_MODULUS).v, 0);
    assert_eq!(Felt::from_u64(u64::MAX).v, u64::MAX - FIELD_MODULUS);
}

#[test]
fn addition_wraps_at_modulus() {
    let almost = Felt::from_u64(FIELD_MODULUS - 1);
    let one = Felt::one();
    assert_eq!(almost.add(one), Felt::zero());
    assert_eq!(almost.add(almost).v, FIELD_MODULUS - 2);
}

#[test]
fn subtraction_wraps_below_zero() {
    let two = Felt::from_u64(2);
    let five = Felt::from_u64(5);
    assert_eq!(five.sub(two).v, 3);
    assert_eq!(two.sub(five).v, FIELD_MODULUS - 3);
    assert_eq!(two.sub(two), Felt::zero());
}

#[test]
fn multiplication_exact_value() {
    let a = Felt::from_u64(1 << 32);
    // (2^32)^2 = 2^64 = FIELD_MODULUS + 2^32 - 1, so the product reduces
    // to 2^32 - 1
    assert_eq!(a.mul(a).v, (1u64 << 32) - 1);
    let b = Felt::from_u64(1000);
    let c = Felt::from_u64(2024);
    assert_eq!(b.mul(c).v, 2024000);
}

#[test]
fn negation() {
    assert_eq!(Felt::zero().neg(), Felt::zero());
    assert_eq!(Felt::one().neg().v, FIELD_MODULUS - 1);
    let x = Felt::from_u64(77);
    assert_eq!(x.add(x.neg()), Felt::zero());
}

#[test]
fn unassigned_values_propagate_through_arithmetic() {
    let known = CellValue::Assigned(Felt::from_u64(6));
    let other = CellValue::Assigned(Felt::from_u64(2));
    let blank = CellValue::Unassigned;
    assert_eq!(known.vadd(other), CellValue::Assigned(Felt::from_u64(8)));
    assert_eq!(known.vsub(other), CellValue::Assigned(Felt::from_u64(4)));
    assert_eq!(known.vmul(other), CellValue::Assigned(Felt::from_u64(12)));
    assert_eq!(other.vneg().vneg(), other);
    assert_eq!(known.vadd(blank), CellValue::Unassigned);
    assert_eq!(blank.vmul(known), CellValue::Unassigned);
    assert_eq!(blank.vsub(blank), CellValue::Unassigned);
    assert_eq!(blank.vneg(), CellValue::Unassigned);
}

#[test]
fn normalize_is_identity_on_canonical_values() {
    let x = Felt::from_u64(123456789);
    assert_eq!(x.normalize(), x);
    let raw = Felt { v: FIELD_MODULUS };
    assert_eq!(raw.normalize(), Felt::zero());
}
