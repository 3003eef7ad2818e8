use memory_solver::field::{MODULUS_HIGH, MODULUS_LOW};
use memory_solver::FieldValue;

fn minus_one() -> FieldValue {
    FieldValue::new(MODULUS_HIGH, MODULUS_LOW - 1).unwrap()
}

#[test]
fn the_halves_of_a_field_value() {
    let value = FieldValue::new(3, 4).unwrap();
    assert_eq!(value.high(), 3);
    assert_eq!(value.low(), 4);
    assert_eq!(FieldValue::from_u128(u128::MAX).high(), 0);
    assert_eq!(FieldValue::from_u128(u128::MAX).low(), u128::MAX);
    assert_eq!(FieldValue::from_u128(9), FieldValue::new(0, 9).unwrap());
}

#[test]
fn only_integers_below_the_modulus_are_field_values() {
    assert!(FieldValue::new(MODULUS_HIGH, MODULUS_LOW - 1).is_some());
    assert!(FieldValue::new(MODULUS_HIGH - 1, u128::MAX).is_some());
    assert_eq!(FieldValue::new(MODULUS_HIGH, MODULUS_LOW), None);
    assert_eq!(FieldValue::new(MODULUS_HIGH, MODULUS_LOW + 1), None);
    assert_eq!(FieldValue::new(MODULUS_HIGH + 1, 0), None);
    assert_eq!(FieldValue::new(u128::MAX, u128::MAX), None);
}

#[test]
fn zero_and_one() {
    assert_eq!(FieldValue::zero(), FieldValue::from_u128(0));
    assert_eq!(FieldValue::one(), FieldValue::from_u128(1));
    assert!(FieldValue::zero().is_zero());
    assert!(!FieldValue::zero().is_one());
    assert!(FieldValue::one().is_one());
    assert!(!FieldValue::one().is_zero());
    assert!(!FieldValue::new(1, 0).unwrap().is_zero());
    assert!(!FieldValue::new(1, 1).unwrap().is_one());
}

#[test]
fn the_number_of_bits() {
    assert_eq!(FieldValue::zero().num_bits(), 0);
    assert_eq!(FieldValue::one().num_bits(), 1);
    assert_eq!(FieldValue::from_u128(2).num_bits(), 2);
    assert_eq!(FieldValue::from_u128(255).num_bits(), 8);
    assert_eq!(FieldValue::from_u128(256).num_bits(), 9);
    assert_eq!(FieldValue::from_u128(4294967295).num_bits(), 32);
    assert_eq!(FieldValue::from_u128(4294967296).num_bits(), 33);
    assert_eq!(FieldValue::from_u128(u128::MAX).num_bits(), 128);
    assert_eq!(FieldValue::new(1, 0).unwrap().num_bits(), 129);
    assert_eq!(minus_one().num_bits(), 254);
}

#[test]
fn the_value_as_a_u64() {
    assert_eq!(FieldValue::zero().try_to_u64(), Some(0));
    assert_eq!(FieldValue::from_u128(123456789012).try_to_u64(), Some(123456789012));
    assert_eq!(FieldValue::from_u128(18446744073709551615).try_to_u64(), Some(u64::MAX));
    assert_eq!(FieldValue::from_u128(18446744073709551616).try_to_u64(), None);
    assert_eq!(FieldValue::new(1, 5).unwrap().try_to_u64(), None);
}

#[test]
fn sums_wrap_at_the_modulus() {
    assert_eq!(FieldValue::from_u128(2).plus(FieldValue::from_u128(3)), FieldValue::from_u128(5));
    assert_eq!(FieldValue::from_u128(7).plus(FieldValue::zero()), FieldValue::from_u128(7));
    assert_eq!(
        FieldValue::from_u128(u128::MAX).plus(FieldValue::one()),
        FieldValue::new(1, 0).unwrap()
    );
    assert_eq!(minus_one().plus(FieldValue::one()), FieldValue::zero());
    assert_eq!(minus_one().plus(FieldValue::from_u128(3)), FieldValue::from_u128(2));
    assert_eq!(minus_one().plus(minus_one()), FieldValue::new(MODULUS_HIGH, MODULUS_LOW - 2).unwrap());
}

#[test]
fn products_wrap_at_the_modulus() {
    assert_eq!(FieldValue::from_u128(6).times(FieldValue::from_u128(7)), FieldValue::from_u128(42));
    assert_eq!(FieldValue::from_u128(6).times(FieldValue::zero()), FieldValue::zero());
    assert_eq!(FieldValue::from_u128(6).times(FieldValue::one()), FieldValue::from_u128(6));
    assert_eq!(
        FieldValue::from_u128(1 << 64).times(FieldValue::from_u128(1 << 64)),
        FieldValue::new(1, 0).unwrap()
    );
    assert_eq!(minus_one().times(minus_one()), FieldValue::one());
    assert_eq!(
        minus_one().times(FieldValue::from_u128(2)),
        FieldValue::new(MODULUS_HIGH, MODULUS_LOW - 2).unwrap()
    );
}
