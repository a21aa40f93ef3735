use halo2_fib::field::FieldValue;
use halo2_fib::field::MODULUS;
use halo2_fib::recurrence::fib_calc;
use halo2_fib::sizing::calc_k;
use halo2_fib::table::Witness;

#[test]
fn test_fib_calc_func() {
    assert!(fib_calc(1) == 1);
    assert!(fib_calc(2) == 1);
    assert!(fib_calc(3) == 2);
    assert!(fib_calc(8) == 21);
    assert!(fib_calc(19) == 4181);
}

#[test]
fn test_k_calc_func() {
    assert!(calc_k(18) == 6);
}

#[test]
fn test_fib_calc_edges() {
    // with no terms asked for, the sum of the two seeds remains
    assert_eq!(fib_calc(0), 1);
    assert_eq!(fib_calc(185), 205697230343233228174223751303346572685u128);
}

#[test]
fn test_k_values_and_monotonicity() {
    assert_eq!(calc_k(0), 2); // 3 rows
    assert_eq!(calc_k(2), 3); // 7 rows
    assert_eq!(calc_k(18), 6); // 39 rows
    assert_eq!(calc_k(180), 9); // 363 rows
    let mut last = calc_k(0);
    for n in 1..400 {
        let k = calc_k(n);
        assert!(k >= last);
        // 2^k covers the required rows
        assert!(1u128 << k >= 3 + 2 * n as u128);
        last = k;
    }
}

#[test]
fn test_field_identities() {
    assert_eq!(FieldValue::zero(), FieldValue::from_u128(0));
    assert_eq!(FieldValue::one(), FieldValue::from_u128(1));
    assert_eq!(FieldValue::zero().add(FieldValue::one()), FieldValue::one());
}

#[test]
fn test_field_reduction_and_wraparound() {
    // MODULUS itself reduces to zero
    assert_eq!(FieldValue::from_u128(MODULUS), FieldValue::zero());
    assert_eq!(FieldValue::from_u128(u128::MAX), FieldValue::from_u128(158));
    // addition that crosses the modulus wraps
    let big = FieldValue::from_u128(MODULUS - 1);
    assert_eq!(big.add(FieldValue::one()), FieldValue::zero());
    assert_eq!(big.add(big), FieldValue::from_u128(MODULUS - 2));
}

#[test]
fn test_field_subtraction() {
    let three = FieldValue::from_u128(3);
    let five = FieldValue::from_u128(5);
    assert_eq!(five.sub(three), FieldValue::from_u128(2));
    assert_eq!(three.sub(five), FieldValue::from_u128(MODULUS - 2));
    assert_eq!(three.sub(three), FieldValue::zero());
}

#[test]
fn test_witness_addition() {
    let one = Witness::Known(FieldValue::one());
    let two = Witness::Known(FieldValue::from_u128(2));
    assert_eq!(one.add(one), two);
    assert_eq!(one.add(Witness::Unknown), Witness::Unknown);
    assert_eq!(Witness::Unknown.add(one), Witness::Unknown);
    assert_eq!(Witness::Unknown.add(Witness::Unknown), Witness::Unknown);
}
