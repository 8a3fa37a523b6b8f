use mx_interact::biguint::BigUint;

#[test]
fn zero_has_no_bytes() {
    assert!(BigUint::zero().is_zero());
    assert_eq!(BigUint::zero().to_bytes_be(), Vec::<u8>::new());
    assert_eq!(BigUint::from_u64(0).to_bytes_be(), Vec::<u8>::new());
    assert!(BigUint::from_u64(0).is_zero());
}

#[test]
fn from_u64_small_values() {
    assert_eq!(BigUint::from_u64(1).to_bytes_be(), vec![1u8]);
    assert_eq!(BigUint::from_u64(255).to_bytes_be(), vec![255u8]);
    assert_eq!(BigUint::from_u64(256).to_bytes_be(), vec![1u8, 0]);
    assert_eq!(BigUint::from_u64(0x0102_0304).to_bytes_be(), vec![1u8, 2, 3, 4]);
    assert!(!BigUint::from_u64(1).is_zero());
}

#[test]
fn from_u64_issue_cost() {
    // 50000000000000000 = 0x00B1A2BC2EC50000
    assert_eq!(
        BigUint::from_u64(50000000000000000).to_bytes_be(),
        vec![0xb1u8, 0xa2, 0xbc, 0x2e, 0xc5, 0x00, 0x00]
    );
}

#[test]
fn from_u64_largest_value() {
    assert_eq!(BigUint::from_u64(u64::MAX).to_bytes_be(), vec![255u8; 8]);
}

#[test]
fn leading_zero_bytes_do_not_count() {
    let number = BigUint::from_bytes_be(vec![0, 0, 5, 0]);
    assert_eq!(number.to_bytes_be(), vec![5u8, 0]);
    assert!(!number.is_zero());
}

#[test]
fn zero_bytes_alone_are_zero() {
    let number = BigUint::from_bytes_be(vec![0, 0, 0]);
    assert!(number.is_zero());
    assert_eq!(number.to_bytes_be(), Vec::<u8>::new());
}

#[test]
fn numbers_beyond_a_machine_word_are_kept() {
    let bytes = vec![1u8, 0, 0, 0, 0, 0, 0, 0, 0, 0, 0, 0, 0, 0, 0, 0, 7];
    let number = BigUint::from_bytes_be(bytes.clone());
    assert!(!number.is_zero());
    assert_eq!(number.to_bytes_be(), bytes);
}
