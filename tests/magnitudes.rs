use signed_num::{Decimal256, Uint256};

#[test]
fn uint256_bytes_and_text() {
    let mut b = [0u8; 32];
    b[30] = 1;
    b[31] = 2;
    assert_eq!(Uint256::new(b).to_string(), "258");
    assert_eq!(Uint256::from_u128(1234).to_string(), "1234");
    assert_eq!(Uint256::zero().to_string(), "0");
    assert!(Uint256::zero().is_zero());
    assert!(!Uint256::one().is_zero());
    assert_eq!(Uint256::from_str("+0042").unwrap().to_string(), "42");
    assert!(Uint256::from_str("4a").is_err());
}

#[test]
fn uint256_order() {
    let a = Uint256::from_u128(3);
    let b = Uint256::from_u128(300);
    assert_eq!(a.cmp(&b), std::cmp::Ordering::Less);
    assert_eq!(b.cmp(&a), std::cmp::Ordering::Greater);
    assert!(a == Uint256::from_u128(3));
    assert!(a != b);
}

#[test]
fn decimal256_units() {
    assert_eq!(Decimal256::one().atomics().to_string(), "1000000000000000000");
    assert!(Decimal256::zero().atomics().is_zero());
}
