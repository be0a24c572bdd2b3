use restaking_mechanism::amount::Amount;

#[test]
fn conversions_round_trip() {
    assert_eq!(Amount::zero().to_u128(), Some(0));
    assert_eq!(Amount::from_u64(u64::MAX).to_u128(), Some(u64::MAX as u128));
    assert_eq!(Amount::from_u128(u128::MAX).to_u128(), Some(u128::MAX));
    assert_eq!(Amount::from_u128(1 << 64), Amount::from_words(0, 1, 0, 0));
    assert_eq!(Amount::from_words(0, 0, 1, 0).to_u128(), None);
    assert_eq!(Amount::from_words(0, 0, 0, 1).to_u128(), None);
    assert!(Amount::zero().is_zero());
    assert!(!Amount::from_words(0, 0, 0, 1).is_zero());
}

#[test]
fn addition_carries_and_detects_overflow() {
    let max = Amount::from_words(u64::MAX, u64::MAX, u64::MAX, u64::MAX);
    assert_eq!(Amount::from_u64(u64::MAX).checked_add(Amount::from_u64(1)), Some(Amount::from_words(0, 1, 0, 0)));
    assert_eq!(max.checked_add(Amount::from_u64(1)), None);
    assert_eq!(max.checked_add(Amount::zero()), Some(max));
    assert_eq!(Amount::from_u64(2).checked_add(Amount::from_u64(3)), Some(Amount::from_u64(5)));
}

#[test]
fn subtraction_borrows_and_detects_underflow() {
    assert_eq!(Amount::from_words(0, 1, 0, 0).checked_sub(Amount::from_u64(1)), Some(Amount::from_u64(u64::MAX)));
    assert_eq!(Amount::from_u64(1).checked_sub(Amount::from_u64(2)), None);
    assert_eq!(Amount::from_u64(7).checked_sub(Amount::from_u64(7)), Some(Amount::zero()));
}

#[test]
fn multiplication_detects_overflow() {
    let big = Amount::from_words(0, 0, 1, 0);
    assert_eq!(big.checked_mul(big), None);
    assert_eq!(Amount::from_words(0, 1, 0, 0).checked_mul(Amount::from_words(0, 1, 0, 0)), Some(big));
    assert_eq!(Amount::from_u64(6).checked_mul(Amount::from_u64(7)), Some(Amount::from_u64(42)));
    assert_eq!(big.checked_mul(Amount::zero()), Some(Amount::zero()));
}

#[test]
fn division_gives_quotient_and_remainder() {
    assert_eq!(Amount::from_u64(17).div_rem(Amount::from_u64(5)), Some((Amount::from_u64(3), Amount::from_u64(2))));
    assert_eq!(Amount::from_u64(17).div_rem(Amount::zero()), None);
    assert_eq!(
        Amount::from_words(1, 0, 0, 1).div_rem(Amount::from_words(0, 1, 0, 0)),
        Some((Amount::from_words(0, 0, 1, 0), Amount::from_u64(1)))
    );
    assert_eq!(Amount::from_u64(3).div_rem(Amount::from_u64(5)), Some((Amount::zero(), Amount::from_u64(3))));
}
