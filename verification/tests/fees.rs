use payment_gateway::{split_payment, PaymentError, PaymentSplit};

#[test]
fn split_of_two_and_a_half_percent() {
    assert_eq!(split_payment(10_000, 250), Ok(PaymentSplit { fee: 250, merchant_amount: 9_750 }));
}

#[test]
fn split_rounds_the_fee_down() {
    assert_eq!(split_payment(1, 1), Ok(PaymentSplit { fee: 0, merchant_amount: 1 }));
    assert_eq!(split_payment(9_999, 1), Ok(PaymentSplit { fee: 0, merchant_amount: 9_999 }));
    assert_eq!(split_payment(10_000, 1), Ok(PaymentSplit { fee: 1, merchant_amount: 9_999 }));
    assert_eq!(split_payment(19_999, 1), Ok(PaymentSplit { fee: 1, merchant_amount: 19_998 }));
    assert_eq!(split_payment(12_345, 333), Ok(PaymentSplit { fee: 411, merchant_amount: 11_934 }));
}

#[test]
fn split_at_the_ends_of_the_rate() {
    assert_eq!(split_payment(777, 0), Ok(PaymentSplit { fee: 0, merchant_amount: 777 }));
    assert_eq!(split_payment(777, 10_000), Ok(PaymentSplit { fee: 777, merchant_amount: 0 }));
    assert_eq!(split_payment(0, 10_000), Ok(PaymentSplit { fee: 0, merchant_amount: 0 }));
    assert_eq!(split_payment(0, u64::MAX), Ok(PaymentSplit { fee: 0, merchant_amount: 0 }));
}

#[test]
fn split_conserves_the_amount() {
    for amount in [0u64, 1, 2, 99, 10_000, 123_456_789, 1_844_674_407_370_955] {
        for rate in [0u64, 1, 30, 250, 9_999, 10_000] {
            let split = split_payment(amount, rate).unwrap();
            assert_eq!(split.fee + split.merchant_amount, amount);
            assert_eq!(split.fee as u128, amount as u128 * rate as u128 / 10_000);
        }
    }
}

#[test]
fn split_refuses_a_product_beyond_64_bits() {
    assert_eq!(split_payment(u64::MAX, 2), Err(PaymentError::InvalidAmount));
    assert_eq!(split_payment(u64::MAX / 250 + 1, 250), Err(PaymentError::InvalidAmount));
    assert_eq!(split_payment(1 << 32, 1 << 32), Err(PaymentError::InvalidAmount));
    assert_eq!(
        split_payment(u64::MAX / 250, 250),
        Ok(PaymentSplit { fee: 1_844_674_407_370_955, merchant_amount: u64::MAX / 250 - 1_844_674_407_370_955 })
    );
}

#[test]
fn split_refuses_a_fee_above_the_amount() {
    assert_eq!(split_payment(10_000, 10_001), Err(PaymentError::InvalidAmount));
    assert_eq!(split_payment(1, 20_000), Err(PaymentError::InvalidAmount));
    // Rounding down keeps a rate just above the whole within a small amount.
    assert_eq!(split_payment(1, 19_999), Ok(PaymentSplit { fee: 1, merchant_amount: 0 }));
}
