use crate::error::PaymentError;
use vstd::prelude::*;

verus! {

/// A fee rate of this many basis points is the whole amount.
pub const BASIS_POINTS: u64 = 10000;

/// How an amount is divided between the platform and the merchant.
#[derive(Clone, Copy, Debug, PartialEq, Eq, Structural)]
pub struct PaymentSplit {
    /// What the platform keeps.
    pub fee: u64,
    /// What the merchant receives.
    pub merchant_amount: u64,
}

/// The fee on `amount` at `fee_rate` basis points, rounded down.
pub open spec fn fee_of(amount: u64, fee_rate: u64) -> int {
    (amount * fee_rate) / (BASIS_POINTS as int)
}

/// Whether `amount` can be split at `fee_rate`: the product fits in 64 bits
/// and the fee is no more than the amount.
pub open spec fn splits(amount: u64, fee_rate: u64) -> bool {
    &&& amount * fee_rate <= u64::MAX
    &&& fee_of(amount, fee_rate) <= amount
}

/// Divides `amount` into the platform's fee and the merchant's part.
pub fn split_payment(amount: u64, fee_rate: u64) -> (r: Result<PaymentSplit, PaymentError>)
    ensures
        match r {
            Ok(split) => {
                &&& splits(amount, fee_rate)
                &&& split.fee == fee_of(amount, fee_rate)
                &&& split.merchant_amount == amount - split.fee
            },
            Err(e) => e == PaymentError::InvalidAmount && !splits(amount, fee_rate),
        },
        amount * fee_rate > u64::MAX ==> r == Err::<PaymentSplit, PaymentError>(PaymentError::InvalidAmount),
{
    let product = match amount.checked_mul(fee_rate) {
        Some(p) => p,
        None => { return Err(PaymentError::InvalidAmount); },
    };
    let fee: u64 = product / BASIS_POINTS;
    match amount.checked_sub(fee) {
        Some(merchant_amount) => Ok(PaymentSplit { fee, merchant_amount }),
        None => Err(PaymentError::InvalidAmount),
    }
}

/// A split neither creates nor destroys value, and its fee is the rate's
/// share of the amount, rounded down.
pub proof fn lemma_split_conserves(amount: u64, fee_rate: u64)
    requires
        splits(amount, fee_rate),
    ensures
        0 <= fee_of(amount, fee_rate) <= amount,
        fee_of(amount, fee_rate) + (amount - fee_of(amount, fee_rate)) == amount,
        10000 * fee_of(amount, fee_rate) <= amount * fee_rate < 10000 * (fee_of(amount, fee_rate) + 1),
{
    let p: int = amount * fee_rate;
    assert(0 <= p) by (nonlinear_arith)
        requires p == amount * fee_rate, 0 <= amount, 0 <= fee_rate;
    assert(10000 * (p / 10000) <= p < 10000 * (p / 10000 + 1) && 0 <= p / 10000) by (nonlinear_arith)
        requires 0 <= p;
}

/// A rate of at most the whole amount can be split wherever the product fits.
pub proof fn lemma_rate_within_whole_splits(amount: u64, fee_rate: u64)
    requires
        fee_rate <= 10000,
        amount * fee_rate <= u64::MAX,
    ensures
        splits(amount, fee_rate),
{
    let p: int = amount * fee_rate;
    assert(p / 10000 <= amount) by (nonlinear_arith)
        requires p == amount * fee_rate, 0 <= amount, 0 <= fee_rate <= 10000;
}

} // verus!
