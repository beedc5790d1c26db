use crate::address::Address;
use vstd::prelude::*;

verus! {

/// One use of the host's transfer capability: `amount` moves from `from` to
/// `to`, and `authority` is the signer who allows it.
#[derive(Clone, Copy, Debug, PartialEq, Eq)]
pub struct Transfer {
    pub from: Address,
    pub to: Address,
    pub authority: Address,
    pub amount: u64,
}

/// What the host reports of the transfers that a payment asked for.
#[derive(Clone, Copy, Debug, PartialEq, Eq, Structural)]
pub enum TransferOutcome {
    /// Every transfer was made.
    Completed,
    /// A transfer found the payer's balance too small; none is in effect.
    InsufficientFunds,
}

} // verus!
