use vstd::prelude::*;

verus! {

/// The refusals that the gateway's own rules give.
#[derive(Clone, Copy, Debug, PartialEq, Eq, Structural)]
pub enum PaymentError {
    /// The payment intent has left the `Created` state.
    PaymentAlreadyProcessed,
    /// The fee or the merchant's running total does not fit in 64 bits, or
    /// the fee is more than the amount.
    InvalidAmount,
    /// The transfer capability reported that the payer's balance is too small.
    InsufficientFunds,
    /// The signer is not the authority that the merchant records.
    InvalidAuthority,
    /// The merchant account is not the one that the payment intent names.
    InvalidMerchant,
}

/// The refusals of the account layer, which precede the gateway's own rules.
#[derive(Clone, Copy, Debug, PartialEq, Eq, Structural)]
pub enum AccountError {
    /// An account that has to sign the transaction did not.
    MissingSignature,
    /// The account does not lie at the address that its seeds derive, or the
    /// seeds derive none.
    SeedsMismatch,
    /// The account that was to be created holds a record already.
    AccountAlreadyInitialized,
    /// A text is longer than the room its field has.
    FieldTooLong,
}

/// The refusals that the rules of payment sessions give.
#[derive(Clone, Copy, Debug, PartialEq, Eq, Structural)]
pub enum SessionError {
    /// The session is paid already.
    AlreadyPaid,
    /// The mint or a token account is not of the session's token.
    InvalidToken,
    /// The transfer capability reported that the payer's balance is too small.
    InsufficientFunds,
}

/// Why an entry point refused a transaction.
#[derive(Clone, Copy, Debug, PartialEq, Eq, Structural)]
pub enum GatewayError {
    Account(AccountError),
    Payment(PaymentError),
    Session(SessionError),
}

impl PaymentError {
    /// The text that is shown for the error.
    pub fn message(&self) -> (text: String)
        ensures
            text@ == self.message_text(),
    {
        match self {
            PaymentError::PaymentAlreadyProcessed => "Payment has already been processed.".to_owned(),
            PaymentError::InvalidAmount => "Invalid payment amount.".to_owned(),
            PaymentError::InsufficientFunds => "Insufficient funds.".to_owned(),
            PaymentError::InvalidAuthority => "Invalid authority.".to_owned(),
            PaymentError::InvalidMerchant => "Invalid merchant.".to_owned(),
        }
    }

    pub open spec fn message_text(&self) -> Seq<char> {
        match self {
            PaymentError::PaymentAlreadyProcessed => "Payment has already been processed."@,
            PaymentError::InvalidAmount => "Invalid payment amount."@,
            PaymentError::InsufficientFunds => "Insufficient funds."@,
            PaymentError::InvalidAuthority => "Invalid authority."@,
            PaymentError::InvalidMerchant => "Invalid merchant."@,
        }
    }
}

} // verus!
