//! The rules of a payment gateway on an account-based ledger: merchants
//! register, announce payment intents and are paid, less the platform's fee;
//! sessions are paid in one token. The host names the accounts of each
//! transaction, keeps the clock and moves the funds; the rules here decide
//! what is refused, which transfers are asked for and what the accounts hold
//! afterwards.

pub mod address;
pub mod error;
pub mod fee;
pub mod intent;
pub mod merchant;
pub mod payment;
pub mod session;
pub mod transfer;

pub use address::{program_id, Address, Signer};
pub use error::{AccountError, GatewayError, PaymentError, SessionError};
pub use fee::{split_payment, PaymentSplit};
pub use intent::{create_payment_intent, payment_intent_address, CreatePaymentIntent, PaymentIntent, PaymentStatus};
pub use merchant::{initialize_merchant, merchant_address, InitializeMerchant, Merchant};
pub use payment::{payment_transfers, process_payment, ProcessPayment};
pub use session::{
    initialize_session, pay_with_token, session_address, token_transfer, InitializeSession, PayWithToken, Session,
    TokenAccount,
};
pub use transfer::{Transfer, TransferOutcome};
