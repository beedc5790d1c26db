use crate::address::{derived_address, seed_bytes, try_find_program_address, Address, Signer};
use crate::error::{AccountError, GatewayError, PaymentError};
use crate::merchant::Merchant;
use vstd::prelude::*;
use vstd::string::*;
use vstd::utf8::encode_utf8;

verus! {

/// The most bytes that the metadata of a payment intent may have.
pub const MAX_METADATA_LEN: usize = 200;

/// How far a payment has come.
#[derive(Clone, Copy, Debug, PartialEq, Eq, Structural)]
pub enum PaymentStatus {
    /// Announced by the merchant and not yet paid.
    Created,
    /// Paid.
    Completed,
    /// No entry point leads here.
    Failed,
    /// No entry point leads here.
    Refunded,
}

/// A payment that a merchant has asked for.
#[derive(Clone, Debug, PartialEq, Eq)]
pub struct PaymentIntent {
    /// The name that the intent's address is derived from.
    pub payment_id: String,
    /// The address of the merchant's registration.
    pub merchant: Address,
    pub amount: u64,
    pub status: PaymentStatus,
    pub metadata: String,
    /// When the intent was created, in seconds of Unix time.
    pub created_at: i64,
    /// When the payment was completed.
    pub processed_at: Option<i64>,
    /// Who paid.
    pub payer: Option<Address>,
    /// The canonical bump of the intent's address.
    pub bump: u8,
}

impl PaymentIntent {
    /// The time of completion and the payer are recorded in the `Completed`
    /// state and in no other.
    pub open spec fn wf(self) -> bool {
        &&& self.processed_at is Some <==> self.status == PaymentStatus::Completed
        &&& self.payer is Some <==> self.status == PaymentStatus::Completed
    }
}

/// The accounts of a transaction that creates a payment intent.
#[derive(Clone, Debug, PartialEq, Eq)]
pub struct CreatePaymentIntent {
    /// The address of the gateway itself, under which addresses are derived.
    pub program_id: Address,
    pub authority: Signer,
    /// The address of the account that is to hold the intent.
    pub payment_intent_key: Address,
    /// What that account holds: `None` until an intent is created in it.
    pub payment_intent: Option<PaymentIntent>,
    /// The address of the merchant's registration.
    pub merchant_key: Address,
    pub merchant: Merchant,
    /// The host's clock, in seconds of Unix time.
    pub now: i64,
}

/// The bytes of the word `payment`, the first seed of an intent's address.
pub open spec fn payment_tag() -> Seq<u8> {
    seq![112u8, 97u8, 121u8, 109u8, 101u8, 110u8, 116u8]
}

/// The seeds of the address of the payment intent named `payment_id`.
pub open spec fn payment_seeds(payment_id: Seq<char>) -> Seq<Seq<u8>> {
    seq![payment_tag(), encode_utf8(payment_id)]
}

/// The seeds of a payment intent's address, for a derivation.
pub fn payment_seed_list(payment_id: &str) -> (seeds: Vec<Vec<u8>>)
    ensures
        seed_bytes(&seeds) == payment_seeds(payment_id@),
{
    let mut tag: Vec<u8> = Vec::new();
    tag.push(112u8);
    tag.push(97u8);
    tag.push(121u8);
    tag.push(109u8);
    tag.push(101u8);
    tag.push(110u8);
    tag.push(116u8);
    let mut seeds: Vec<Vec<u8>> = Vec::new();
    seeds.push(tag);
    seeds.push(payment_id.as_bytes_vec());
    proof {
        assert(tag@ =~= payment_tag());
        assert(seed_bytes(&seeds) =~= payment_seeds(payment_id@));
    }
    seeds
}

/// The address of the payment intent named `payment_id` and its canonical
/// bump. There is none where the name has more than 32 bytes.
pub fn payment_intent_address(payment_id: &str, program_id: &Address) -> (r: Option<(Address, u8)>)
    ensures
        match r {
            Some((address, bump)) => derived_address(payment_seeds(payment_id@), program_id@) == Some(
                (address@, bump),
            ),
            None => derived_address(payment_seeds(payment_id@), program_id@) is None,
        },
{
    let seeds = payment_seed_list(payment_id);
    try_find_program_address(&seeds, program_id)
}

impl CreatePaymentIntent {
    /// Why the transaction is refused, `None` where it is accepted: the
    /// authority has to sign, the account has to lie at the address derived
    /// for `payment_id` and to be empty, the signer has to be the merchant's
    /// authority, and the metadata has to fit. The first failing condition,
    /// in this order, gives the error.
    pub open spec fn refusal(self, payment_id: Seq<char>, metadata: Seq<char>) -> Option<GatewayError> {
        if !self.authority.signed {
            Some(GatewayError::Account(AccountError::MissingSignature))
        } else {
            match derived_address(payment_seeds(payment_id), self.program_id@) {
                None => Some(GatewayError::Account(AccountError::SeedsMismatch)),
                Some((address, bump)) => if address != self.payment_intent_key@ {
                    Some(GatewayError::Account(AccountError::SeedsMismatch))
                } else if self.payment_intent is Some {
                    Some(GatewayError::Account(AccountError::AccountAlreadyInitialized))
                } else if self.merchant.authority@ != self.authority.key@ {
                    Some(GatewayError::Payment(PaymentError::InvalidAuthority))
                } else if encode_utf8(metadata).len() > MAX_METADATA_LEN {
                    Some(GatewayError::Account(AccountError::FieldTooLong))
                } else {
                    None
                },
            }
        }
    }

    /// The accounts after the intent is created with `bump`.
    pub open spec fn created(self, payment_id: String, amount: u64, metadata: String, bump: u8) -> CreatePaymentIntent {
        CreatePaymentIntent {
            payment_intent: Some(
                PaymentIntent {
                    payment_id,
                    merchant: self.merchant_key,
                    amount,
                    status: PaymentStatus::Created,
                    metadata,
                    created_at: self.now,
                    processed_at: None,
                    payer: None,
                    bump,
                },
            ),
            ..self
        }
    }
}

/// Creates a payment intent under `payment_id` for the merchant among the
/// accounts: the account gets a record in the `Created` state with the
/// clock's time as its time of creation, no payer and no time of completion,
/// and the canonical bump of its address. No funds move. A refused
/// transaction leaves the accounts as they were.
pub fn create_payment_intent(
    ctx: &mut CreatePaymentIntent,
    payment_id: String,
    amount: u64,
    metadata: String,
) -> (r: Result<(), GatewayError>)
    ensures
        match r {
            Ok(()) => {
                &&& old(ctx).refusal(payment_id@, metadata@) is None
                &&& derived_address(payment_seeds(payment_id@), old(ctx).program_id@) matches Some((_, bump))
                &&& *final(ctx) == old(ctx).created(payment_id, amount, metadata, bump)
                &&& final(ctx).payment_intent->0.wf()
            },
            Err(e) => old(ctx).refusal(payment_id@, metadata@) == Some(e) && *final(ctx) == *old(ctx),
        },
{
    if !ctx.authority.signed {
        return Err(GatewayError::Account(AccountError::MissingSignature));
    }
    let bump = match payment_intent_address(payment_id.as_str(), &ctx.program_id) {
        None => { return Err(GatewayError::Account(AccountError::SeedsMismatch)); },
        Some((address, bump)) => {
            if address != ctx.payment_intent_key {
                return Err(GatewayError::Account(AccountError::SeedsMismatch));
            }
            bump
        },
    };
    if ctx.payment_intent.is_some() {
        return Err(GatewayError::Account(AccountError::AccountAlreadyInitialized));
    }
    if ctx.merchant.authority != ctx.authority.key {
        return Err(GatewayError::Payment(PaymentError::InvalidAuthority));
    }
    if metadata.as_str().as_bytes().len() > MAX_METADATA_LEN {
        return Err(GatewayError::Account(AccountError::FieldTooLong));
    }
    ctx.payment_intent = Some(
        PaymentIntent {
            payment_id,
            merchant: ctx.merchant_key,
            amount,
            status: PaymentStatus::Created,
            metadata,
            created_at: ctx.now,
            processed_at: None,
            payer: None,
            bump,
        },
    );
    Ok(())
}

/// A payment intent is created once: after a creation, every further one
/// into the same account is refused, and with `AccountAlreadyInitialized`
/// where it is signed and has the same name.
pub proof fn lemma_create_payment_intent_once(
    ctx: CreatePaymentIntent,
    payment_id: String,
    amount: u64,
    metadata: String,
    bump: u8,
    again: Signer,
    second_id: Seq<char>,
    second_metadata: Seq<char>,
)
    requires
        ctx.refusal(payment_id@, metadata@) is None,
    ensures
        ({
            let after = CreatePaymentIntent { authority: again, ..ctx.created(payment_id, amount, metadata, bump) };
            &&& after.refusal(second_id, second_metadata) is Some
            &&& again.signed && second_id == payment_id@ ==> after.refusal(second_id, second_metadata) == Some(
                GatewayError::Account(AccountError::AccountAlreadyInitialized),
            )
        }),
{
}

} // verus!
