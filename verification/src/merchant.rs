use crate::address::{derived_address, try_find_program_address, Address, Signer};
use crate::error::{AccountError, GatewayError};
use vstd::prelude::*;
use vstd::string::*;
use vstd::utf8::encode_utf8;

verus! {

/// A merchant's registration.
#[derive(Clone, Debug, PartialEq, Eq)]
pub struct Merchant {
    /// The name that the merchant's address is derived from.
    pub merchant_id: String,
    /// Who may create payment intents for the merchant.
    pub authority: Address,
    /// The platform's fee in basis points.
    pub fee_rate: u64,
    /// The sum of the amounts of all payments completed so far.
    pub total_processed: u64,
    /// The canonical bump of the merchant's address.
    pub bump: u8,
}

/// The accounts of a transaction that registers a merchant.
#[derive(Clone, Debug, PartialEq, Eq)]
pub struct InitializeMerchant {
    /// The address of the gateway itself, under which addresses are derived.
    pub program_id: Address,
    pub authority: Signer,
    /// The address of the account that is to hold the registration.
    pub merchant_key: Address,
    /// What that account holds: `None` until a merchant is registered in it.
    pub merchant: Option<Merchant>,
}

/// The bytes of the word `merchant`, the first seed of a merchant's address.
pub open spec fn merchant_tag() -> Seq<u8> {
    seq![109u8, 101u8, 114u8, 99u8, 104u8, 97u8, 110u8, 116u8]
}

/// The seeds of the address of the merchant named `merchant_id`.
pub open spec fn merchant_seeds(merchant_id: Seq<char>) -> Seq<Seq<u8>> {
    seq![merchant_tag(), encode_utf8(merchant_id)]
}

/// The seeds of a merchant's address, for a derivation.
pub fn merchant_seed_list(merchant_id: &str) -> (seeds: Vec<Vec<u8>>)
    ensures
        crate::address::seed_bytes(&seeds) == merchant_seeds(merchant_id@),
{
    let mut tag: Vec<u8> = Vec::new();
    tag.push(109u8);
    tag.push(101u8);
    tag.push(114u8);
    tag.push(99u8);
    tag.push(104u8);
    tag.push(97u8);
    tag.push(110u8);
    tag.push(116u8);
    let mut seeds: Vec<Vec<u8>> = Vec::new();
    seeds.push(tag);
    seeds.push(merchant_id.as_bytes_vec());
    proof {
        assert(tag@ =~= merchant_tag());
        assert(crate::address::seed_bytes(&seeds) =~= merchant_seeds(merchant_id@));
    }
    seeds
}

/// The address of the merchant named `merchant_id` and its canonical bump.
/// There is none where the name has more than 32 bytes.
pub fn merchant_address(merchant_id: &str, program_id: &Address) -> (r: Option<(Address, u8)>)
    ensures
        match r {
            Some((address, bump)) => derived_address(merchant_seeds(merchant_id@), program_id@) == Some(
                (address@, bump),
            ),
            None => derived_address(merchant_seeds(merchant_id@), program_id@) is None,
        },
{
    let seeds = merchant_seed_list(merchant_id);
    try_find_program_address(&seeds, program_id)
}

impl InitializeMerchant {
    /// Why the transaction is refused, `None` where it is accepted: the
    /// authority has to sign, the account has to lie at the address derived
    /// for `merchant_id`, and it has to be empty. The first failing
    /// condition, in this order, gives the error.
    pub open spec fn refusal(self, merchant_id: Seq<char>) -> Option<GatewayError> {
        if !self.authority.signed {
            Some(GatewayError::Account(AccountError::MissingSignature))
        } else {
            match derived_address(merchant_seeds(merchant_id), self.program_id@) {
                None => Some(GatewayError::Account(AccountError::SeedsMismatch)),
                Some((address, bump)) => if address != self.merchant_key@ {
                    Some(GatewayError::Account(AccountError::SeedsMismatch))
                } else if self.merchant is Some {
                    Some(GatewayError::Account(AccountError::AccountAlreadyInitialized))
                } else {
                    None
                },
            }
        }
    }

    /// The accounts after the merchant is registered with `bump`.
    pub open spec fn registered(self, merchant_id: String, fee_rate: u64, bump: u8) -> InitializeMerchant {
        InitializeMerchant {
            merchant: Some(
                Merchant {
                    merchant_id,
                    authority: self.authority.key,
                    fee_rate,
                    total_processed: 0,
                    bump,
                },
            ),
            ..self
        }
    }
}

/// Registers a merchant under `merchant_id` with the given fee rate: the
/// account gets a record with the signer as its authority, a running total
/// of zero and the canonical bump of its address. A refused transaction
/// leaves the accounts as they were.
pub fn initialize_merchant(ctx: &mut InitializeMerchant, merchant_id: String, fee_rate: u64) -> (r: Result<
    (),
    GatewayError,
>)
    ensures
        match r {
            Ok(()) => {
                &&& old(ctx).refusal(merchant_id@) is None
                &&& derived_address(merchant_seeds(merchant_id@), old(ctx).program_id@) matches Some((_, bump))
                &&& *final(ctx) == old(ctx).registered(merchant_id, fee_rate, bump)
            },
            Err(e) => old(ctx).refusal(merchant_id@) == Some(e) && *final(ctx) == *old(ctx),
        },
{
    if !ctx.authority.signed {
        return Err(GatewayError::Account(AccountError::MissingSignature));
    }
    let bump = match merchant_address(merchant_id.as_str(), &ctx.program_id) {
        None => { return Err(GatewayError::Account(AccountError::SeedsMismatch)); },
        Some((address, bump)) => {
            if address != ctx.merchant_key {
                return Err(GatewayError::Account(AccountError::SeedsMismatch));
            }
            bump
        },
    };
    if ctx.merchant.is_some() {
        return Err(GatewayError::Account(AccountError::AccountAlreadyInitialized));
    }
    ctx.merchant = Some(
        Merchant { merchant_id, authority: ctx.authority.key, fee_rate, total_processed: 0, bump },
    );
    Ok(())
}

/// A merchant is registered once: after a registration, every further one
/// into the same account is refused, whatever its name and fee rate, and
/// with `AccountAlreadyInitialized` where it passes the checks before that
/// one, as every signed transaction with the same name does.
pub proof fn lemma_initialize_merchant_once(
    ctx: InitializeMerchant,
    merchant_id: String,
    fee_rate: u64,
    bump: u8,
    again: Signer,
    second_id: Seq<char>,
)
    requires
        ctx.refusal(merchant_id@) is None,
    ensures
        ({
            let after = InitializeMerchant { authority: again, ..ctx.registered(merchant_id, fee_rate, bump) };
            &&& after.refusal(second_id) is Some
            &&& again.signed && second_id == merchant_id@ ==> after.refusal(second_id) == Some(
                GatewayError::Account(AccountError::AccountAlreadyInitialized),
            )
        }),
{
}

} // verus!
