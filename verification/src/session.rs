use crate::address::{
    address_with_bump, bumped_address, derived_address, lemma_derived_address_bumped, seed_bytes,
    try_find_program_address, Address, Signer,
};
use crate::error::{AccountError, GatewayError, SessionError};
use crate::transfer::{Transfer, TransferOutcome};
use vstd::bytes::{spec_u64_to_le_bytes, u64_to_le_bytes};
use vstd::prelude::*;

verus! {

/// A merchant's request for one payment of one amount in one token.
#[derive(Clone, Copy, Debug, PartialEq, Eq)]
pub struct Session {
    pub merchant: Address,
    /// Who paid; there is a payer once the session is paid, and not before.
    pub payer: Option<Address>,
    pub amount: u64,
    pub token_mint: Address,
    pub paid: bool,
    /// The canonical bump of the session's address.
    pub bump: u8,
}

impl Session {
    /// A payer is recorded in a paid session and in no other.
    pub open spec fn wf(self) -> bool {
        self.payer is Some <==> self.paid
    }
}

/// An account that holds tokens of one mint.
#[derive(Clone, Copy, Debug, PartialEq, Eq)]
pub struct TokenAccount {
    pub key: Address,
    pub mint: Address,
}

/// The accounts of a transaction that opens a session.
#[derive(Clone, Copy, Debug, PartialEq, Eq)]
pub struct InitializeSession {
    /// The address of the gateway itself, under which addresses are derived.
    pub program_id: Address,
    pub merchant: Signer,
    /// The address of the account that is to hold the session.
    pub session_key: Address,
    /// What that account holds: `None` until a session is opened in it.
    pub session: Option<Session>,
    pub token_mint: Address,
}

/// The accounts of a transaction that pays a session.
#[derive(Clone, Copy, Debug, PartialEq, Eq)]
pub struct PayWithToken {
    /// The address of the gateway itself, under which addresses are derived.
    pub program_id: Address,
    pub payer: Signer,
    /// The address of the account that holds the session.
    pub session_key: Address,
    pub session: Session,
    pub payer_token_account: TokenAccount,
    pub merchant_token_account: TokenAccount,
    pub token_mint: Address,
}

/// The bytes of the word `session`, the first seed of a session's address.
pub open spec fn session_tag() -> Seq<u8> {
    seq![115u8, 101u8, 115u8, 115u8, 105u8, 111u8, 110u8]
}

/// The seeds of the address of a session: the tag, the merchant, the mint,
/// and the amount as eight bytes, the lowest first.
pub open spec fn session_seeds(merchant: Seq<u8>, token_mint: Seq<u8>, amount: u64) -> Seq<Seq<u8>> {
    seq![session_tag(), merchant, token_mint, spec_u64_to_le_bytes(amount)]
}

/// The seeds of a session's address, for a derivation.
pub fn session_seed_list(merchant: &Address, token_mint: &Address, amount: u64) -> (seeds: Vec<Vec<u8>>)
    ensures
        seed_bytes(&seeds) == session_seeds(merchant@, token_mint@, amount),
{
    let mut tag: Vec<u8> = Vec::new();
    tag.push(115u8);
    tag.push(101u8);
    tag.push(115u8);
    tag.push(115u8);
    tag.push(105u8);
    tag.push(111u8);
    tag.push(110u8);
    let mut seeds: Vec<Vec<u8>> = Vec::new();
    seeds.push(tag);
    seeds.push(merchant.to_vec());
    seeds.push(token_mint.to_vec());
    seeds.push(u64_to_le_bytes(amount));
    proof {
        assert(tag@ =~= session_tag());
        assert(seed_bytes(&seeds) =~= session_seeds(merchant@, token_mint@, amount));
    }
    seeds
}

/// The address of the session of a merchant, a mint and an amount, and its
/// canonical bump.
pub fn session_address(merchant: &Address, token_mint: &Address, amount: u64, program_id: &Address) -> (r: Option<
    (Address, u8),
>)
    ensures
        match r {
            Some((address, bump)) => derived_address(session_seeds(merchant@, token_mint@, amount), program_id@)
                == Some((address@, bump)),
            None => derived_address(session_seeds(merchant@, token_mint@, amount), program_id@) is None,
        },
{
    let seeds = session_seed_list(merchant, token_mint, amount);
    try_find_program_address(&seeds, program_id)
}

impl InitializeSession {
    /// Why the transaction is refused, `None` where it is accepted: the
    /// merchant has to sign, the account has to lie at the address derived
    /// for the merchant, the mint and the amount, and it has to be empty.
    /// The first failing condition, in this order, gives the error.
    pub open spec fn refusal(self, amount: u64) -> Option<GatewayError> {
        if !self.merchant.signed {
            Some(GatewayError::Account(AccountError::MissingSignature))
        } else {
            match derived_address(session_seeds(self.merchant.key@, self.token_mint@, amount), self.program_id@) {
                None => Some(GatewayError::Account(AccountError::SeedsMismatch)),
                Some((address, bump)) => if address != self.session_key@ {
                    Some(GatewayError::Account(AccountError::SeedsMismatch))
                } else if self.session is Some {
                    Some(GatewayError::Account(AccountError::AccountAlreadyInitialized))
                } else {
                    None
                },
            }
        }
    }

    /// The accounts after the session is opened with `bump`.
    pub open spec fn opened(self, amount: u64, bump: u8) -> InitializeSession {
        InitializeSession {
            session: Some(
                Session {
                    merchant: self.merchant.key,
                    payer: None,
                    amount,
                    token_mint: self.token_mint,
                    paid: false,
                    bump,
                },
            ),
            ..self
        }
    }
}

/// Opens a session of the signing merchant for `amount` of the mint among
/// the accounts: the account gets an unpaid record without a payer, with the
/// canonical bump of its address. A refused transaction leaves the accounts
/// as they were.
pub fn initialize_session(ctx: &mut InitializeSession, amount: u64) -> (r: Result<(), GatewayError>)
    ensures
        match r {
            Ok(()) => {
                &&& old(ctx).refusal(amount) is None
                &&& derived_address(
                    session_seeds(old(ctx).merchant.key@, old(ctx).token_mint@, amount),
                    old(ctx).program_id@,
                ) matches Some((_, bump))
                &&& *final(ctx) == old(ctx).opened(amount, bump)
                &&& final(ctx).session->0.wf()
            },
            Err(e) => old(ctx).refusal(amount) == Some(e) && *final(ctx) == *old(ctx),
        },
{
    if !ctx.merchant.signed {
        return Err(GatewayError::Account(AccountError::MissingSignature));
    }
    let bump = match session_address(&ctx.merchant.key, &ctx.token_mint, amount, &ctx.program_id) {
        None => { return Err(GatewayError::Account(AccountError::SeedsMismatch)); },
        Some((address, bump)) => {
            if address != ctx.session_key {
                return Err(GatewayError::Account(AccountError::SeedsMismatch));
            }
            bump
        },
    };
    if ctx.session.is_some() {
        return Err(GatewayError::Account(AccountError::AccountAlreadyInitialized));
    }
    ctx.session = Some(
        Session {
            merchant: ctx.merchant.key,
            payer: None,
            amount,
            token_mint: ctx.token_mint,
            paid: false,
            bump,
        },
    );
    Ok(())
}

impl PayWithToken {
    /// Why the payment is refused before the transfer, `None` where it is
    /// accepted. The payer has to sign; the session's account has to lie at
    /// the address that the session's merchant, mint and amount derive with
    /// the bump it records; the session has to be unpaid; and the mint and
    /// both token accounts have to be of the session's mint. The first
    /// failing condition, in this order, gives the error.
    pub open spec fn refusal(self) -> Option<GatewayError> {
        if !self.payer.signed {
            Some(GatewayError::Account(AccountError::MissingSignature))
        } else if bumped_address(
            session_seeds(self.session.merchant@, self.session.token_mint@, self.session.amount),
            self.session.bump,
            self.program_id@,
        ) != Some(self.session_key@) {
            Some(GatewayError::Account(AccountError::SeedsMismatch))
        } else if self.session.paid {
            Some(GatewayError::Session(SessionError::AlreadyPaid))
        } else if self.token_mint@ != self.session.token_mint@ || self.payer_token_account.mint@
            != self.session.token_mint@ || self.merchant_token_account.mint@ != self.session.token_mint@ {
            Some(GatewayError::Session(SessionError::InvalidToken))
        } else {
            None
        }
    }

    /// The transfer that the payment asks of the host: the session's amount
    /// from the payer's token account to the merchant's.
    pub open spec fn transfer(self) -> Transfer {
        Transfer {
            from: self.payer_token_account.key,
            to: self.merchant_token_account.key,
            authority: self.payer.key,
            amount: self.session.amount,
        }
    }

    /// The accounts after the payment: the session is paid and records the
    /// payer. Nothing else changes.
    pub open spec fn paid(self) -> PayWithToken {
        PayWithToken { session: Session { paid: true, payer: Some(self.payer.key), ..self.session }, ..self }
    }

    /// Why the payment fails, `None` where it succeeds: a refusal before the
    /// transfer, or else the host's report that the payer's funds did not
    /// suffice.
    pub open spec fn failure(self, transfer: TransferOutcome) -> Option<GatewayError> {
        match self.refusal() {
            Some(e) => Some(e),
            None => match transfer {
                TransferOutcome::Completed => None,
                TransferOutcome::InsufficientFunds => Some(GatewayError::Session(SessionError::InsufficientFunds)),
            },
        }
    }

    /// Checks everything that can refuse the payment before the transfer.
    pub fn check(&self) -> (r: Result<(), GatewayError>)
        ensures
            match r {
                Ok(()) => self.refusal() is None,
                Err(e) => self.refusal() == Some(e),
            },
    {
        if !self.payer.signed {
            return Err(GatewayError::Account(AccountError::MissingSignature));
        }
        let seeds = session_seed_list(&self.session.merchant, &self.session.token_mint, self.session.amount);
        match address_with_bump(&seeds, self.session.bump, &self.program_id) {
            None => { return Err(GatewayError::Account(AccountError::SeedsMismatch)); },
            Some(address) => {
                if address != self.session_key {
                    return Err(GatewayError::Account(AccountError::SeedsMismatch));
                }
            },
        }
        if self.session.paid {
            return Err(GatewayError::Session(SessionError::AlreadyPaid));
        }
        if self.token_mint != self.session.token_mint || self.payer_token_account.mint != self.session.token_mint
            || self.merchant_token_account.mint != self.session.token_mint {
            return Err(GatewayError::Session(SessionError::InvalidToken));
        }
        Ok(())
    }
}

/// The transfer that the host has to make for the payment before it is
/// recorded. A payment that is refused asks for none.
pub fn token_transfer(ctx: &PayWithToken) -> (r: Result<Transfer, GatewayError>)
    ensures
        match r {
            Ok(transfer) => ctx.refusal() is None && transfer == ctx.transfer(),
            Err(e) => ctx.refusal() == Some(e),
        },
{
    ctx.check()?;
    Ok(
        Transfer {
            from: ctx.payer_token_account.key,
            to: ctx.merchant_token_account.key,
            authority: ctx.payer.key,
            amount: ctx.session.amount,
        },
    )
}

/// Pays the session, given the host's report on the transfer of
/// `token_transfer`. Where nothing refuses the payment and the transfer was
/// made, the session becomes paid and records the payer. Every failure
/// leaves the accounts as they were.
pub fn pay_with_token(ctx: &mut PayWithToken, transfer: TransferOutcome) -> (r: Result<(), GatewayError>)
    ensures
        match r {
            Ok(()) => old(ctx).failure(transfer) is None && *final(ctx) == old(ctx).paid(),
            Err(e) => old(ctx).failure(transfer) == Some(e) && *final(ctx) == *old(ctx),
        },
        old(ctx).session.wf() ==> final(ctx).session.wf(),
{
    match ctx.check() {
        Ok(()) => {},
        Err(e) => { return Err(e); },
    }
    match transfer {
        TransferOutcome::Completed => {},
        TransferOutcome::InsufficientFunds => {
            return Err(GatewayError::Session(SessionError::InsufficientFunds));
        },
    }
    ctx.session.paid = true;
    ctx.session.payer = Some(ctx.payer.key);
    Ok(())
}

/// A session is opened once: after an opening, every further one into the
/// same account is refused, and with `AccountAlreadyInitialized` where the
/// same merchant signs for the same amount.
pub proof fn lemma_initialize_session_once(
    ctx: InitializeSession,
    amount: u64,
    bump: u8,
    again: Signer,
    second_amount: u64,
)
    requires
        ctx.refusal(amount) is None,
    ensures
        ({
            let after = InitializeSession { merchant: again, ..ctx.opened(amount, bump) };
            &&& after.refusal(second_amount) is Some
            &&& again.signed && again.key == ctx.merchant.key && second_amount == amount ==> after.refusal(
                second_amount,
            ) == Some(GatewayError::Account(AccountError::AccountAlreadyInitialized))
        }),
{
}

/// A session is paid once: after a payment, the same transaction is refused
/// with `AlreadyPaid` whatever the host reports, and no other payer makes a
/// second payment of the session succeed.
pub proof fn lemma_pay_with_token_once(ctx: PayWithToken, transfer: TransferOutcome, again: Signer)
    requires
        ctx.refusal() is None,
    ensures
        ctx.paid().failure(transfer) == Some(GatewayError::Session(SessionError::AlreadyPaid)),
        (PayWithToken { payer: again, ..ctx.paid() }).failure(transfer) is Some,
{
}

/// The bump that a session records leads back to its account: a session
/// that was opened is found again when a payer signs, and with token
/// accounts of its mint the payment is accepted.
pub proof fn lemma_opened_session_is_payable(
    ctx: InitializeSession,
    amount: u64,
    bump: u8,
    payer: Address,
    payer_token_account: Address,
    merchant_token_account: Address,
)
    requires
        ctx.refusal(amount) is None,
        derived_address(session_seeds(ctx.merchant.key@, ctx.token_mint@, amount), ctx.program_id@) matches Some(
            (_, canonical),
        ) && canonical == bump,
    ensures
        (PayWithToken {
            program_id: ctx.program_id,
            payer: Signer { key: payer, signed: true },
            session_key: ctx.session_key,
            session: ctx.opened(amount, bump).session->0,
            payer_token_account: TokenAccount { key: payer_token_account, mint: ctx.token_mint },
            merchant_token_account: TokenAccount { key: merchant_token_account, mint: ctx.token_mint },
            token_mint: ctx.token_mint,
        }).refusal() is None,
{
    lemma_derived_address_bumped(session_seeds(ctx.merchant.key@, ctx.token_mint@, amount), ctx.program_id@);
}

} // verus!
