use crate::address::{
    address_with_bump, bumped_address, derived_address, lemma_derived_address_bumped, Address, Signer,
};
use crate::error::{AccountError, GatewayError, PaymentError};
use crate::fee::{fee_of, split_payment, splits, PaymentSplit};
use crate::intent::{payment_seed_list, payment_seeds, CreatePaymentIntent, PaymentIntent, PaymentStatus};
use crate::merchant::Merchant;
use crate::transfer::{Transfer, TransferOutcome};
use vstd::prelude::*;
use vstd::string::*;

verus! {

/// The accounts of a transaction that pays a payment intent.
#[derive(Clone, Debug, PartialEq, Eq)]
pub struct ProcessPayment {
    /// The address of the gateway itself, under which addresses are derived.
    pub program_id: Address,
    pub payer: Signer,
    /// The address of the account that holds the intent.
    pub payment_intent_key: Address,
    pub payment_intent: PaymentIntent,
    /// The address of the account that holds the merchant's registration.
    pub merchant_key: Address,
    pub merchant: Merchant,
    /// Where the merchant receives funds.
    pub merchant_account: Address,
    /// Where the platform receives its fee.
    pub platform_account: Address,
    /// The host's clock, in seconds of Unix time.
    pub now: i64,
}

impl ProcessPayment {
    /// Why the payment is refused before any transfer, `None` where it is
    /// accepted. The payer has to sign; the intent's account has to lie at
    /// the address that `payment_id` derives with the bump the intent
    /// records; the intent has to be in the `Created` state; the merchant's
    /// account has to be the one the intent names; the amount has to split
    /// at the merchant's fee rate; and the merchant's running total has to
    /// have room for the amount. The first failing condition, in this order,
    /// gives the error.
    pub open spec fn refusal(self, payment_id: Seq<char>) -> Option<GatewayError> {
        if !self.payer.signed {
            Some(GatewayError::Account(AccountError::MissingSignature))
        } else if bumped_address(payment_seeds(payment_id), self.payment_intent.bump, self.program_id@) != Some(
            self.payment_intent_key@,
        ) {
            Some(GatewayError::Account(AccountError::SeedsMismatch))
        } else if self.payment_intent.status != PaymentStatus::Created {
            Some(GatewayError::Payment(PaymentError::PaymentAlreadyProcessed))
        } else if self.merchant_key@ != self.payment_intent.merchant@ {
            Some(GatewayError::Payment(PaymentError::InvalidMerchant))
        } else if !splits(self.payment_intent.amount, self.merchant.fee_rate) {
            Some(GatewayError::Payment(PaymentError::InvalidAmount))
        } else if self.merchant.total_processed + self.payment_intent.amount > u64::MAX {
            Some(GatewayError::Payment(PaymentError::InvalidAmount))
        } else {
            None
        }
    }

    /// How the amount of the intent is divided at the merchant's fee rate.
    pub open spec fn split(self) -> PaymentSplit {
        let fee = fee_of(self.payment_intent.amount, self.merchant.fee_rate);
        PaymentSplit { fee: fee as u64, merchant_amount: (self.payment_intent.amount - fee) as u64 }
    }

    /// The transfers that the payment asks of the host, in their order: the
    /// fee from the payer to the platform, unless it is zero, and then the
    /// rest from the payer to the merchant.
    pub open spec fn transfers(self) -> Seq<Transfer> {
        let fee = Transfer {
            from: self.payer.key,
            to: self.platform_account,
            authority: self.payer.key,
            amount: self.split().fee,
        };
        let rest = Transfer {
            from: self.payer.key,
            to: self.merchant_account,
            authority: self.payer.key,
            amount: self.split().merchant_amount,
        };
        if fee.amount > 0 {
            seq![fee, rest]
        } else {
            seq![rest]
        }
    }

    /// The accounts after the payment: the intent is `Completed` and records
    /// the payer and the clock's time, and the merchant's running total has
    /// grown by the whole amount. Nothing else changes.
    pub open spec fn completed(self) -> ProcessPayment {
        ProcessPayment {
            payment_intent: PaymentIntent {
                status: PaymentStatus::Completed,
                processed_at: Some(self.now),
                payer: Some(self.payer.key),
                ..self.payment_intent
            },
            merchant: Merchant {
                total_processed: (self.merchant.total_processed + self.payment_intent.amount) as u64,
                ..self.merchant
            },
            ..self
        }
    }

    /// Why the payment fails, `None` where it succeeds: a refusal before the
    /// transfers, or else the host's report that the payer's funds did not
    /// suffice.
    pub open spec fn failure(self, payment_id: Seq<char>, transfers: TransferOutcome) -> Option<GatewayError> {
        match self.refusal(payment_id) {
            Some(e) => Some(e),
            None => match transfers {
                TransferOutcome::Completed => None,
                TransferOutcome::InsufficientFunds => Some(GatewayError::Payment(PaymentError::InsufficientFunds)),
            },
        }
    }

    /// Checks everything that can refuse the payment before a transfer is
    /// made, and gives the split of the amount.
    pub fn check(&self, payment_id: &str) -> (r: Result<PaymentSplit, GatewayError>)
        ensures
            match r {
                Ok(split) => self.refusal(payment_id@) is None && split == self.split(),
                Err(e) => self.refusal(payment_id@) == Some(e),
            },
    {
        if !self.payer.signed {
            return Err(GatewayError::Account(AccountError::MissingSignature));
        }
        let seeds = payment_seed_list(payment_id);
        match address_with_bump(&seeds, self.payment_intent.bump, &self.program_id) {
            None => { return Err(GatewayError::Account(AccountError::SeedsMismatch)); },
            Some(address) => {
                if address != self.payment_intent_key {
                    return Err(GatewayError::Account(AccountError::SeedsMismatch));
                }
            },
        }
        match self.payment_intent.status {
            PaymentStatus::Created => {},
            _ => { return Err(GatewayError::Payment(PaymentError::PaymentAlreadyProcessed)); },
        }
        if self.merchant_key != self.payment_intent.merchant {
            return Err(GatewayError::Payment(PaymentError::InvalidMerchant));
        }
        let split = match split_payment(self.payment_intent.amount, self.merchant.fee_rate) {
            Ok(split) => split,
            Err(e) => { return Err(GatewayError::Payment(e)); },
        };
        if self.merchant.total_processed.checked_add(self.payment_intent.amount).is_none() {
            return Err(GatewayError::Payment(PaymentError::InvalidAmount));
        }
        Ok(split)
    }
}

/// The transfers that the host has to make for the payment before it is
/// recorded, in their order. A payment that is refused asks for none.
pub fn payment_transfers(ctx: &ProcessPayment, payment_id: &str) -> (r: Result<Vec<Transfer>, GatewayError>)
    ensures
        match r {
            Ok(list) => ctx.refusal(payment_id@) is None && list@ == ctx.transfers(),
            Err(e) => ctx.refusal(payment_id@) == Some(e),
        },
{
    let split = ctx.check(payment_id)?;
    let mut list: Vec<Transfer> = Vec::new();
    if split.fee > 0 {
        list.push(
            Transfer { from: ctx.payer.key, to: ctx.platform_account, authority: ctx.payer.key, amount: split.fee },
        );
    }
    list.push(
        Transfer {
            from: ctx.payer.key,
            to: ctx.merchant_account,
            authority: ctx.payer.key,
            amount: split.merchant_amount,
        },
    );
    proof {
        assert(list@ =~= ctx.transfers());
    }
    Ok(list)
}

/// Pays the intent named `payment_id`, given the host's report on the
/// transfers of `payment_transfers`. Where nothing refuses the payment and
/// the transfers were made, the intent becomes `Completed` with the payer
/// and the clock's time, and the merchant's running total grows by the
/// intent's amount. Every failure leaves the accounts as they were.
pub fn process_payment(ctx: &mut ProcessPayment, payment_id: String, transfers: TransferOutcome) -> (r: Result<
    (),
    GatewayError,
>)
    ensures
        match r {
            Ok(()) => old(ctx).failure(payment_id@, transfers) is None && *final(ctx) == old(ctx).completed(),
            Err(e) => old(ctx).failure(payment_id@, transfers) == Some(e) && *final(ctx) == *old(ctx),
        },
        old(ctx).payment_intent.wf() ==> final(ctx).payment_intent.wf(),
        final(ctx).merchant.total_processed >= old(ctx).merchant.total_processed,
        final(ctx).merchant.fee_rate == old(ctx).merchant.fee_rate,
{
    match ctx.check(payment_id.as_str()) {
        Ok(_) => {},
        Err(e) => { return Err(e); },
    }
    match transfers {
        TransferOutcome::Completed => {},
        TransferOutcome::InsufficientFunds => {
            return Err(GatewayError::Payment(PaymentError::InsufficientFunds));
        },
    }
    ctx.payment_intent.status = PaymentStatus::Completed;
    ctx.payment_intent.processed_at = Some(ctx.now);
    ctx.payment_intent.payer = Some(ctx.payer.key);
    ctx.merchant.total_processed = ctx.merchant.total_processed + ctx.payment_intent.amount;
    Ok(())
}

/// A payment moves exactly the intent's amount: the fee is the fee rate's
/// share of it, rounded down, the merchant receives the rest, the transfers
/// ask for just these two sums, the fee's only where it is not zero, and the
/// merchant's running total grows by the whole amount.
pub proof fn lemma_payment_conserves(ctx: ProcessPayment, payment_id: Seq<char>)
    requires
        ctx.refusal(payment_id) is None,
    ensures
        ctx.split().fee == fee_of(ctx.payment_intent.amount, ctx.merchant.fee_rate),
        ctx.split().fee + ctx.split().merchant_amount == ctx.payment_intent.amount,
        ctx.split().fee > 0 ==> ctx.transfers().len() == 2 && ctx.transfers()[0].amount + ctx.transfers()[1].amount
            == ctx.payment_intent.amount,
        ctx.split().fee == 0 ==> ctx.transfers().len() == 1 && ctx.transfers()[0].amount
            == ctx.payment_intent.amount,
        ctx.completed().merchant.total_processed == ctx.merchant.total_processed + ctx.payment_intent.amount,
{
    crate::fee::lemma_split_conserves(ctx.payment_intent.amount, ctx.merchant.fee_rate);
}

/// An intent is paid once: after a payment, the same transaction is refused
/// with `PaymentAlreadyProcessed` whatever the host reports, and no other
/// payer, name or time makes a second payment of the intent succeed.
pub proof fn lemma_process_payment_once(
    ctx: ProcessPayment,
    payment_id: Seq<char>,
    transfers: TransferOutcome,
    again: Signer,
    second_id: Seq<char>,
    later: i64,
)
    requires
        ctx.refusal(payment_id) is None,
    ensures
        ctx.completed().failure(payment_id, transfers) == Some(
            GatewayError::Payment(PaymentError::PaymentAlreadyProcessed),
        ),
        (ProcessPayment { payer: again, now: later, ..ctx.completed() }).failure(second_id, transfers) is Some,
{
}

/// Only `Created` intents are paid, and a payment leads to `Completed`: no
/// payment leads to `Failed` or `Refunded`, or out of them.
pub proof fn lemma_payment_transitions(ctx: ProcessPayment, payment_id: Seq<char>)
    ensures
        ctx.refusal(payment_id) is None ==> ctx.payment_intent.status == PaymentStatus::Created
            && ctx.completed().payment_intent.status == PaymentStatus::Completed,
        ctx.payment_intent.status != PaymentStatus::Created ==> ctx.refusal(payment_id) is Some,
{
}

/// A product of amount and fee rate beyond 64 bits is never paid: the
/// payment fails whatever the host reports, and with `InvalidAmount` where
/// the checks before the split pass.
pub proof fn lemma_overflow_is_refused(ctx: ProcessPayment, payment_id: Seq<char>, transfers: TransferOutcome)
    requires
        ctx.payment_intent.amount * ctx.merchant.fee_rate > u64::MAX,
    ensures
        ctx.failure(payment_id, transfers) is Some,
        ctx.payer.signed && bumped_address(payment_seeds(payment_id), ctx.payment_intent.bump, ctx.program_id@)
            == Some(ctx.payment_intent_key@) && ctx.payment_intent.status == PaymentStatus::Created
            && ctx.merchant_key@ == ctx.payment_intent.merchant@ ==> ctx.failure(payment_id, transfers) == Some(
            GatewayError::Payment(PaymentError::InvalidAmount),
        ),
{
}

/// The bump that an intent records leads back to its account: an intent
/// that was created under a name is found under that name when a payer
/// signs, with the merchant it was created for, and only the amount can
/// still refuse the payment.
pub proof fn lemma_created_intent_is_payable(
    ctx: CreatePaymentIntent,
    payment_id: String,
    amount: u64,
    metadata: String,
    bump: u8,
    payer: Address,
    merchant_account: Address,
    platform_account: Address,
    later: i64,
)
    requires
        ctx.refusal(payment_id@, metadata@) is None,
        derived_address(payment_seeds(payment_id@), ctx.program_id@) matches Some((_, canonical)) && canonical
            == bump,
    ensures
        ({
            let created = ctx.created(payment_id, amount, metadata, bump);
            let payment = ProcessPayment {
                program_id: created.program_id,
                payer: Signer { key: payer, signed: true },
                payment_intent_key: created.payment_intent_key,
                payment_intent: created.payment_intent->0,
                merchant_key: created.merchant_key,
                merchant: created.merchant,
                merchant_account,
                platform_account,
                now: later,
            };
            payment.refusal(payment_id@) == if splits(amount, ctx.merchant.fee_rate) && ctx.merchant.total_processed
                + amount <= u64::MAX {
                None
            } else {
                Some(GatewayError::Payment(PaymentError::InvalidAmount))
            }
        }),
{
    lemma_derived_address_bumped(payment_seeds(payment_id@), ctx.program_id@);
}

} // verus!
