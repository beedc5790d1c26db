use payment_gateway::{
    initialize_session, pay_with_token, program_id, session_address, token_transfer, AccountError, Address,
    GatewayError, InitializeSession, PayWithToken, SessionError, Signer, TokenAccount, TransferOutcome,
};

fn merchant() -> Address {
    Address { bytes: [3u8; 32] }
}

fn payer() -> Address {
    Address { bytes: [5u8; 32] }
}

fn mint() -> Address {
    Address { bytes: [9u8; 32] }
}

fn other_mint() -> Address {
    Address { bytes: [10u8; 32] }
}

fn opening(amount: u64) -> InitializeSession {
    let id = program_id();
    let (session_key, _) = session_address(&merchant(), &mint(), amount, &id).unwrap();
    InitializeSession {
        program_id: id,
        merchant: Signer { key: merchant(), signed: true },
        session_key,
        session: None,
        token_mint: mint(),
    }
}

fn accounts(amount: u64) -> PayWithToken {
    let mut first = opening(amount);
    initialize_session(&mut first, amount).unwrap();
    PayWithToken {
        program_id: first.program_id,
        payer: Signer { key: payer(), signed: true },
        session_key: first.session_key,
        session: first.session.unwrap(),
        payer_token_account: TokenAccount { key: Address { bytes: [11u8; 32] }, mint: mint() },
        merchant_token_account: TokenAccount { key: Address { bytes: [12u8; 32] }, mint: mint() },
        token_mint: mint(),
    }
}

#[test]
fn initialize_session_writes_the_session() {
    let mut ctx = opening(500);
    let (_, bump) = session_address(&merchant(), &mint(), 500, &program_id()).unwrap();
    assert_eq!(initialize_session(&mut ctx, 500), Ok(()));
    let session = ctx.session.unwrap();
    assert_eq!(session.merchant, merchant());
    assert_eq!(session.payer, None);
    assert_eq!(session.amount, 500);
    assert_eq!(session.token_mint, mint());
    assert!(!session.paid);
    assert_eq!(session.bump, bump);
}

#[test]
fn second_initialize_session_is_refused() {
    let mut ctx = opening(500);
    assert_eq!(initialize_session(&mut ctx, 500), Ok(()));
    assert_eq!(
        initialize_session(&mut ctx, 500),
        Err(GatewayError::Account(AccountError::AccountAlreadyInitialized))
    );
    assert_eq!(ctx.session.unwrap().amount, 500);
}

#[test]
fn initialize_session_needs_signature_and_derived_account() {
    let mut ctx = opening(500);
    ctx.merchant.signed = false;
    assert_eq!(initialize_session(&mut ctx, 500), Err(GatewayError::Account(AccountError::MissingSignature)));
    ctx.merchant.signed = true;
    assert_eq!(initialize_session(&mut ctx, 501), Err(GatewayError::Account(AccountError::SeedsMismatch)));
    ctx.token_mint = other_mint();
    assert_eq!(initialize_session(&mut ctx, 500), Err(GatewayError::Account(AccountError::SeedsMismatch)));
    assert!(ctx.session.is_none());
}

#[test]
fn pay_with_token_marks_the_session_paid() {
    let mut ctx = accounts(500);
    let transfer = token_transfer(&ctx).unwrap();
    assert_eq!(transfer.from, Address { bytes: [11u8; 32] });
    assert_eq!(transfer.to, Address { bytes: [12u8; 32] });
    assert_eq!(transfer.authority, payer());
    assert_eq!(transfer.amount, 500);
    assert_eq!(pay_with_token(&mut ctx, TransferOutcome::Completed), Ok(()));
    assert!(ctx.session.paid);
    assert_eq!(ctx.session.payer, Some(payer()));
    assert_eq!(ctx.session.amount, 500);
    assert_eq!(ctx.session.merchant, merchant());
}

#[test]
fn pay_with_token_with_another_mint_is_refused() {
    let mut ctx = accounts(500);
    ctx.token_mint = other_mint();
    let refused = GatewayError::Session(SessionError::InvalidToken);
    assert_eq!(token_transfer(&ctx).map(|transfer| transfer.amount), Err(refused));
    assert_eq!(pay_with_token(&mut ctx, TransferOutcome::Completed), Err(refused));
    assert!(!ctx.session.paid);
    assert_eq!(ctx.session.payer, None);
}

#[test]
fn pay_with_token_with_a_token_account_of_another_mint_is_refused() {
    let refused = Err(GatewayError::Session(SessionError::InvalidToken));
    let mut ctx = accounts(500);
    ctx.payer_token_account.mint = other_mint();
    assert_eq!(pay_with_token(&mut ctx, TransferOutcome::Completed), refused);
    let mut ctx = accounts(500);
    ctx.merchant_token_account.mint = other_mint();
    assert_eq!(pay_with_token(&mut ctx, TransferOutcome::Completed), refused);
    assert!(!ctx.session.paid);
}

#[test]
fn pay_with_token_twice_is_refused() {
    let mut ctx = accounts(500);
    assert_eq!(pay_with_token(&mut ctx, TransferOutcome::Completed), Ok(()));
    let refused = GatewayError::Session(SessionError::AlreadyPaid);
    assert_eq!(token_transfer(&ctx).map(|transfer| transfer.amount), Err(refused));
    assert_eq!(pay_with_token(&mut ctx, TransferOutcome::Completed), Err(refused));
    ctx.token_mint = other_mint();
    assert_eq!(pay_with_token(&mut ctx, TransferOutcome::InsufficientFunds), Err(refused));
    assert!(ctx.session.paid);
    assert_eq!(ctx.session.payer, Some(payer()));
}

#[test]
fn pay_with_token_without_funds_leaves_the_session_unpaid() {
    let mut ctx = accounts(500);
    assert_eq!(
        pay_with_token(&mut ctx, TransferOutcome::InsufficientFunds),
        Err(GatewayError::Session(SessionError::InsufficientFunds))
    );
    assert!(!ctx.session.paid);
    assert_eq!(ctx.session.payer, None);
    assert_eq!(pay_with_token(&mut ctx, TransferOutcome::Completed), Ok(()));
}

#[test]
fn pay_with_token_needs_signature_and_derived_account() {
    let mut ctx = accounts(500);
    ctx.payer.signed = false;
    assert_eq!(
        pay_with_token(&mut ctx, TransferOutcome::Completed),
        Err(GatewayError::Account(AccountError::MissingSignature))
    );
    ctx.payer.signed = true;
    ctx.session.amount = 499;
    assert_eq!(
        pay_with_token(&mut ctx, TransferOutcome::Completed),
        Err(GatewayError::Account(AccountError::SeedsMismatch))
    );
    assert!(!ctx.session.paid);
}

#[test]
fn failed_pay_with_token_leaves_the_accounts_as_they_were() {
    let fresh = accounts(500);
    let mut ctx = fresh;
    assert!(pay_with_token(&mut ctx, TransferOutcome::InsufficientFunds).is_err());
    assert_eq!(ctx, fresh);
    ctx.token_mint = other_mint();
    let before = ctx;
    assert!(pay_with_token(&mut ctx, TransferOutcome::Completed).is_err());
    assert_eq!(ctx, before);
    let mut ctx = fresh;
    assert_eq!(pay_with_token(&mut ctx, TransferOutcome::Completed), Ok(()));
    let paid = ctx;
    assert!(pay_with_token(&mut ctx, TransferOutcome::Completed).is_err());
    assert_eq!(ctx, paid);
}
