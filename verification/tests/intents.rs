use payment_gateway::{
    create_payment_intent, initialize_merchant, merchant_address, payment_intent_address, program_id,
    AccountError, Address, CreatePaymentIntent, GatewayError, InitializeMerchant, Merchant, PaymentError,
    PaymentStatus, Signer,
};

fn authority() -> Address {
    Address { bytes: [3u8; 32] }
}

fn merchant(name: &str, fee_rate: u64) -> (Address, Merchant) {
    let id = program_id();
    let (merchant_key, _) = merchant_address(name, &id).unwrap();
    let mut ctx = InitializeMerchant {
        program_id: id,
        authority: Signer { key: authority(), signed: true },
        merchant_key,
        merchant: None,
    };
    initialize_merchant(&mut ctx, name.to_string(), fee_rate).unwrap();
    (merchant_key, ctx.merchant.unwrap())
}

fn accounts(payment: &str) -> CreatePaymentIntent {
    let id = program_id();
    let (merchant_key, merchant) = merchant("acme", 250);
    let (payment_intent_key, _) = payment_intent_address(payment, &id).unwrap();
    CreatePaymentIntent {
        program_id: id,
        authority: Signer { key: authority(), signed: true },
        payment_intent_key,
        payment_intent: None,
        merchant_key,
        merchant,
        now: 1_700_000_000,
    }
}

#[test]
fn create_payment_intent_writes_the_intent() {
    let mut ctx = accounts("order-1");
    let (_, bump) = payment_intent_address("order-1", &program_id()).unwrap();
    assert_eq!(create_payment_intent(&mut ctx, "order-1".to_string(), 10_000, "two books".to_string()), Ok(()));
    let intent = ctx.payment_intent.clone().unwrap();
    assert_eq!(intent.payment_id, "order-1");
    assert_eq!(intent.merchant, ctx.merchant_key);
    assert_eq!(intent.amount, 10_000);
    assert_eq!(intent.status, PaymentStatus::Created);
    assert_eq!(intent.metadata, "two books");
    assert_eq!(intent.created_at, 1_700_000_000);
    assert_eq!(intent.processed_at, None);
    assert_eq!(intent.payer, None);
    assert_eq!(intent.bump, bump);
    assert_eq!(ctx.merchant.total_processed, 0);
    assert_eq!(ctx.merchant.fee_rate, 250);
}

#[test]
fn create_payment_intent_takes_a_time_before_the_epoch() {
    let mut ctx = accounts("order-1");
    ctx.now = -5;
    assert_eq!(create_payment_intent(&mut ctx, "order-1".to_string(), 0, String::new()), Ok(()));
    let intent = ctx.payment_intent.unwrap();
    assert_eq!(intent.created_at, -5);
    assert_eq!(intent.amount, 0);
}

#[test]
fn second_create_payment_intent_is_refused() {
    let mut ctx = accounts("order-1");
    assert_eq!(create_payment_intent(&mut ctx, "order-1".to_string(), 10_000, "a".to_string()), Ok(()));
    assert_eq!(
        create_payment_intent(&mut ctx, "order-1".to_string(), 5, "b".to_string()),
        Err(GatewayError::Account(AccountError::AccountAlreadyInitialized))
    );
    let intent = ctx.payment_intent.unwrap();
    assert_eq!(intent.amount, 10_000);
    assert_eq!(intent.metadata, "a");
}

#[test]
fn create_payment_intent_needs_the_signature() {
    let mut ctx = accounts("order-1");
    ctx.authority.signed = false;
    assert_eq!(
        create_payment_intent(&mut ctx, "order-1".to_string(), 1, String::new()),
        Err(GatewayError::Account(AccountError::MissingSignature))
    );
    assert!(ctx.payment_intent.is_none());
}

#[test]
fn create_payment_intent_needs_the_derived_account() {
    let mut ctx = accounts("order-1");
    assert_eq!(
        create_payment_intent(&mut ctx, "order-2".to_string(), 1, String::new()),
        Err(GatewayError::Account(AccountError::SeedsMismatch))
    );
    assert_eq!(
        create_payment_intent(&mut ctx, "o".repeat(33), 1, String::new()),
        Err(GatewayError::Account(AccountError::SeedsMismatch))
    );
    assert!(ctx.payment_intent.is_none());
}

#[test]
fn create_payment_intent_needs_the_merchants_authority() {
    let mut ctx = accounts("order-1");
    ctx.authority.key = Address { bytes: [4u8; 32] };
    assert_eq!(
        create_payment_intent(&mut ctx, "order-1".to_string(), 1, String::new()),
        Err(GatewayError::Payment(PaymentError::InvalidAuthority))
    );
    assert!(ctx.payment_intent.is_none());
}

#[test]
fn create_payment_intent_bounds_the_metadata() {
    let mut ctx = accounts("order-1");
    assert_eq!(
        create_payment_intent(&mut ctx, "order-1".to_string(), 1, "x".repeat(201)),
        Err(GatewayError::Account(AccountError::FieldTooLong))
    );
    assert!(ctx.payment_intent.is_none());
    // Sixty-seven characters of three bytes each: 201 bytes.
    assert_eq!(
        create_payment_intent(&mut ctx, "order-1".to_string(), 1, "\u{20ac}".repeat(67)),
        Err(GatewayError::Account(AccountError::FieldTooLong))
    );
    assert_eq!(create_payment_intent(&mut ctx, "order-1".to_string(), 1, "x".repeat(200)), Ok(()));
    assert_eq!(ctx.payment_intent.unwrap().metadata.len(), 200);
}

#[test]
fn wrong_authority_comes_before_long_metadata() {
    let mut ctx = accounts("order-1");
    ctx.authority.key = Address { bytes: [4u8; 32] };
    assert_eq!(
        create_payment_intent(&mut ctx, "order-1".to_string(), 1, "x".repeat(201)),
        Err(GatewayError::Payment(PaymentError::InvalidAuthority))
    );
}

#[test]
fn refused_create_payment_intent_leaves_the_accounts_as_they_were() {
    let mut ctx = accounts("order-1");
    let fresh = ctx.clone();
    assert!(create_payment_intent(&mut ctx, "order-1".to_string(), 1, "x".repeat(201)).is_err());
    assert_eq!(ctx, fresh);
    assert_eq!(create_payment_intent(&mut ctx, "order-1".to_string(), 1, "x".to_string()), Ok(()));
    let created = ctx.clone();
    assert!(create_payment_intent(&mut ctx, "order-1".to_string(), 2, "y".to_string()).is_err());
    assert_eq!(ctx, created);
}
