use pay_chain::create_payment_request;
use pay_chain::pay_request;
use pay_chain::Address;
use pay_chain::CreatePaymentRequest;
use pay_chain::EngineError;
use pay_chain::PayChainError;
use pay_chain::PayRequest;
use pay_chain::PaymentRequest;
use pay_chain::Signer;
use pay_chain::TokenAccount;
use pay_chain::TransferError;

fn address(byte: u8) -> Address {
    Address::new([byte; 32])
}

fn invoice(expires_at: i64) -> PaymentRequest {
    PaymentRequest {
        merchant: address(20),
        receiver: address(21),
        token: address(22),
        amount: 2_500,
        description: "two coffees".to_string(),
        is_paid: false,
        payer: None,
        expires_at,
        bump: 250,
    }
}

fn pay_ctx(payer: Address, request: PaymentRequest, payer_funds: u64) -> PayRequest {
    PayRequest {
        payer: Signer { key: payer },
        payment_request: request,
        payer_token_account: TokenAccount { amount: payer_funds },
        merchant_vault_token_account: TokenAccount { amount: 100 },
    }
}

#[test]
fn new_invoice_expires_after_900_seconds() {
    let mut ctx = CreatePaymentRequest {
        merchant: Signer { key: address(20) },
        merchant_vault: address(21),
        payment_request: None,
        payment_request_bump: 250,
    };
    let event = create_payment_request(
        &mut ctx,
        [4; 32],
        address(22),
        2_500,
        "two coffees".to_string(),
        1_700_000_000,
    );
    assert_eq!(event.request_id, [4; 32]);
    assert_eq!(event.merchant, address(20));
    assert_eq!(event.amount, 2_500);
    assert_eq!(event.description, "two coffees");
    let request = ctx.payment_request.unwrap();
    assert_eq!(request.merchant, address(20));
    assert_eq!(request.receiver, address(21));
    assert_eq!(request.token, address(22));
    assert_eq!(request.amount, 2_500);
    assert_eq!(request.description, "two coffees");
    assert!(!request.is_paid);
    assert_eq!(request.payer, None);
    assert_eq!(request.expires_at, 1_700_000_900);
    assert_eq!(request.bump, 250);
    assert_eq!(ctx.merchant_vault, address(21));
}

#[test]
fn new_invoice_at_the_last_moment_that_has_a_window() {
    let mut ctx = CreatePaymentRequest {
        merchant: Signer { key: address(20) },
        merchant_vault: address(21),
        payment_request: None,
        payment_request_bump: 250,
    };
    create_payment_request(&mut ctx, [4; 32], address(22), 1, String::new(), i64::MAX - 900);
    assert_eq!(ctx.payment_request.unwrap().expires_at, i64::MAX);
}

#[test]
fn paying_an_open_invoice_settles_it() {
    let mut ctx = pay_ctx(address(30), invoice(1_000), 3_000);
    let done = pay_request(&mut ctx, [4; 32], 999).unwrap();
    assert_eq!(done.transferred, 2_500);
    assert_eq!(done.event.request_id, [4; 32]);
    assert_eq!(done.event.payer, address(30));
    assert!(ctx.payment_request.is_paid);
    assert_eq!(ctx.payment_request.payer, Some(address(30)));
    assert_eq!(ctx.payer_token_account.amount, 500);
    assert_eq!(ctx.merchant_vault_token_account.amount, 2_600);
    assert_eq!(ctx.payment_request.amount, 2_500);
    assert_eq!(ctx.payment_request.expires_at, 1_000);
    assert_eq!(ctx.payment_request.merchant, address(20));
}

#[test]
fn paying_at_the_moment_of_expiry_is_still_in_time() {
    let mut ctx = pay_ctx(address(30), invoice(1_000), 3_000);
    assert!(pay_request(&mut ctx, [4; 32], 1_000).is_ok());
}

#[test]
fn paying_after_expiry_is_refused() {
    let mut ctx = pay_ctx(address(30), invoice(1_000), 3_000);
    let refusal = pay_request(&mut ctx, [4; 32], 1_001).unwrap_err();
    assert_eq!(refusal, EngineError::Rejected(PayChainError::RequestExpired));
    assert!(!ctx.payment_request.is_paid);
    assert_eq!(ctx.payment_request.payer, None);
    assert_eq!(ctx.payer_token_account.amount, 3_000);
    assert_eq!(ctx.merchant_vault_token_account.amount, 100);
}

#[test]
fn expired_invoice_stays_expired_on_retry() {
    let mut ctx = pay_ctx(address(30), invoice(1_000), 3_000);
    for now in [1_001, 1_001, 1_002, 5_000, i64::MAX] {
        let refusal = pay_request(&mut ctx, [4; 32], now).unwrap_err();
        assert_eq!(refusal, EngineError::Rejected(PayChainError::RequestExpired));
        assert!(!ctx.payment_request.is_paid);
        assert_eq!(ctx.payer_token_account.amount, 3_000);
    }
}

#[test]
fn second_payer_is_refused_and_first_payer_stays() {
    let mut first = pay_ctx(address(30), invoice(1_000), 3_000);
    assert!(pay_request(&mut first, [4; 32], 500).is_ok());
    let mut second = PayRequest {
        payer: Signer { key: address(31) },
        payment_request: first.payment_request,
        payer_token_account: TokenAccount { amount: 9_000 },
        merchant_vault_token_account: first.merchant_vault_token_account,
    };
    let refusal = pay_request(&mut second, [4; 32], 600).unwrap_err();
    assert_eq!(refusal, EngineError::Rejected(PayChainError::AlreadyPaid));
    assert!(second.payment_request.is_paid);
    assert_eq!(second.payment_request.payer, Some(address(30)));
    assert_eq!(second.payer_token_account.amount, 9_000);
    assert_eq!(second.merchant_vault_token_account.amount, 2_600);
}

#[test]
fn paid_invoice_is_refused_as_paid_even_after_expiry() {
    let mut request = invoice(1_000);
    request.is_paid = true;
    request.payer = Some(address(30));
    let mut ctx = pay_ctx(address(31), request, 3_000);
    let refusal = pay_request(&mut ctx, [4; 32], 2_000).unwrap_err();
    assert_eq!(refusal, EngineError::Rejected(PayChainError::AlreadyPaid));
    assert_eq!(ctx.payment_request.payer, Some(address(30)));
}

#[test]
fn paying_without_funds_leaves_the_invoice_open() {
    let mut ctx = pay_ctx(address(30), invoice(1_000), 2_499);
    let failure = pay_request(&mut ctx, [4; 32], 500).unwrap_err();
    assert_eq!(failure, EngineError::Transfer(TransferError::InsufficientFunds));
    assert!(!ctx.payment_request.is_paid);
    assert_eq!(ctx.payment_request.payer, None);
    assert_eq!(ctx.payer_token_account.amount, 2_499);
    assert_eq!(ctx.merchant_vault_token_account.amount, 100);
    // With funds the same invoice can still be paid.
    ctx.payer_token_account.amount = 2_500;
    assert!(pay_request(&mut ctx, [4; 32], 501).is_ok());
    assert_eq!(ctx.payer_token_account.amount, 0);
}

#[test]
fn paying_into_a_full_balance_leaves_the_invoice_open() {
    let mut ctx = pay_ctx(address(30), invoice(1_000), 3_000);
    ctx.merchant_vault_token_account.amount = u64::MAX - 2_499;
    let failure = pay_request(&mut ctx, [4; 32], 500).unwrap_err();
    assert_eq!(failure, EngineError::Transfer(TransferError::Overflow));
    assert!(!ctx.payment_request.is_paid);
}

#[test]
fn issued_invoice_can_be_paid_within_its_window() {
    let mut create = CreatePaymentRequest {
        merchant: Signer { key: address(20) },
        merchant_vault: address(21),
        payment_request: None,
        payment_request_bump: 250,
    };
    create_payment_request(&mut create, [4; 32], address(22), 700, "tea".to_string(), 10_000);
    let request = create.payment_request.unwrap();
    let mut late = pay_ctx(address(30), request.clone(), 700);
    assert_eq!(
        pay_request(&mut late, [4; 32], 10_901).unwrap_err(),
        EngineError::Rejected(PayChainError::RequestExpired)
    );
    let mut in_time = pay_ctx(address(30), request, 700);
    assert!(pay_request(&mut in_time, [4; 32], 10_900).is_ok());
    assert_eq!(in_time.payment_request.payer, Some(address(30)));
}
