//! Issuing an invoice.

use vstd::prelude::*;
use crate::address::Address;
use crate::address::Signer;
use crate::events::PaymentRequestCreated;
use crate::state::config::byte_len;
use crate::state::payment::PaymentRequest;
use crate::state::payment::MAX_DESCRIPTION_BYTES;
use crate::state::payment::REQUEST_WINDOW_SECONDS;

verus! {

/// What `create_payment_request` works on.
#[derive(Debug)]
pub struct CreatePaymentRequest {
    /// The caller, who issues the invoice.
    pub merchant: Signer,
    /// Where the merchant is paid.
    pub merchant_vault: Address,
    /// The place of the new invoice: empty before the call.
    pub payment_request: Option<PaymentRequest>,
    /// The bump seed of the invoice's address.
    pub payment_request_bump: u8,
}

/// The invoice that was just issued.
pub open spec fn new_request(
    ctx: CreatePaymentRequest,
    token: Address,
    amount: u64,
    description: String,
    now: i64,
) -> PaymentRequest {
    PaymentRequest {
        merchant: ctx.merchant.key,
        receiver: ctx.merchant_vault,
        token,
        amount,
        description,
        is_paid: false,
        payer: None,
        expires_at: (now + REQUEST_WINDOW_SECONDS) as i64,
        bump: ctx.payment_request_bump,
    }
}

/// Issues an invoice for `amount` of `token`, unpaid, that can be paid for
/// 900 seconds from `now`.
pub fn create_payment_request(
    ctx: &mut CreatePaymentRequest,
    request_id: [u8; 32],
    token: Address,
    amount: u64,
    description: String,
    now: i64,
) -> (event: PaymentRequestCreated)
    requires
        old(ctx).payment_request is None,
        byte_len(description@) <= MAX_DESCRIPTION_BYTES,
        now + REQUEST_WINDOW_SECONDS <= i64::MAX,
    ensures
        event == (PaymentRequestCreated {
            request_id,
            merchant: old(ctx).merchant.key,
            amount,
            description,
        }),
        *final(ctx) == (CreatePaymentRequest {
            payment_request: Some(new_request(*old(ctx), token, amount, description, now)),
            ..*old(ctx)
        }),
        final(ctx).payment_request.unwrap().wf(),
        final(ctx).payment_request.unwrap().expires_at == now + 900,
{
    let event = PaymentRequestCreated {
        request_id,
        merchant: ctx.merchant.key,
        amount,
        description: description.clone(),
    };
    ctx.payment_request = Some(
        PaymentRequest {
            merchant: ctx.merchant.key,
            receiver: ctx.merchant_vault,
            token,
            amount,
            description,
            is_paid: false,
            payer: None,
            expires_at: now + REQUEST_WINDOW_SECONDS,
            bump: ctx.payment_request_bump,
        },
    );
    event
}

} // verus!
