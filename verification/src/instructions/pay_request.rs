//! Paying an invoice.

use vstd::prelude::*;
use crate::address::Address;
use crate::address::Signer;
use crate::errors::EngineError;
use crate::errors::PayChainError;
use crate::events::RequestPaymentReceived;
use crate::events::Settlement;
use crate::state::payment::PaymentRequest;
use crate::state::vault::transfer_outcome;
use crate::state::vault::TokenAccount;

verus! {

/// What `pay_request` works on.
#[derive(Debug)]
pub struct PayRequest {
    /// The caller, who pays.
    pub payer: Signer,
    pub payment_request: PaymentRequest,
    /// The balance that the amount is taken from.
    pub payer_token_account: TokenAccount,
    /// The balance of the merchant, which the amount is paid to.
    pub merchant_vault_token_account: TokenAccount,
}

/// Whether paying `request` at time `now` goes through, and why not, given
/// the balances of the payer and of the merchant.
///
/// A paid invoice is refused first, then one whose window has passed; then
/// the funds are looked at.
pub open spec fn pay_outcome(
    request: PaymentRequest,
    payer_funds: u64,
    merchant_funds: u64,
    now: i64,
) -> Result<(), EngineError> {
    if request.is_paid {
        Err(EngineError::Rejected(PayChainError::AlreadyPaid))
    } else if now > request.expires_at {
        Err(EngineError::Rejected(PayChainError::RequestExpired))
    } else {
        match transfer_outcome(payer_funds as nat, merchant_funds as nat, request.amount as nat) {
            Ok(()) => Ok(()),
            Err(failure) => Err(EngineError::Transfer(failure)),
        }
    }
}

/// An invoice after `payer` has paid it.
pub open spec fn paid_by(request: PaymentRequest, payer: Address) -> PaymentRequest {
    PaymentRequest { is_paid: true, payer: Some(payer), ..request }
}

/// Pays an invoice: moves its amount from the payer straight to the merchant,
/// marks it paid and records the payer.
///
/// A refused or failed payment changes nothing.
pub fn pay_request(ctx: &mut PayRequest, request_id: [u8; 32], now: i64) -> (result: Result<
    Settlement<RequestPaymentReceived>,
    EngineError,
>)
    ensures
        match pay_outcome(
            old(ctx).payment_request,
            old(ctx).payer_token_account.amount,
            old(ctx).merchant_vault_token_account.amount,
            now,
        ) {
            Err(refusal) => result == Err::<Settlement<RequestPaymentReceived>, EngineError>(
                refusal,
            ) && *final(ctx) == *old(ctx),
            Ok(()) => {
                &&& result matches Ok(done)
                &&& done.transferred == old(ctx).payment_request.amount
                &&& done.event == (RequestPaymentReceived {
                    request_id,
                    payer: old(ctx).payer.key,
                })
                &&& final(ctx).payment_request == paid_by(
                    old(ctx).payment_request,
                    old(ctx).payer.key,
                )
                &&& final(ctx).payer_token_account.amount == old(ctx).payer_token_account.amount
                    - old(ctx).payment_request.amount
                &&& final(ctx).merchant_vault_token_account.amount
                    == old(ctx).merchant_vault_token_account.amount
                    + old(ctx).payment_request.amount
                &&& final(ctx).payer == old(ctx).payer
            },
        },
        old(ctx).payment_request.wf() ==> final(ctx).payment_request.wf(),
{
    if ctx.payment_request.is_paid {
        return Err(EngineError::Rejected(PayChainError::AlreadyPaid));
    }
    if now > ctx.payment_request.expires_at {
        return Err(EngineError::Rejected(PayChainError::RequestExpired));
    }
    let amount = ctx.payment_request.amount;
    match ctx.payer_token_account.transfer(&mut ctx.merchant_vault_token_account, amount) {
        Ok(()) => {},
        Err(failure) => {
            return Err(EngineError::Transfer(failure));
        },
    }
    ctx.payment_request.is_paid = true;
    ctx.payment_request.payer = Some(ctx.payer.key);
    Ok(
        Settlement {
            transferred: amount,
            event: RequestPaymentReceived { request_id, payer: ctx.payer.key },
        },
    )
}

/// An unpaid invoice whose window has passed is refused with
/// `RequestExpired`, and stays refused: the refusal leaves the invoice as it
/// was, and at every later time, whatever the balances, it is refused again.
pub proof fn lemma_expired_stays_expired(
    request: PaymentRequest,
    now: i64,
    later: i64,
    payer_funds: u64,
    merchant_funds: u64,
    later_payer_funds: u64,
    later_merchant_funds: u64,
)
    requires
        !request.is_paid,
        request.expires_at < now,
        now <= later,
    ensures
        pay_outcome(request, payer_funds, merchant_funds, now) == Err::<(), EngineError>(
            EngineError::Rejected(PayChainError::RequestExpired),
        ),
        pay_outcome(request, later_payer_funds, later_merchant_funds, later) == Err::<
            (),
            EngineError,
        >(EngineError::Rejected(PayChainError::RequestExpired)),
{
}

/// An invoice is paid at most once: after a payment that went through, every
/// further attempt, by whomever and whenever, is refused with `AlreadyPaid`,
/// and the invoice keeps the first payer.
pub proof fn lemma_paid_at_most_once(
    request: PaymentRequest,
    first_payer: Address,
    first_funds: u64,
    merchant_funds: u64,
    now: i64,
    second_funds: u64,
    later_merchant_funds: u64,
    later: i64,
)
    requires
        pay_outcome(request, first_funds, merchant_funds, now) is Ok,
    ensures
        pay_outcome(paid_by(request, first_payer), second_funds, later_merchant_funds, later)
            == Err::<(), EngineError>(EngineError::Rejected(PayChainError::AlreadyPaid)),
        paid_by(request, first_payer).payer == Some(first_payer),
        paid_by(request, first_payer).is_paid,
{
}

} // verus!
