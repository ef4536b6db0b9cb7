//! Refunding a failed payment.

use vstd::prelude::*;
use crate::address::Signer;
use crate::errors::EngineError;
use crate::errors::PayChainError;
use crate::events::PaymentRefunded;
use crate::events::Settlement;
use crate::state::config::Config;
use crate::state::payment::Payment;
use crate::state::payment::PaymentStatus;
use crate::state::vault::transfer_outcome;
use crate::state::vault::TokenAccount;
use crate::state::vault::Vault;

verus! {

/// What `process_refund` works on.
#[derive(Debug)]
pub struct ProcessRefund {
    /// The caller.
    pub authority: Signer,
    pub config: Config,
    pub payment: Payment,
    pub vault_token_account: Vault,
    /// The balance that the refund is paid to.
    pub sender_token_account: TokenAccount,
}

/// Whether a refund goes through, and why not.
///
/// The caller's role is looked at first, then the payment's status, then the
/// funds.
pub open spec fn refund_outcome(ctx: ProcessRefund) -> Result<(), EngineError> {
    if ctx.authority.key != ctx.config.authority {
        Err(EngineError::Rejected(PayChainError::Unauthorized))
    } else if ctx.payment.status != PaymentStatus::Failed {
        Err(EngineError::Rejected(PayChainError::PaymentNotFailed))
    } else {
        match transfer_outcome(
            ctx.vault_token_account@,
            ctx.sender_token_account.amount as nat,
            ctx.payment.amount as nat,
        ) {
            Ok(()) => Ok(()),
            Err(failure) => Err(EngineError::Transfer(failure)),
        }
    }
}

/// A payment after its refund.
pub open spec fn refunded(payment: Payment) -> Payment {
    Payment { status: PaymentStatus::Refunded, ..payment }
}

/// Refunds a failed payment: pays its amount, without the fee, out of custody
/// and marks it refunded. Only the administrator may do so.
///
/// A refused or failed refund changes nothing.
pub fn process_refund(ctx: &mut ProcessRefund) -> (result: Result<
    Settlement<PaymentRefunded>,
    EngineError,
>)
    ensures
        match refund_outcome(*old(ctx)) {
            Err(refusal) => result == Err::<Settlement<PaymentRefunded>, EngineError>(refusal)
                && *final(ctx) == *old(ctx),
            Ok(()) => {
                &&& result matches Ok(done)
                &&& done.transferred == old(ctx).payment.amount
                &&& done.event == (PaymentRefunded {
                    payment_id: old(ctx).payment.payment_id,
                    refund_amount: old(ctx).payment.amount,
                })
                &&& final(ctx).payment == refunded(old(ctx).payment)
                &&& old(ctx).payment.status.leads_to(final(ctx).payment.status)
                &&& final(ctx).vault_token_account@ == old(ctx).vault_token_account@
                    - old(ctx).payment.amount
                &&& final(ctx).sender_token_account.amount == old(ctx).sender_token_account.amount
                    + old(ctx).payment.amount
                &&& final(ctx).authority == old(ctx).authority
                &&& final(ctx).config == old(ctx).config
            },
        },
        old(ctx).payment.wf() ==> final(ctx).payment.wf(),
{
    if ctx.authority.key != ctx.config.authority {
        return Err(EngineError::Rejected(PayChainError::Unauthorized));
    }
    if ctx.payment.status != PaymentStatus::Failed {
        return Err(EngineError::Rejected(PayChainError::PaymentNotFailed));
    }
    let authority = ctx.config.vault_authority();
    let amount = ctx.payment.amount;
    match ctx.vault_token_account.refund(&authority, &mut ctx.sender_token_account, amount) {
        Ok(()) => {},
        Err(failure) => {
            return Err(EngineError::Transfer(failure));
        },
    }
    ctx.payment.status = PaymentStatus::Refunded;
    Ok(
        Settlement {
            transferred: amount,
            event: PaymentRefunded { payment_id: ctx.payment.payment_id, refund_amount: amount },
        },
    )
}

/// A refund is possible only for a failed payment: for a payment in any other
/// status the administrator's attempt is refused with `PaymentNotFailed`.
pub proof fn lemma_refund_needs_failed(ctx: ProcessRefund)
    requires
        ctx.authority.key == ctx.config.authority,
    ensures
        ctx.payment.status != PaymentStatus::Failed ==> refund_outcome(ctx) == Err::<
            (),
            EngineError,
        >(EngineError::Rejected(PayChainError::PaymentNotFailed)),
        refund_outcome(ctx) is Ok ==> ctx.payment.status == PaymentStatus::Failed,
{
}

/// A payment is refunded at most once: after a refund that went through, every
/// further attempt on the same payment is refused, whoever makes it and
/// whatever the balances are.
pub proof fn lemma_refund_at_most_once(first: ProcessRefund, second: ProcessRefund)
    requires
        refund_outcome(first) is Ok,
        second.payment == refunded(first.payment),
    ensures
        refund_outcome(second) is Err,
        refund_outcome(second) matches Err(EngineError::Rejected(_)),
        second.authority.key == second.config.authority ==> refund_outcome(second) == Err::<
            (),
            EngineError,
        >(EngineError::Rejected(PayChainError::PaymentNotFailed)),
{
}

} // verus!
