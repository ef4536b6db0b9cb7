//! Creating an outbound payment.

use vstd::prelude::*;
use crate::address::Signer;
use crate::errors::EngineError;
use crate::errors::TransferError;
use crate::events::PaymentCreated;
use crate::events::Settlement;
use crate::fee::compute_fee;
use crate::fee::fee_of;
use crate::fee::lemma_percentage_fee_fits;
use crate::fee::percentage_fee;
use crate::state::config::byte_len;
use crate::state::config::Config;
use crate::state::config::MAX_CHAIN_ID_BYTES;
use crate::state::payment::Payment;
use crate::state::payment::PaymentStatus;
use crate::state::vault::transfer_outcome;
use crate::state::vault::TokenAccount;
use crate::state::vault::Vault;

verus! {

/// What `create_payment` works on.
#[derive(Debug)]
pub struct CreatePayment {
    /// The caller, who pays.
    pub sender: Signer,
    pub config: Config,
    /// The place of the new payment record: empty before the call.
    pub payment: Option<Payment>,
    /// The balance that the principal and the fee are taken from.
    pub sender_token_account: TokenAccount,
    pub vault_token_account: Vault,
    /// The bump seed of the payment record's address.
    pub payment_bump: u8,
}

/// The fee that a payment of `amount` owes under `config`.
pub open spec fn payment_fee(config: Config, amount: u64) -> nat {
    fee_of(amount as nat, config.fee_rate_bps as nat, config.fixed_base_fee as nat)
}

/// What a payment of `amount` moves into custody: the amount and its fee.
pub open spec fn payment_total(config: Config, amount: u64) -> nat {
    amount as nat + payment_fee(config, amount)
}

/// Whether the ledger can take a payment of `amount` into custody.
pub open spec fn create_payment_outcome(ctx: CreatePayment, amount: u64) -> Result<
    (),
    TransferError,
> {
    transfer_outcome(
        ctx.sender_token_account.amount as nat,
        ctx.vault_token_account@,
        payment_total(ctx.config, amount),
    )
}

/// The record of a payment that was just created.
pub open spec fn new_payment(
    ctx: CreatePayment,
    payment_id: [u8; 32],
    dest_chain_id: String,
    amount: u64,
    receiver: [u8; 32],
    now: i64,
) -> Payment {
    Payment {
        payment_id,
        sender: ctx.sender.key,
        receiver_bytes: receiver,
        source_chain_id: ctx.config.chain_id,
        dest_chain_id,
        amount,
        fee: payment_fee(ctx.config, amount) as u64,
        status: PaymentStatus::Pending,
        created_at: now,
        bump: ctx.payment_bump,
    }
}

/// Creates a payment: computes the fee, moves the amount and the fee from the
/// sender into custody, and records the payment as pending.
///
/// Where the funds cannot be moved, nothing changes and no record is left
/// behind. A total that no balance can hold counts as more than the sender
/// has. `dest_token` names the currency on the destination chain; the engine
/// keeps no record of it.
pub fn create_payment(
    ctx: &mut CreatePayment,
    payment_id: [u8; 32],
    dest_chain_id: String,
    dest_token: [u8; 32],
    amount: u64,
    receiver: [u8; 32],
    now: i64,
) -> (result: Result<Settlement<PaymentCreated>, EngineError>)
    requires
        old(ctx).config.wf(),
        old(ctx).payment is None,
        byte_len(dest_chain_id@) <= MAX_CHAIN_ID_BYTES,
    ensures
        match create_payment_outcome(*old(ctx), amount) {
            Err(failure) => result == Err::<Settlement<PaymentCreated>, EngineError>(
                EngineError::Transfer(failure),
            ) && *final(ctx) == *old(ctx),
            Ok(()) => {
                &&& result matches Ok(done)
                &&& done.transferred == payment_total(old(ctx).config, amount)
                &&& done.event == (PaymentCreated {
                    payment_id,
                    sender: old(ctx).sender.key,
                    amount,
                    fee: payment_fee(old(ctx).config, amount) as u64,
                })
                &&& final(ctx).payment == Some(
                    new_payment(*old(ctx), payment_id, dest_chain_id, amount, receiver, now),
                )
                &&& final(ctx).payment.unwrap().wf()
                &&& final(ctx).vault_token_account@ == old(ctx).vault_token_account@
                    + payment_total(old(ctx).config, amount)
                &&& final(ctx).sender_token_account.amount == old(ctx).sender_token_account.amount
                    - payment_total(old(ctx).config, amount)
                &&& final(ctx).sender == old(ctx).sender
                &&& final(ctx).config == old(ctx).config
                &&& final(ctx).payment_bump == old(ctx).payment_bump
            },
        },
        payment_fee(old(ctx).config, amount) >= old(ctx).config.fixed_base_fee,
        payment_fee(old(ctx).config, amount) == if percentage_fee(
            amount as nat,
            old(ctx).config.fee_rate_bps as nat,
        ) > old(ctx).config.fixed_base_fee {
            percentage_fee(amount as nat, old(ctx).config.fee_rate_bps as nat)
        } else {
            old(ctx).config.fixed_base_fee as nat
        },
{
    proof {
        lemma_percentage_fee_fits(amount as nat, ctx.config.fee_rate_bps as nat);
    }
    let fee = compute_fee(amount, ctx.config.fee_rate_bps, ctx.config.fixed_base_fee);
    let total = match amount.checked_add(fee) {
        Some(total) => total,
        None => {
            return Err(EngineError::Transfer(TransferError::InsufficientFunds));
        },
    };
    match ctx.vault_token_account.deposit(&mut ctx.sender_token_account, total) {
        Ok(()) => {},
        Err(failure) => {
            return Err(EngineError::Transfer(failure));
        },
    }
    ctx.payment = Some(
        Payment {
            payment_id,
            sender: ctx.sender.key,
            receiver_bytes: receiver,
            source_chain_id: ctx.config.chain_id.clone(),
            dest_chain_id,
            amount,
            fee,
            status: PaymentStatus::Pending,
            created_at: now,
            bump: ctx.payment_bump,
        },
    );
    Ok(
        Settlement {
            transferred: total,
            event: PaymentCreated { payment_id, sender: ctx.sender.key, amount, fee },
        },
    )
}

} // verus!
