//! Cover: the vault holds at least what it took in for the payments whose
//! principal has been neither released nor refunded.
//!
//! Creating a payment and refunding one keep cover. An inbound settlement
//! pays out of the same vault for a payment that another chain took in, with
//! nothing of this deployment standing against it: it is no part of the
//! statements here.

use vstd::prelude::*;
use crate::errors::TransferError;
use crate::instructions::refund::refunded;
use crate::state::payment::Payment;
use crate::state::payment::PaymentStatus;
use crate::state::vault::transfer_outcome;

verus! {

/// Whether the principal of a payment in this status is still in custody.
pub open spec fn in_custody(status: PaymentStatus) -> bool {
    status == PaymentStatus::Pending || status == PaymentStatus::Processing || status
        == PaymentStatus::Failed
}

/// What the vault holds for `payment`: its amount and fee while its principal
/// is in custody, nothing afterwards.
pub open spec fn held_for(payment: Payment) -> nat {
    if in_custody(payment.status) {
        payment.amount as nat + payment.fee as nat
    } else {
        0
    }
}

/// What the vault holds for all of `payments`.
pub open spec fn held_for_all(payments: Seq<Payment>) -> nat
    decreases payments.len(),
{
    if payments.len() == 0 {
        0
    } else {
        held_for_all(payments.drop_last()) + held_for(payments.last())
    }
}

/// Whether a vault with `vault` in escrow covers `payments`.
pub open spec fn covers(vault: nat, payments: Seq<Payment>) -> bool {
    vault >= held_for_all(payments)
}

/// Replacing one payment changes what is held by the difference between the
/// new and the old payment.
pub proof fn lemma_held_after_update(payments: Seq<Payment>, at: int, next: Payment)
    requires
        0 <= at < payments.len(),
    ensures
        held_for_all(payments.update(at, next)) + held_for(payments[at]) == held_for_all(payments)
            + held_for(next),
    decreases payments.len(),
{
    let updated = payments.update(at, next);
    if at == payments.len() - 1 {
        assert(updated.drop_last() =~= payments.drop_last());
    } else {
        assert(updated.drop_last() =~= payments.drop_last().update(at, next));
        assert(payments.drop_last()[at] == payments[at]);
        lemma_held_after_update(payments.drop_last(), at, next);
    }
}

/// Each payment in custody is held in full.
pub proof fn lemma_held_includes_each(payments: Seq<Payment>, at: int)
    requires
        0 <= at < payments.len(),
    ensures
        held_for_all(payments) >= held_for(payments[at]),
    decreases payments.len(),
{
    if at < payments.len() - 1 {
        assert(payments.drop_last()[at] == payments[at]);
        lemma_held_includes_each(payments.drop_last(), at);
    }
}

/// Creating a payment keeps cover: the vault takes in the amount and the fee
/// of the new pending payment.
pub proof fn lemma_create_keeps_cover(vault: nat, payments: Seq<Payment>, created: Payment)
    requires
        covers(vault, payments),
        created.status == PaymentStatus::Pending,
    ensures
        covers(vault + created.amount as nat + created.fee as nat, payments.push(created)),
{
    assert(payments.push(created).drop_last() =~= payments);
}

/// Refunding a failed payment keeps cover, and a vault that covers its
/// payments never lacks the funds for the refund.
pub proof fn lemma_refund_keeps_cover(
    vault: nat,
    payments: Seq<Payment>,
    at: int,
    destination_funds: nat,
)
    requires
        covers(vault, payments),
        0 <= at < payments.len(),
        payments[at].status == PaymentStatus::Failed,
    ensures
        vault >= payments[at].amount,
        transfer_outcome(vault, destination_funds, payments[at].amount as nat) != Err::<
            (),
            TransferError,
        >(TransferError::InsufficientFunds),
        covers(
            (vault - payments[at].amount) as nat,
            payments.update(at, refunded(payments[at])),
        ),
{
    lemma_held_includes_each(payments, at);
    lemma_held_after_update(payments, at, refunded(payments[at]));
}

} // verus!
