//! The records that the operations of the engine emit.

use vstd::prelude::*;
use crate::address::Address;

verus! {

/// A payment was created and its principal taken into custody.
#[derive(Clone, Copy, Debug)]
pub struct PaymentCreated {
    pub payment_id: [u8; 32],
    pub sender: Address,
    pub amount: u64,
    pub fee: u64,
}

/// An inbound settlement was paid out of custody.
#[derive(Clone, Debug)]
pub struct PaymentCompleted {
    pub payment_id: [u8; 32],
    pub tx_hash: String,
}

/// A failed payment was refunded to its sender.
#[derive(Clone, Copy, Debug)]
pub struct PaymentRefunded {
    pub payment_id: [u8; 32],
    pub refund_amount: u64,
}

/// A merchant issued an invoice.
#[derive(Clone, Debug)]
pub struct PaymentRequestCreated {
    pub request_id: [u8; 32],
    pub merchant: Address,
    pub amount: u64,
    pub description: String,
}

/// An invoice was paid.
#[derive(Clone, Copy, Debug)]
pub struct RequestPaymentReceived {
    pub request_id: [u8; 32],
    pub payer: Address,
}

/// What an operation that moves funds hands back: the amount that the ledger
/// is to move, and the record to emit.
#[derive(Debug)]
pub struct Settlement<E> {
    pub transferred: u64,
    pub event: E,
}

} // verus!
