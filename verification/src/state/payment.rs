//! Payments and invoices.

use vstd::prelude::*;
use crate::address::Address;
use crate::state::config::byte_len;
use crate::state::config::MAX_CHAIN_ID_BYTES;

verus! {

/// Longest invoice description, in bytes.
pub const MAX_DESCRIPTION_BYTES: usize = 128;

/// Seconds for which an invoice can be paid.
pub const REQUEST_WINDOW_SECONDS: i64 = 900;

/// Where a payment stands.
#[derive(Clone, Copy, Debug, PartialEq, Eq, Structural)]
pub enum PaymentStatus {
    Pending,
    Processing,
    Completed,
    Failed,
    Refunded,
}

impl PaymentStatus {
    /// The steps that a payment can take: from pending through processing to
    /// completed, or from pending through failed to refunded.
    pub open spec fn leads_to(self, next: PaymentStatus) -> bool {
        ||| self == PaymentStatus::Pending && next == PaymentStatus::Processing
        ||| self == PaymentStatus::Processing && next == PaymentStatus::Completed
        ||| self == PaymentStatus::Pending && next == PaymentStatus::Failed
        ||| self == PaymentStatus::Failed && next == PaymentStatus::Refunded
    }
}

/// One outbound cross-chain transfer.
#[derive(Clone, Debug)]
pub struct Payment {
    pub payment_id: [u8; 32],
    pub sender: Address,
    /// The destination, as the destination chain writes it.
    pub receiver_bytes: [u8; 32],
    pub source_chain_id: String,
    pub dest_chain_id: String,
    pub amount: u64,
    pub fee: u64,
    pub status: PaymentStatus,
    pub created_at: i64,
    pub bump: u8,
}

impl Payment {
    /// Both chain identifiers are short enough.
    pub open spec fn wf(&self) -> bool {
        &&& byte_len(self.source_chain_id@) <= MAX_CHAIN_ID_BYTES
        &&& byte_len(self.dest_chain_id@) <= MAX_CHAIN_ID_BYTES
    }
}

/// One invoice that a merchant issued.
#[derive(Clone, Debug)]
pub struct PaymentRequest {
    pub merchant: Address,
    /// Where the merchant is paid.
    pub receiver: Address,
    /// The currency.
    pub token: Address,
    pub amount: u64,
    pub description: String,
    pub is_paid: bool,
    pub payer: Option<Address>,
    pub expires_at: i64,
    pub bump: u8,
}

impl PaymentRequest {
    /// The description is short enough, and the invoice has a payer exactly
    /// when it is paid.
    pub open spec fn wf(&self) -> bool {
        &&& byte_len(self.description@) <= MAX_DESCRIPTION_BYTES
        &&& self.is_paid <==> self.payer is Some
    }
}

} // verus!
