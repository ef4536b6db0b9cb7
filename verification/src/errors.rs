//! The ways in which an operation of the engine can end without effect.

use vstd::prelude::*;

verus! {

/// A rejection by the engine itself.
#[derive(Clone, Copy, Debug, PartialEq, Eq, Structural)]
pub enum PayChainError {
    /// A refund was asked for a payment that has not failed.
    PaymentNotFailed,
    /// The caller lacks the capability or role that the operation needs.
    Unauthorized,
    /// An inbound payload is shorter than its fixed layout.
    InvalidMessageData,
    /// The invoice has been paid before.
    AlreadyPaid,
    /// The invoice's time window has passed.
    RequestExpired,
}

/// A failure of the underlying movement of funds.
#[derive(Clone, Copy, Debug, PartialEq, Eq, Structural)]
pub enum TransferError {
    /// The account to debit holds less than the amount.
    InsufficientFunds,
    /// The account to credit cannot hold the amount on top of its balance.
    Overflow,
}

/// Why an operation was aborted. An aborted operation changes nothing.
#[derive(Clone, Copy, Debug, PartialEq, Eq, Structural)]
pub enum EngineError {
    /// The engine refused the operation.
    Rejected(PayChainError),
    /// The engine accepted the operation, but the funds could not be moved.
    Transfer(TransferError),
}

impl PayChainError {
    /// A short description for people.
    pub fn message(&self) -> (text: &'static str)
        ensures
            text@ == match *self {
                PayChainError::PaymentNotFailed => "Payment is not in failed status"@,
                PayChainError::Unauthorized => "Unauthorized"@,
                PayChainError::InvalidMessageData => "Invalid message data length"@,
                PayChainError::AlreadyPaid => "Payment request already paid"@,
                PayChainError::RequestExpired => "Payment request expired"@,
            },
    {
        match self {
            PayChainError::PaymentNotFailed => "Payment is not in failed status",
            PayChainError::Unauthorized => "Unauthorized",
            PayChainError::InvalidMessageData => "Invalid message data length",
            PayChainError::AlreadyPaid => "Payment request already paid",
            PayChainError::RequestExpired => "Payment request expired",
        }
    }
}

} // verus!
