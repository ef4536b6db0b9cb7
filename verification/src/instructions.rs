//! The operations of the engine, one per entry point.

pub mod create_payment;
pub mod create_payment_request;
pub mod initialize;
pub mod pay_request;
pub mod receive_cross_chain;
pub mod refund;
pub mod swap;
