//! A cross-chain payment settlement and custody engine.
//!
//! The crate holds the rules of the engine as verified functions over plain
//! values: the fee policy, the custody vault, the payment and invoice
//! lifecycles, the authorisation of inbound relay messages and the decoding of
//! their fixed binary payload.
//!
//! The engine moves no funds and reads no clock itself. Each operation takes
//! the records it touches, the balances as the ledger holds them and the time,
//! and either refuses, changing nothing, or hands back the records and
//! balances as they stand after it, with the amount that the ledger is to move
//! and the record to emit.

pub mod address;
pub mod custody;
pub mod errors;
pub mod events;
pub mod fee;
pub mod instructions;
pub mod payload;
pub mod pda;
pub mod state;

pub use address::Address;
pub use address::Signer;
pub use errors::EngineError;
pub use errors::PayChainError;
pub use errors::TransferError;
pub use events::PaymentCompleted;
pub use events::PaymentCreated;
pub use events::PaymentRefunded;
pub use events::PaymentRequestCreated;
pub use events::RequestPaymentReceived;
pub use events::Settlement;
pub use fee::compute_fee;
pub use instructions::create_payment::create_payment;
pub use instructions::create_payment::CreatePayment;
pub use instructions::create_payment_request::create_payment_request;
pub use instructions::create_payment_request::CreatePaymentRequest;
pub use instructions::initialize::initialize;
pub use instructions::initialize::Initialize;
pub use instructions::pay_request::pay_request;
pub use instructions::pay_request::PayRequest;
pub use instructions::receive_cross_chain::ccip_receive;
pub use instructions::receive_cross_chain::authorize_relay;
pub use instructions::receive_cross_chain::Any2SVMMessage;
pub use instructions::receive_cross_chain::CcipReceive;
pub use instructions::receive_cross_chain::SVMTokenAmount;
pub use instructions::refund::process_refund;
pub use instructions::refund::ProcessRefund;
pub use instructions::swap::swap_tokens;
pub use instructions::swap::AccountInfo;
pub use instructions::swap::AccountMeta;
pub use instructions::swap::Instruction;
pub use instructions::swap::SwapTokens;
pub use payload::SettlementPayload;
pub use state::Config;
pub use state::Payment;
pub use state::PaymentRequest;
pub use state::PaymentStatus;
pub use state::TokenAccount;
pub use state::Vault;
pub use state::VaultAuthority;
