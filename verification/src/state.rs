//! The persisted state of the engine: the configuration, the payment and
//! invoice records, and the custody vault.

pub mod config;
pub mod payment;
pub mod vault;

pub use config::Config;
pub use config::byte_len;
pub use config::fits_in_bytes;
pub use payment::Payment;
pub use payment::PaymentRequest;
pub use payment::PaymentStatus;
pub use vault::TokenAccount;
pub use vault::Vault;
pub use vault::VaultAuthority;
