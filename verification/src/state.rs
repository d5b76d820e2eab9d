//! The accounts that the vault keeps, and the token-account data that its
//! rules read.
pub mod config;
pub mod pool;
pub mod token_account;
pub mod withdrawal;

pub use config::VaultConfig;
pub use pool::VaultPool;
pub use token_account::TokenAccountData;
pub use withdrawal::WithdrawalRequest;
