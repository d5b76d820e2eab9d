//! The rules of a multi-token share vault: share and fee arithmetic, the
//! per-pool accounting, and the checks and state changes of every instruction.
pub mod acceptance;
pub mod errors;
pub mod instructions;
pub mod laws;
pub mod pubkey;
pub mod state;
pub mod utils;

pub use errors::VaultError;
pub use pubkey::Pubkey;
