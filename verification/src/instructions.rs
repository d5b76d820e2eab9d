//! The checks and state changes of the vault's instructions, grouped by who
//! may send them.
pub mod admin;
pub mod operator;
pub mod user;
pub mod views;
