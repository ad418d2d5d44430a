//! Verified account rules and instruction decisions of an asynchronous
//! token vault: the checks that the `close_vault` and `shutdown_vault`
//! instructions apply to their accounts, and the token-program calls that a
//! successful close performs.

pub mod address;
pub mod error;
pub mod state;
pub mod token;
pub mod instructions;
