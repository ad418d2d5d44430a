//! The instructions whose decisions the library makes.

pub mod close_vault;
pub mod shutdown_vault;
