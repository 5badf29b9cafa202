//! The computing parts of the database repositories.

pub mod asset_balances;
pub mod assets;
