//! The portfolio service: accounts, deposits, order placement and portfolios.

pub mod accounts;
pub mod auth;
pub mod deposit_concurrency;
pub mod exception;
pub mod funds;
pub mod market_client;
pub mod order_flow;
pub mod order_concurrency;
pub mod order_laws;
pub mod orders;
