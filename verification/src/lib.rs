//! Verified core of a small crypto trading service: a market service that
//! tracks asset prices and a portfolio service where users deposit cash and
//! place idempotent market orders.

pub mod database;
pub mod decimal;
pub mod http_server;
pub mod ids;
pub mod market;
pub mod portfolio;
pub mod shared;
pub mod text;
