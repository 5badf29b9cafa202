//! The market service: CoinGecko prices and the price endpoints.

pub mod coingecko;
pub mod exception;
pub mod price;
pub mod prices;
pub mod symbols;
