//! The HTTP server template: its errors, token signing and the websocket feed.

pub mod exception;
pub mod jwt;
pub mod ws;
