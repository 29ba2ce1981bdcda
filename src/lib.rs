//! Trade sizing, signed order construction and market-data session rules
//! for a cryptocurrency exchange client.

pub mod decimal;
pub mod json;
pub mod signer;
pub mod symbol;
pub mod session;
pub mod binance;
