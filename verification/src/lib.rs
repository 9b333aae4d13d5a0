//! Safety layer for browsing risky networks: content sanitization, risk
//! scoring, an encrypted frame transport, session keys and a sealed
//! credential vault.

pub mod config;
pub mod crypto;
pub mod text;
pub mod protocol;
pub mod risk_scorer;
pub mod sanitization;
pub mod privacy;
pub mod session;
pub mod vault;
pub mod transport;
pub mod daemon;
