use vstd::prelude::*;
use std::collections::HashMap;

verus! {

/// First message of the handshake: the client's version and ephemeral
/// X25519 public key.
#[derive(Debug, Clone)]
pub struct HandshakeInit {
    pub client_version: String,
    pub ephemeral_public_key: [u8; 32],
}

/// The server's answer to a `HandshakeInit`.
#[derive(Debug, Clone)]
pub struct HandshakeResponse {
    pub server_version: String,
    pub ephemeral_public_key: [u8; 32],
    pub salt: [u8; 16],
}

/// A fetched page submitted for sanitization or risk analysis.
#[derive(Debug, Clone)]
pub struct PageContent {
    pub url: String,
    pub html: String,
    pub headers: HashMap<String, String>,
}

/// The outcome of a risk analysis. The score is kept in tenths: 0 is no
/// signal, 10 (that is, 1.0) is the highest risk.
#[derive(Debug, Clone)]
pub struct RiskReport {
    pub score_tenths: u32,
    pub findings: Vec<String>,
    pub recommended_action: String,
}

/// The messages of the encrypted protocol.
#[derive(Debug, Clone)]
pub enum Message {
    HandshakeInit(HandshakeInit),
    HandshakeResponse(HandshakeResponse),
    EncryptedPayload { nonce: [u8; 24], ciphertext: Vec<u8> },
    Error { code: u32, message: String },
    PageContent(PageContent),
    RiskReport(RiskReport),
    Ping,
    Pong,
}

} // verus!
