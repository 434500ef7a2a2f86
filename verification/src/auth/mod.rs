//! Pairing-code authentication with an HMAC-SHA256 challenge-response.

pub mod crypto;
pub mod handshake;
pub mod pairing;
