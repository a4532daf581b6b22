//! Control logic of one notarization session: limit negotiation, the TLS
//! handshake coordinator, record sequencing, transcript range bookkeeping and
//! the session lifecycle up to a notary attestation.
pub mod config;
pub mod error;
pub mod handshake;
pub mod limits;
pub mod record;
pub mod session;
pub mod transcript;
