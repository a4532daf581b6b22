use vstd::prelude::*;

verus! {

/// Why a session ended without an attestation.
#[derive(Clone, Copy, Debug, PartialEq, Eq, Structural)]
pub enum AbortReason {
    /// The requested limits exceed the notary's policy, or traffic went over them.
    LimitsExceeded,
    /// The server's certificate was issued for another name.
    CertificateMismatch,
    /// The server chose a protocol version or cipher suite that is not supported.
    UnsupportedParameters,
    /// A jointly computed step (key derivation, record cipher) failed.
    MpcFailure,
    /// The server's Finished message did not authenticate.
    HandshakeMacFailure,
    /// A record arrived with a sequence number other than the expected one.
    SequenceMismatch,
    /// The record sequence counter cannot advance any further.
    SequenceExhausted,
    /// A message or call arrived in a phase where it is not allowed.
    UnexpectedMessage,
    /// A peer did not answer in time.
    Timeout,
    /// A transport stream closed or broke.
    Transport,
}

} // verus!
