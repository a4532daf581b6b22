use vstd::prelude::*;

use crate::error::AbortReason;

verus! {

/// Phases of the TLS handshake with the server. `Established` and `Aborted`
/// are terminal.
#[derive(Clone, Copy, Debug, PartialEq, Eq, Structural)]
pub enum HandshakeState {
    Init,
    ClientHelloSent,
    ServerHelloReceived,
    KeyShareDerived,
    FinishedExchanged,
    Established,
    Aborted(AbortReason),
}

/// What the handshake coordinator learns from the server, the computation
/// peer or the transport.
#[derive(Debug)]
pub enum HandshakeEvent {
    /// The client hello went out to the server.
    ClientHello,
    /// The server's hello and certificate: whether the chosen version and
    /// cipher suite are supported, and the name the certificate was issued for.
    ServerHello { supported: bool, certificate_name: Vec<u8> },
    /// Outcome of the joint derivation of the traffic key shares.
    KeysDerived { ok: bool },
    /// Outcome of the joint computation of the client's Finished message.
    ClientFinished { ok: bool },
    /// Whether the server's Finished message authenticated.
    ServerFinished { verified: bool },
    /// A peer did not answer in time.
    Timeout,
    /// A transport stream closed or broke.
    TransportClosed,
}

pub open spec fn is_terminal(s: HandshakeState) -> bool {
    s is Established || s is Aborted
}

/// The coordinator's transition on one event, given the server name it was
/// configured with. A terminal state ignores every event; an event that does
/// not belong to the current state aborts.
pub open spec fn next_state(
    s: HandshakeState,
    e: HandshakeEvent,
    server_name: Seq<u8>,
) -> HandshakeState {
    if is_terminal(s) {
        s
    } else {
        match e {
            HandshakeEvent::Timeout => HandshakeState::Aborted(AbortReason::Timeout),
            HandshakeEvent::TransportClosed => HandshakeState::Aborted(AbortReason::Transport),
            HandshakeEvent::ClientHello => if s is Init {
                HandshakeState::ClientHelloSent
            } else {
                HandshakeState::Aborted(AbortReason::UnexpectedMessage)
            },
            HandshakeEvent::ServerHello { supported, certificate_name } => if !(s is ClientHelloSent) {
                HandshakeState::Aborted(AbortReason::UnexpectedMessage)
            } else if !supported {
                HandshakeState::Aborted(AbortReason::UnsupportedParameters)
            } else if certificate_name@ != server_name {
                HandshakeState::Aborted(AbortReason::CertificateMismatch)
            } else {
                HandshakeState::ServerHelloReceived
            },
            HandshakeEvent::KeysDerived { ok } => if !(s is ServerHelloReceived) {
                HandshakeState::Aborted(AbortReason::UnexpectedMessage)
            } else if !ok {
                HandshakeState::Aborted(AbortReason::MpcFailure)
            } else {
                HandshakeState::KeyShareDerived
            },
            HandshakeEvent::ClientFinished { ok } => if !(s is KeyShareDerived) {
                HandshakeState::Aborted(AbortReason::UnexpectedMessage)
            } else if !ok {
                HandshakeState::Aborted(AbortReason::MpcFailure)
            } else {
                HandshakeState::FinishedExchanged
            },
            HandshakeEvent::ServerFinished { verified } => if !(s is FinishedExchanged) {
                HandshakeState::Aborted(AbortReason::UnexpectedMessage)
            } else if !verified {
                HandshakeState::Aborted(AbortReason::HandshakeMacFailure)
            } else {
                HandshakeState::Established
            },
        }
    }
}

/// Whether two byte strings are equal.
pub fn same_bytes(a: &[u8], b: &[u8]) -> (r: bool)
    ensures
        r == (a@ == b@),
{
    if a.len() != b.len() {
        return false;
    }
    let mut i: usize = 0;
    while i < a.len()
        invariant
            i <= a@.len(),
            a@.len() == b@.len(),
            forall|k: int| 0 <= k < i ==> a@[k] == b@[k],
        decreases a@.len() - i,
    {
        if a[i] != b[i] {
            return false;
        }
        i = i + 1;
    }
    assert(a@ =~= b@);
    true
}

/// Drives the handshake with one server, whose certificate must name
/// `server_name`.
pub struct Coordinator {
    pub server_name: Vec<u8>,
    pub state: HandshakeState,
}

impl Coordinator {
    pub fn new(server_name: Vec<u8>) -> (r: Coordinator)
        ensures
            r.server_name@ == server_name@,
            r.state == HandshakeState::Init,
    {
        Coordinator { server_name, state: HandshakeState::Init }
    }

    /// Applies one event and returns the new state.
    pub fn step(&mut self, e: &HandshakeEvent) -> (r: HandshakeState)
        ensures
            final(self).server_name@ == old(self).server_name@,
            final(self).state == next_state(old(self).state, *e, old(self).server_name@),
            r == final(self).state,
    {
        let s = self.state;
        let next = match s {
            HandshakeState::Established => s,
            HandshakeState::Aborted(_) => s,
            _ => match e {
                HandshakeEvent::Timeout => HandshakeState::Aborted(AbortReason::Timeout),
                HandshakeEvent::TransportClosed => HandshakeState::Aborted(AbortReason::Transport),
                HandshakeEvent::ClientHello => match s {
                    HandshakeState::Init => HandshakeState::ClientHelloSent,
                    _ => HandshakeState::Aborted(AbortReason::UnexpectedMessage),
                },
                HandshakeEvent::ServerHello { supported, certificate_name } => match s {
                    HandshakeState::ClientHelloSent => {
                        if !*supported {
                            HandshakeState::Aborted(AbortReason::UnsupportedParameters)
                        } else if !same_bytes(certificate_name.as_slice(), self.server_name.as_slice()) {
                            HandshakeState::Aborted(AbortReason::CertificateMismatch)
                        } else {
                            HandshakeState::ServerHelloReceived
                        }
                    },
                    _ => HandshakeState::Aborted(AbortReason::UnexpectedMessage),
                },
                HandshakeEvent::KeysDerived { ok } => match s {
                    HandshakeState::ServerHelloReceived => if *ok {
                        HandshakeState::KeyShareDerived
                    } else {
                        HandshakeState::Aborted(AbortReason::MpcFailure)
                    },
                    _ => HandshakeState::Aborted(AbortReason::UnexpectedMessage),
                },
                HandshakeEvent::ClientFinished { ok } => match s {
                    HandshakeState::KeyShareDerived => if *ok {
                        HandshakeState::FinishedExchanged
                    } else {
                        HandshakeState::Aborted(AbortReason::MpcFailure)
                    },
                    _ => HandshakeState::Aborted(AbortReason::UnexpectedMessage),
                },
                HandshakeEvent::ServerFinished { verified } => match s {
                    HandshakeState::FinishedExchanged => if *verified {
                        HandshakeState::Established
                    } else {
                        HandshakeState::Aborted(AbortReason::HandshakeMacFailure)
                    },
                    _ => HandshakeState::Aborted(AbortReason::UnexpectedMessage),
                },
            },
        };
        self.state = next;
        next
    }
}

} // verus!
