use notary_session::error::AbortReason;
use notary_session::handshake::{same_bytes, Coordinator, HandshakeEvent, HandshakeState};
use notary_session::limits::{negotiate_limits, Limits};
use notary_session::record::RecordSequencer;

fn hello(name: &str) -> HandshakeEvent {
    HandshakeEvent::ServerHello { supported: true, certificate_name: name.as_bytes().to_vec() }
}

#[test]
fn limits_within_policy_are_accepted() {
    let policy = Limits::new(4096, 16384);
    assert_eq!(negotiate_limits(Limits::new(4096, 16384), policy), Ok(Limits::new(4096, 16384)));
    assert_eq!(negotiate_limits(Limits::new(10, 20), policy), Ok(Limits::new(10, 20)));
}

#[test]
fn limits_over_policy_are_rejected() {
    let policy = Limits::new(4096, 16384);
    assert_eq!(negotiate_limits(Limits::new(4097, 16384), policy), Err(AbortReason::LimitsExceeded));
    assert_eq!(negotiate_limits(Limits::new(4096, 16385), policy), Err(AbortReason::LimitsExceeded));
}

#[test]
fn same_bytes_compares_contents() {
    assert!(same_bytes(b"discord.com", b"discord.com"));
    assert!(!same_bytes(b"discord.com", b"discord.org"));
    assert!(!same_bytes(b"discord.com", b"discord.co"));
    assert!(same_bytes(b"", b""));
}

#[test]
fn coordinator_reaches_established() {
    let mut c = Coordinator::new(b"discord.com".to_vec());
    assert_eq!(c.step(&HandshakeEvent::ClientHello), HandshakeState::ClientHelloSent);
    assert_eq!(c.step(&hello("discord.com")), HandshakeState::ServerHelloReceived);
    assert_eq!(c.step(&HandshakeEvent::KeysDerived { ok: true }), HandshakeState::KeyShareDerived);
    assert_eq!(c.step(&HandshakeEvent::ClientFinished { ok: true }), HandshakeState::FinishedExchanged);
    assert_eq!(c.step(&HandshakeEvent::ServerFinished { verified: true }), HandshakeState::Established);
    // A terminal state ignores further events.
    assert_eq!(c.step(&HandshakeEvent::Timeout), HandshakeState::Established);
}

#[test]
fn coordinator_rejects_wrong_certificate_name() {
    let mut c = Coordinator::new(b"discord.com".to_vec());
    c.step(&HandshakeEvent::ClientHello);
    assert_eq!(
        c.step(&hello("evil.example")),
        HandshakeState::Aborted(AbortReason::CertificateMismatch)
    );
    assert_eq!(
        c.step(&HandshakeEvent::KeysDerived { ok: true }),
        HandshakeState::Aborted(AbortReason::CertificateMismatch)
    );
}

#[test]
fn coordinator_distinguishes_abort_reasons() {
    let mut c = Coordinator::new(b"a".to_vec());
    c.step(&HandshakeEvent::ClientHello);
    let unsupported = HandshakeEvent::ServerHello { supported: false, certificate_name: b"a".to_vec() };
    assert_eq!(c.step(&unsupported), HandshakeState::Aborted(AbortReason::UnsupportedParameters));

    let mut c = Coordinator::new(b"a".to_vec());
    c.step(&HandshakeEvent::ClientHello);
    c.step(&hello("a"));
    assert_eq!(c.step(&HandshakeEvent::KeysDerived { ok: false }), HandshakeState::Aborted(AbortReason::MpcFailure));

    let mut c = Coordinator::new(b"a".to_vec());
    c.step(&HandshakeEvent::ClientHello);
    c.step(&hello("a"));
    c.step(&HandshakeEvent::KeysDerived { ok: true });
    assert_eq!(c.step(&HandshakeEvent::ClientFinished { ok: false }), HandshakeState::Aborted(AbortReason::MpcFailure));

    let mut c = Coordinator::new(b"a".to_vec());
    c.step(&HandshakeEvent::ClientHello);
    c.step(&hello("a"));
    c.step(&HandshakeEvent::KeysDerived { ok: true });
    c.step(&HandshakeEvent::ClientFinished { ok: true });
    assert_eq!(
        c.step(&HandshakeEvent::ServerFinished { verified: false }),
        HandshakeState::Aborted(AbortReason::HandshakeMacFailure)
    );
}

#[test]
fn coordinator_aborts_on_timeout_transport_and_unexpected() {
    let mut c = Coordinator::new(b"a".to_vec());
    assert_eq!(c.step(&HandshakeEvent::Timeout), HandshakeState::Aborted(AbortReason::Timeout));
    let mut c = Coordinator::new(b"a".to_vec());
    c.step(&HandshakeEvent::ClientHello);
    assert_eq!(c.step(&HandshakeEvent::TransportClosed), HandshakeState::Aborted(AbortReason::Transport));
    let mut c = Coordinator::new(b"a".to_vec());
    assert_eq!(c.step(&hello("a")), HandshakeState::Aborted(AbortReason::UnexpectedMessage));
}

#[test]
fn sequencer_counts_outgoing_records() {
    let mut r = RecordSequencer::new();
    assert_eq!(r.next_outgoing(), Ok(0));
    assert_eq!(r.next_outgoing(), Ok(1));
    assert_eq!(r.next_send, 2);
    let mut full = RecordSequencer { next_send: u64::MAX, next_recv: 0 };
    assert_eq!(full.next_outgoing(), Err(AbortReason::SequenceExhausted));
    assert_eq!(full.next_send, u64::MAX);
}

#[test]
fn sequencer_checks_incoming_order() {
    let mut r = RecordSequencer::new();
    assert_eq!(r.accept_incoming(0), Ok(()));
    assert_eq!(r.accept_incoming(2), Err(AbortReason::SequenceMismatch));
    assert_eq!(r.next_recv, 1);
    assert_eq!(r.accept_incoming(1), Ok(()));
    let mut full = RecordSequencer { next_send: 0, next_recv: u64::MAX };
    assert_eq!(full.accept_incoming(u64::MAX), Err(AbortReason::SequenceExhausted));
}
