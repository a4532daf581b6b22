use vstd::prelude::*;

use crate::error::AbortReason;
use crate::handshake::{next_state, Coordinator, HandshakeEvent, HandshakeState};
use crate::limits::{negotiate_limits, within_policy, Limits};
use crate::record::RecordSequencer;
use crate::transcript::{bytes_in, lemma_bytes_in_push, Direction, Transcript, TranscriptRange};

verus! {

/// Phases of a notarization session. `Attested` and `Aborted` are terminal.
#[derive(Clone, Copy, Debug, PartialEq, Eq, Structural)]
pub enum Phase {
    AwaitConnection,
    NegotiateLimits,
    HandshakeInProgress,
    /// Application data flows and every byte is recorded in the transcript.
    Committing,
    /// The transcript is closed and the notary is signing its commitment.
    Finalizing,
    Attested,
    Aborted(AbortReason),
}

pub open spec fn phase_is_terminal(p: Phase) -> bool {
    p is Attested || p is Aborted
}

/// The notary's signed statement over one session.
#[derive(Debug)]
pub struct Attestation {
    pub session_id: u64,
    pub limits: Limits,
    pub server_name: Vec<u8>,
    /// Digest that commits to every transcript range.
    pub commitment_root: Vec<u8>,
    /// The notary's signature over the root, the limits and the server name.
    pub signature: Vec<u8>,
}

pub struct AttestationView {
    pub session_id: u64,
    pub limits: Limits,
    pub server_name: Seq<u8>,
    pub commitment_root: Seq<u8>,
    pub signature: Seq<u8>,
}

impl View for Attestation {
    type V = AttestationView;

    open spec fn view(&self) -> AttestationView {
        AttestationView {
            session_id: self.session_id,
            limits: self.limits,
            server_name: self.server_name@,
            commitment_root: self.commitment_root@,
            signature: self.signature@,
        }
    }
}

fn copy_bytes(v: &Vec<u8>) -> (r: Vec<u8>)
    ensures
        r@ == v@,
{
    let mut r: Vec<u8> = Vec::with_capacity(v.len());
    let mut i: usize = 0;
    while i < v.len()
        invariant
            i <= v@.len(),
            r@ == v@.take(i as int),
        decreases v@.len() - i,
    {
        r.push(v[i]);
        i = i + 1;
        assert(r@ =~= v@.take(i as int));
    }
    assert(v@.take(v@.len() as int) =~= v@);
    r
}

impl Attestation {
    pub fn duplicate(&self) -> (r: Attestation)
        ensures
            r@ == self@,
    {
        Attestation {
            session_id: self.session_id,
            limits: self.limits,
            server_name: copy_bytes(&self.server_name),
            commitment_root: copy_bytes(&self.commitment_root),
            signature: copy_bytes(&self.signature),
        }
    }
}

pub open spec fn attestation_result_view(r: Result<Attestation, AbortReason>) -> Result<
    AttestationView,
    AbortReason,
> {
    match r {
        Ok(a) => Ok(a@),
        Err(e) => Err(e),
    }
}

/// What a session is, abstractly.
pub struct SessionView {
    pub id: u64,
    pub server_name: Seq<u8>,
    pub limits: Limits,
    pub phase: Phase,
    pub handshake: HandshakeState,
    pub records: RecordSequencer,
    pub transcript: Seq<TranscriptRange>,
    pub attestation: Option<AttestationView>,
}

/// The session after a call that its phase does not allow: a live session
/// aborts, a finished one stays as it is.
pub open spec fn violated(v: SessionView) -> SessionView {
    if phase_is_terminal(v.phase) {
        v
    } else {
        SessionView { phase: Phase::Aborted(AbortReason::UnexpectedMessage), ..v }
    }
}

pub open spec fn aborted(v: SessionView, reason: AbortReason) -> SessionView {
    SessionView { phase: Phase::Aborted(reason), ..v }
}

pub open spec fn connect_outcome(v: SessionView) -> (SessionView, Result<(), AbortReason>) {
    if v.phase is AwaitConnection {
        (SessionView { phase: Phase::NegotiateLimits, ..v }, Ok(()))
    } else {
        (violated(v), Err(AbortReason::UnexpectedMessage))
    }
}

pub open spec fn negotiate_outcome(v: SessionView, requested: Limits, policy: Limits) -> (
    SessionView,
    Result<Limits, AbortReason>,
) {
    if !(v.phase is NegotiateLimits) {
        (violated(v), Err(AbortReason::UnexpectedMessage))
    } else if !within_policy(requested, policy) {
        (aborted(v, AbortReason::LimitsExceeded), Err(AbortReason::LimitsExceeded))
    } else {
        (
            SessionView { phase: Phase::HandshakeInProgress, limits: requested, ..v },
            Ok(requested),
        )
    }
}

pub open spec fn handshake_outcome(v: SessionView, e: HandshakeEvent) -> (
    SessionView,
    Result<HandshakeState, AbortReason>,
) {
    if !(v.phase is HandshakeInProgress) {
        (violated(v), Err(AbortReason::UnexpectedMessage))
    } else {
        let h = next_state(v.handshake, e, v.server_name);
        match h {
            HandshakeState::Aborted(reason) => (
                SessionView { phase: Phase::Aborted(reason), handshake: h, ..v },
                Err(reason),
            ),
            HandshakeState::Established => (
                SessionView { phase: Phase::Committing, handshake: h, ..v },
                Ok(h),
            ),
            _ => (SessionView { handshake: h, ..v }, Ok(h)),
        }
    }
}

/// Sending `len` bytes: refused whole, never truncated, when the bytes sent
/// so far and these would exceed `max_sent`.
pub open spec fn send_outcome(v: SessionView, len: nat) -> (
    SessionView,
    Result<(TranscriptRange, u64), AbortReason>,
) {
    let total = bytes_in(v.transcript, Direction::Sent);
    if !(v.phase is Committing) {
        (violated(v), Err(AbortReason::UnexpectedMessage))
    } else if total + len > v.limits.max_sent {
        (aborted(v, AbortReason::LimitsExceeded), Err(AbortReason::LimitsExceeded))
    } else if v.records.next_send == u64::MAX {
        (aborted(v, AbortReason::SequenceExhausted), Err(AbortReason::SequenceExhausted))
    } else {
        let r = TranscriptRange {
            direction: Direction::Sent,
            offset: total as usize,
            length: len as usize,
        };
        (
            SessionView {
                transcript: v.transcript.push(r),
                records: RecordSequencer {
                    next_send: (v.records.next_send + 1) as u64,
                    ..v.records
                },
                ..v
            },
            Ok((r, v.records.next_send)),
        )
    }
}

/// Receiving `len` bytes in the record numbered `seq`.
pub open spec fn recv_outcome(v: SessionView, seq: u64, len: nat) -> (
    SessionView,
    Result<TranscriptRange, AbortReason>,
) {
    let total = bytes_in(v.transcript, Direction::Received);
    if !(v.phase is Committing) {
        (violated(v), Err(AbortReason::UnexpectedMessage))
    } else if seq != v.records.next_recv {
        (aborted(v, AbortReason::SequenceMismatch), Err(AbortReason::SequenceMismatch))
    } else if seq == u64::MAX {
        (aborted(v, AbortReason::SequenceExhausted), Err(AbortReason::SequenceExhausted))
    } else if total + len > v.limits.max_recv {
        (aborted(v, AbortReason::LimitsExceeded), Err(AbortReason::LimitsExceeded))
    } else {
        let r = TranscriptRange {
            direction: Direction::Received,
            offset: total as usize,
            length: len as usize,
        };
        (
            SessionView {
                transcript: v.transcript.push(r),
                records: RecordSequencer { next_recv: (seq + 1) as u64, ..v.records },
                ..v
            },
            Ok(r),
        )
    }
}

pub open spec fn close_outcome(v: SessionView) -> (SessionView, Result<(), AbortReason>) {
    if v.phase is Committing {
        (SessionView { phase: Phase::Finalizing, ..v }, Ok(()))
    } else {
        (violated(v), Err(AbortReason::UnexpectedMessage))
    }
}

/// The attestation that binds a session to the notary's root and signature.
pub open spec fn attestation_of(v: SessionView, root: Seq<u8>, signature: Seq<u8>) -> AttestationView {
    AttestationView {
        session_id: v.id,
        limits: v.limits,
        server_name: v.server_name,
        commitment_root: root,
        signature,
    }
}

/// Finalizing: a session that is already attested hands back the attestation
/// it holds, whatever the notary sent this time.
pub open spec fn finalize_outcome(v: SessionView, root: Seq<u8>, signature: Seq<u8>) -> (
    SessionView,
    Result<AttestationView, AbortReason>,
) {
    if v.phase is Finalizing {
        let a = attestation_of(v, root, signature);
        (SessionView { phase: Phase::Attested, attestation: Some(a), ..v }, Ok(a))
    } else if v.phase is Attested && v.attestation is Some {
        (v, Ok(v.attestation->0))
    } else {
        (violated(v), Err(AbortReason::UnexpectedMessage))
    }
}

pub open spec fn abort_outcome(v: SessionView, reason: AbortReason) -> SessionView {
    if phase_is_terminal(v.phase) {
        v
    } else {
        aborted(v, reason)
    }
}

/// One notarization attempt, from connecting to the notary to its attestation.
pub struct Session {
    id: u64,
    limits: Limits,
    phase: Phase,
    handshake: Coordinator,
    records: RecordSequencer,
    transcript: Transcript,
    attestation: Option<Attestation>,
}

impl View for Session {
    type V = SessionView;

    closed spec fn view(&self) -> SessionView {
        SessionView {
            id: self.id,
            server_name: self.handshake.server_name@,
            limits: self.limits,
            phase: self.phase,
            handshake: self.handshake.state,
            records: self.records,
            transcript: self.transcript@,
            attestation: match self.attestation {
                Some(a) => Some(a@),
                None => None,
            },
        }
    }
}

impl Session {
    pub closed spec fn wf(&self) -> bool {
        &&& self.transcript.wf()
        &&& bytes_in(self.transcript@, Direction::Sent) <= self.limits.max_sent
        &&& bytes_in(self.transcript@, Direction::Received) <= self.limits.max_recv
        &&& self.attestation is Some <==> self.phase is Attested
        &&& (self.phase is AwaitConnection || self.phase is NegotiateLimits
            || self.phase is HandshakeInProgress) ==> self.transcript@.len() == 0
    }

    pub fn new(id: u64, server_name: Vec<u8>) -> (r: Session)
        ensures
            r.wf(),
            r@ == (SessionView {
                id,
                server_name: server_name@,
                limits: Limits { max_sent: 0, max_recv: 0 },
                phase: Phase::AwaitConnection,
                handshake: HandshakeState::Init,
                records: RecordSequencer { next_send: 0, next_recv: 0 },
                transcript: Seq::empty(),
                attestation: None,
            }),
    {
        Session {
            id,
            limits: Limits::new(0, 0),
            phase: Phase::AwaitConnection,
            handshake: Coordinator::new(server_name),
            records: RecordSequencer::new(),
            transcript: Transcript::new(),
            attestation: None,
        }
    }

    fn violate(&mut self) -> (r: AbortReason)
        requires
            old(self).wf(),
        ensures
            final(self).wf(),
            final(self)@ == violated(old(self)@),
            r == AbortReason::UnexpectedMessage,
    {
        match self.phase {
            Phase::Attested => {},
            Phase::Aborted(_) => {},
            _ => {
                self.phase = Phase::Aborted(AbortReason::UnexpectedMessage);
            },
        }
        AbortReason::UnexpectedMessage
    }

    fn fail(&mut self, reason: AbortReason) -> (r: AbortReason)
        requires
            old(self).wf(),
            !(old(self).phase is Attested),
        ensures
            final(self).wf(),
            final(self)@ == aborted(old(self)@, reason),
            r == reason,
    {
        self.phase = Phase::Aborted(reason);
        reason
    }

    /// The notary link is up: move on to negotiating limits.
    pub fn connect(&mut self) -> (r: Result<(), AbortReason>)
        requires
            old(self).wf(),
        ensures
            final(self).wf(),
            (final(self)@, r) == connect_outcome(old(self)@),
    {
        match self.phase {
            Phase::AwaitConnection => {
                self.phase = Phase::NegotiateLimits;
                Ok(())
            },
            _ => Err(self.violate()),
        }
    }

    /// Settles the limits the prover asked for against the notary's policy.
    pub fn negotiate(&mut self, requested: Limits, policy: Limits) -> (r: Result<Limits, AbortReason>)
        requires
            old(self).wf(),
        ensures
            final(self).wf(),
            (final(self)@, r) == negotiate_outcome(old(self)@, requested, policy),
    {
        match self.phase {
            Phase::NegotiateLimits => {},
            _ => return Err(self.violate()),
        }
        match negotiate_limits(requested, policy) {
            Ok(l) => {
                self.limits = l;
                self.phase = Phase::HandshakeInProgress;
                Ok(l)
            },
            Err(e) => Err(self.fail(e)),
        }
    }

    /// Feeds one handshake event to the coordinator. An established handshake
    /// opens the session for application data; an aborted one aborts it.
    pub fn handshake_step(&mut self, e: &HandshakeEvent) -> (r: Result<HandshakeState, AbortReason>)
        requires
            old(self).wf(),
        ensures
            final(self).wf(),
            (final(self)@, r) == handshake_outcome(old(self)@, *e),
    {
        match self.phase {
            Phase::HandshakeInProgress => {},
            _ => return Err(self.violate()),
        }
        let h = self.handshake.step(e);
        match h {
            HandshakeState::Aborted(reason) => Err(self.fail(reason)),
            HandshakeState::Established => {
                self.phase = Phase::Committing;
                Ok(h)
            },
            _ => Ok(h),
        }
    }

    /// Records `data` as the next bytes sent to the server and returns its
    /// range with the sequence number of the record that will carry it.
    pub fn send(&mut self, data: &[u8]) -> (r: Result<(TranscriptRange, u64), AbortReason>)
        requires
            old(self).wf(),
        ensures
            final(self).wf(),
            (final(self)@, r) == send_outcome(old(self)@, data@.len()),
    {
        match self.phase {
            Phase::Committing => {},
            _ => return Err(self.violate()),
        }
        let len = data.len();
        let total = self.transcript.total(Direction::Sent);
        if len > self.limits.max_sent - total {
            return Err(self.fail(AbortReason::LimitsExceeded));
        }
        let seq = match self.records.next_outgoing() {
            Ok(s) => s,
            Err(e) => return Err(self.fail(e)),
        };
        let ghost before = self.transcript@;
        let recorded = self.transcript.record(Direction::Sent, len);
        proof {
            if let Some(range) = recorded {
                lemma_bytes_in_push(before, range, Direction::Sent);
                lemma_bytes_in_push(before, range, Direction::Received);
            }
        }
        match recorded {
            Some(range) => Ok((range, seq)),
            None => {
                // The limit check above left room for these bytes.
                assert(false);
                Err(self.fail(AbortReason::LimitsExceeded))
            },
        }
    }

    /// Records `data`, the plaintext of the incoming record numbered `seq`, as
    /// the next bytes received from the server.
    pub fn recv(&mut self, seq: u64, data: &[u8]) -> (r: Result<TranscriptRange, AbortReason>)
        requires
            old(self).wf(),
        ensures
            final(self).wf(),
            (final(self)@, r) == recv_outcome(old(self)@, seq, data@.len()),
    {
        match self.phase {
            Phase::Committing => {},
            _ => return Err(self.violate()),
        }
        let len = data.len();
        if seq != self.records.next_recv {
            return Err(self.fail(AbortReason::SequenceMismatch));
        }
        if seq == u64::MAX {
            return Err(self.fail(AbortReason::SequenceExhausted));
        }
        let total = self.transcript.total(Direction::Received);
        if len > self.limits.max_recv - total {
            return Err(self.fail(AbortReason::LimitsExceeded));
        }
        match self.records.accept_incoming(seq) {
            Ok(()) => {},
            Err(e) => return Err(self.fail(e)),
        }
        let ghost before = self.transcript@;
        let recorded = self.transcript.record(Direction::Received, len);
        proof {
            if let Some(range) = recorded {
                lemma_bytes_in_push(before, range, Direction::Sent);
                lemma_bytes_in_push(before, range, Direction::Received);
            }
        }
        match recorded {
            Some(range) => Ok(range),
            None => {
                // The limit check above left room for these bytes.
                assert(false);
                Err(self.fail(AbortReason::LimitsExceeded))
            },
        }
    }

    /// Closes the transcript: no more application data, the commitment goes
    /// to the notary for signing.
    pub fn close(&mut self) -> (r: Result<(), AbortReason>)
        requires
            old(self).wf(),
        ensures
            final(self).wf(),
            (final(self)@, r) == close_outcome(old(self)@),
    {
        match self.phase {
            Phase::Committing => {
                self.phase = Phase::Finalizing;
                Ok(())
            },
            _ => Err(self.violate()),
        }
    }

    /// Binds the notary's commitment root and signature into the session's
    /// attestation. Once attested, the session only ever returns that same
    /// attestation.
    pub fn finalize(&mut self, commitment_root: Vec<u8>, signature: Vec<u8>) -> (r: Result<
        Attestation,
        AbortReason,
    >)
        requires
            old(self).wf(),
        ensures
            final(self).wf(),
            final(self)@ == finalize_outcome(old(self)@, commitment_root@, signature@).0,
            attestation_result_view(r) == finalize_outcome(
                old(self)@,
                commitment_root@,
                signature@,
            ).1,
    {
        match self.phase {
            Phase::Finalizing => {
                let a = Attestation {
                    session_id: self.id,
                    limits: self.limits,
                    server_name: copy_bytes(&self.handshake.server_name),
                    commitment_root,
                    signature,
                };
                let out = a.duplicate();
                self.attestation = Some(a);
                self.phase = Phase::Attested;
                Ok(out)
            },
            Phase::Attested => match &self.attestation {
                Some(a) => Ok(a.duplicate()),
                None => Err(self.violate()),
            },
            _ => Err(self.violate()),
        }
    }

    /// Ends a live session for `reason`; a finished one is left as it is.
    pub fn abort(&mut self, reason: AbortReason)
        requires
            old(self).wf(),
        ensures
            final(self).wf(),
            final(self)@ == abort_outcome(old(self)@, reason),
    {
        match self.phase {
            Phase::Attested => {},
            Phase::Aborted(_) => {},
            _ => {
                self.phase = Phase::Aborted(reason);
            },
        }
    }

    pub fn id(&self) -> (r: u64)
        ensures
            r == self@.id,
    {
        self.id
    }

    pub fn phase(&self) -> (r: Phase)
        ensures
            r == self@.phase,
    {
        self.phase
    }

    pub fn limits(&self) -> (r: Limits)
        ensures
            r == self@.limits,
    {
        self.limits
    }

    pub fn handshake_state(&self) -> (r: HandshakeState)
        ensures
            r == self@.handshake,
    {
        self.handshake.state
    }

    pub fn transcript(&self) -> (r: &Transcript)
        requires
            self.wf(),
        ensures
            r.wf(),
            r@ == self@.transcript,
    {
        &self.transcript
    }
}

/// Finalizing a session a second time changes nothing and returns the very
/// attestation that the first call returned, whatever root and signature the
/// second call is given.
pub proof fn lemma_finalize_idempotent(
    v: SessionView,
    root: Seq<u8>,
    signature: Seq<u8>,
    other_root: Seq<u8>,
    other_signature: Seq<u8>,
)
    requires
        finalize_outcome(v, root, signature).1 is Ok,
    ensures
        ({
            let (first, r) = finalize_outcome(v, root, signature);
            finalize_outcome(first, other_root, other_signature) == (first, r)
        }),
{
}

/// Sending more than the session's `max_sent` allows aborts the session with
/// `LimitsExceeded` and records none of the bytes.
pub proof fn lemma_send_over_limit_aborts(v: SessionView, len: nat)
    requires
        v.phase is Committing,
        bytes_in(v.transcript, Direction::Sent) + len > v.limits.max_sent,
    ensures
        send_outcome(v, len).1 == Err::<(TranscriptRange, u64), AbortReason>(
            AbortReason::LimitsExceeded,
        ),
        send_outcome(v, len).0.phase == Phase::Aborted(AbortReason::LimitsExceeded),
        send_outcome(v, len).0.transcript == v.transcript,
{
}

/// In every state of a session, the bytes recorded in each direction stay
/// within the negotiated limits.
pub proof fn lemma_within_limits(s: &Session)
    requires
        s.wf(),
    ensures
        bytes_in(s@.transcript, Direction::Sent) <= s@.limits.max_sent,
        bytes_in(s@.transcript, Direction::Received) <= s@.limits.max_recv,
{
}

/// An aborted session never yields an attestation and stays aborted.
pub proof fn lemma_aborted_never_attests(v: SessionView, root: Seq<u8>, signature: Seq<u8>)
    requires
        v.phase is Aborted,
    ensures
        finalize_outcome(v, root, signature).1 is Err,
        finalize_outcome(v, root, signature).0 == v,
{
}

/// A successful finalize returns an attestation that names the session's
/// id, negotiated limits and server name, beside the root and signature
/// that the notary supplied; the session keeps that same attestation.
pub proof fn lemma_attestation_binds_session(v: SessionView, root: Seq<u8>, signature: Seq<u8>)
    requires
        v.phase is Finalizing,
    ensures
        ({
            let (after, r) = finalize_outcome(v, root, signature);
            &&& r == Ok::<AttestationView, AbortReason>(attestation_of(v, root, signature))
            &&& r->Ok_0.session_id == v.id
            &&& r->Ok_0.limits == v.limits
            &&& r->Ok_0.server_name == v.server_name
            &&& after.phase == Phase::Attested
            &&& after.attestation == Some(r->Ok_0)
            &&& after.transcript == v.transcript
        }),
{
}

} // verus!
