use vstd::prelude::*;

use crate::error::AbortReason;

verus! {

/// The per-direction TLS record sequence numbers of one session.
#[derive(Clone, Copy, Debug, PartialEq, Eq, Structural)]
pub struct RecordSequencer {
    /// Sequence number of the next record to be sealed and sent.
    pub next_send: u64,
    /// Sequence number that the next incoming record must carry.
    pub next_recv: u64,
}

impl RecordSequencer {
    pub fn new() -> (r: RecordSequencer)
        ensures
            r.next_send == 0,
            r.next_recv == 0,
    {
        RecordSequencer { next_send: 0, next_recv: 0 }
    }

    /// Takes the sequence number for the next outgoing record. A counter that
    /// would wrap is exhausted.
    pub fn next_outgoing(&mut self) -> (r: Result<u64, AbortReason>)
        ensures
            old(self).next_send < u64::MAX ==> r == Ok::<u64, AbortReason>(old(self).next_send)
                && *final(self) == (RecordSequencer {
                next_send: (old(self).next_send + 1) as u64,
                ..*old(self)
            }),
            old(self).next_send == u64::MAX ==> r == Err::<u64, AbortReason>(
                AbortReason::SequenceExhausted,
            ) && *final(self) == *old(self),
    {
        if self.next_send == u64::MAX {
            return Err(AbortReason::SequenceExhausted);
        }
        let seq = self.next_send;
        self.next_send = seq + 1;
        Ok(seq)
    }

    /// Accepts an incoming record only when it carries the expected sequence
    /// number; records are never dropped, reordered or resynchronised.
    pub fn accept_incoming(&mut self, seq: u64) -> (r: Result<(), AbortReason>)
        ensures
            seq != old(self).next_recv ==> r == Err::<(), AbortReason>(
                AbortReason::SequenceMismatch,
            ) && *final(self) == *old(self),
            seq == old(self).next_recv && seq == u64::MAX ==> r == Err::<(), AbortReason>(
                AbortReason::SequenceExhausted,
            ) && *final(self) == *old(self),
            seq == old(self).next_recv && seq < u64::MAX ==> r == Ok::<(), AbortReason>(())
                && *final(self) == (RecordSequencer {
                next_recv: (seq + 1) as u64,
                ..*old(self)
            }),
    {
        if seq != self.next_recv {
            return Err(AbortReason::SequenceMismatch);
        }
        if seq == u64::MAX {
            return Err(AbortReason::SequenceExhausted);
        }
        self.next_recv = seq + 1;
        Ok(())
    }
}

} // verus!
