use vstd::prelude::*;

use crate::error::AbortReason;

verus! {

/// Upper bounds on the application bytes of one session, per direction.
#[derive(Clone, Copy, Debug, PartialEq, Eq, Structural)]
pub struct Limits {
    /// Most bytes the prover may send to the server.
    pub max_sent: usize,
    /// Most bytes the server may send to the prover.
    pub max_recv: usize,
}

/// Requested limits are acceptable when neither direction exceeds the policy.
pub open spec fn within_policy(requested: Limits, policy: Limits) -> bool {
    requested.max_sent <= policy.max_sent && requested.max_recv <= policy.max_recv
}

impl Limits {
    pub fn new(max_sent: usize, max_recv: usize) -> (r: Limits)
        ensures
            r.max_sent == max_sent,
            r.max_recv == max_recv,
    {
        Limits { max_sent, max_recv }
    }
}

/// Checks the prover's requested limits against the notary's policy and
/// returns the limits that the session will run under.
pub fn negotiate_limits(requested: Limits, policy: Limits) -> (r: Result<Limits, AbortReason>)
    ensures
        within_policy(requested, policy) <==> r is Ok,
        r is Ok ==> r->Ok_0 == requested,
        r is Err ==> r->Err_0 == AbortReason::LimitsExceeded,
{
    if requested.max_sent <= policy.max_sent && requested.max_recv <= policy.max_recv {
        Ok(requested)
    } else {
        Err(AbortReason::LimitsExceeded)
    }
}

} // verus!
