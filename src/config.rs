use vstd::prelude::*;

use crate::limits::Limits;

verus! {

/// Number of prover sessions the driver runs at once.
pub const INSTANCES: usize = 16;

/// The application server whose traffic is notarized.
pub const SERVER_DOMAIN: &'static str = "discord.com";

/// Where the notary listens.
pub const NOTARY_HOST: &'static str = "127.0.0.1";

pub const NOTARY_PORT: u16 = 7047;

/// Most bytes the prover may send to the server (1 << 12).
pub const MAX_SENT_DATA: usize = 4096;

/// Most bytes the prover may receive from the server (1 << 14).
pub const MAX_RECV_DATA: usize = 16384;

/// The limits that every driver session asks the notary for.
pub fn requested_limits() -> (r: Limits)
    ensures
        r == (Limits { max_sent: MAX_SENT_DATA, max_recv: MAX_RECV_DATA }),
{
    Limits::new(MAX_SENT_DATA, MAX_RECV_DATA)
}

} // verus!
