//! The rearm protocol as the handlers use it: every socket is armed
//! edge-triggered with oneshot, and armed anew at the end of each callback.

use vstd::prelude::*;
use crate::error::Error;
use crate::poller::Registration;
use crate::token::{EventSet, PollOpt, Token};

verus! {

/// Edge-triggered with oneshot: the mode every socket of the handlers is armed with.
pub open spec fn spec_edge_oneshot() -> PollOpt {
    PollOpt { edge: true, oneshot: true }
}

/// Edge-triggered with oneshot.
pub fn edge_oneshot() -> (o: PollOpt)
    ensures
        o == spec_edge_oneshot(),
{
    PollOpt::edge().union(PollOpt::oneshot())
}

/// The registration table after `sock` was armed anew: a bound socket gets
/// the token and interest given, an unbound one changes nothing.
pub open spec fn rearmed(
    table: Map<u64, Registration>,
    sock: u64,
    token: Token,
    interest: EventSet,
) -> Map<u64, Registration> {
    if table.contains_key(sock) {
        table.insert(sock, Registration { token, interest, opts: spec_edge_oneshot() })
    } else {
        table
    }
}

/// What arming `sock` anew returns: it fails where the socket is not bound.
pub open spec fn rearm_result(table: Map<u64, Registration>, sock: u64) -> Result<(), Error> {
    if table.contains_key(sock) {
        Ok(())
    } else {
        Err(Error::NotRegistered)
    }
}

} // verus!
