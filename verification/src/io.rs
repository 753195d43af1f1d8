//! What a non-blocking read or write on a transport comes back with.

use vstd::prelude::*;

verus! {

/// The three outcomes of a non-blocking transfer.
#[derive(Clone, Copy, Debug, PartialEq, Eq, Structural)]
pub enum IoOutcome {
    /// Nothing could be transferred now; the next readiness edge tells when.
    WouldBlock,
    /// This many bytes were transferred.
    Ready(usize),
    /// The transport reported an error.
    Failed,
}

} // verus!
