//! The reactor's error taxonomy.

use vstd::prelude::*;

verus! {

/// What can go wrong inside the reactor.
#[derive(Clone, Copy, Debug, PartialEq, Eq, Structural)]
pub enum Error {
    /// A token that denotes no live entry was handed to the resource table.
    InvalidToken,
    /// `register` on a resource that is already bound.
    AlreadyRegistered,
    /// `reregister` or `deregister` on a resource that is not bound.
    NotRegistered,
    /// A timer deadline lies further ahead than the wheel spans.
    TimerRangeExceeded,
    /// The operating system's polling primitive failed.
    PollFailure,
}

impl Error {
    /// The text of each error.
    pub open spec fn spec_message(&self) -> Seq<char> {
        match self {
            Error::InvalidToken => "invalid token"@,
            Error::AlreadyRegistered => "resource already registered"@,
            Error::NotRegistered => "resource not registered"@,
            Error::TimerRangeExceeded => "timer deadline exceeds wheel span"@,
            Error::PollFailure => "poll failure"@,
        }
    }

    /// A short description, for logs and test output.
    pub fn message(&self) -> (s: &'static str)
        ensures
            s@ == self.spec_message(),
    {
        match self {
            Error::InvalidToken => "invalid token",
            Error::AlreadyRegistered => "resource already registered",
            Error::NotRegistered => "resource not registered",
            Error::TimerRangeExceeded => "timer deadline exceeds wheel span",
            Error::PollFailure => "poll failure",
        }
    }
}

} // verus!
