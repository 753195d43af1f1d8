//! The core of a single-threaded, readiness-based I/O reactor: the resource
//! table, the registration table with its rearm protocol, the timer wheel,
//! the bounded notify queue and the run-state machine of the event loop.
//!
//! Everything here works on plain values. The blocking poll and the threads
//! that feed the notify queue live with the caller; [`os`] is the seam to
//! mio, through which the caller reaches the operating system's poller.
//! [`echo_unix`] and [`echo_tcp`] are two sets of handlers that exercise the
//! reactor.

pub mod error;
pub mod token;
pub mod slab;
pub mod timer;
pub mod notify;
pub mod poller;
pub mod event_loop;
pub mod dispatch;
pub mod os;
pub mod io;
pub mod rearm;
pub mod echo_unix;
pub mod echo_tcp;
