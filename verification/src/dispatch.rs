//! One iteration of the loop after the poll has returned: readiness first,
//! then the timers that came due, then the messages. Readiness is served
//! before timers and messages so that a flood of messages never starves
//! the sockets.
//!
//! The driver asks for one call at a time and makes it on the handler; what
//! the handler does to the loop in between is seen by the calls that follow.

use vstd::prelude::*;
use crate::event_loop::EventLoop;
use crate::notify::{drained, left_after_drain};
use crate::poller::{delivered, table_after_delivery};
use crate::timer::TimerId;
use crate::token::{EventSet, Token};

verus! {

/// Where a batch stands.
#[derive(Clone, Copy, Debug, PartialEq, Eq, Structural)]
pub enum Phase {
    /// Readiness reports are being handed out.
    Readiness,
    /// Timers that came due are being handed out.
    Timers,
    /// Messages are being handed out.
    Messages,
    /// The batch is finished.
    Done,
}

impl Phase {
    /// The place of a phase in the order of an iteration.
    pub open spec fn rank(self) -> int {
        match self {
            Phase::Readiness => 0,
            Phase::Timers => 1,
            Phase::Messages => 2,
            Phase::Done => 3,
        }
    }
}

/// What the driver does next within a batch.
#[derive(Debug, PartialEq, Eq)]
pub enum Call<T, M> {
    /// Tell the handler that the resource of this token is ready for these
    /// kinds.
    Ready(Token, EventSet),
    /// Tell the handler that this timer has fired.
    Timeout(TimerId, T),
    /// Hand the handler this message.
    Notify(M),
    /// Nothing to tell the handler for this step; ask again.
    Idle,
    /// The batch is finished.
    Done,
}

/// Whether a delivery of `kinds` goes to the handler's readable callback.
/// Readable does, and so does hangup: the handler has no callback of its
/// own for it and learns of the closed peer by reading.
pub fn tells_readable(kinds: EventSet) -> (b: bool)
    ensures
        b == (kinds.readable || kinds.hup),
{
    kinds.is_readable() || kinds.is_hup()
}

/// Whether a delivery of `kinds` goes to the handler's writable callback.
pub fn tells_writable(kinds: EventSet) -> (b: bool)
    ensures
        b == kinds.writable,
{
    kinds.is_writable()
}

/// The batch of one iteration.
pub struct Batch<T, M> {
    pub phase: Phase,
    /// The tick at which the poll returned.
    pub now_tick: u64,
    /// The poller's reports not yet looked at, each a resource and the
    /// kinds reported ready for it.
    pub reports: Vec<(u64, EventSet)>,
    /// The timers that fired and are not yet handed out.
    pub fired: Vec<(TimerId, T)>,
    /// The messages taken from the queue and not yet handed out.
    pub messages: Vec<M>,
}

impl<T, M> Batch<T, M> {
    /// Timers are taken only after the last report, messages only after the
    /// last timer.
    pub open spec fn wf(&self) -> bool {
        &&& self.phase != Phase::Readiness ==> self.reports@.len() == 0
        &&& self.phase != Phase::Timers ==> self.fired@.len() == 0
        &&& self.phase != Phase::Messages ==> self.messages@.len() == 0
    }

    /// The batch for what a poll returned at `now_tick`.
    pub fn new(reports: Vec<(u64, EventSet)>, now_tick: u64) -> (b: Batch<T, M>)
        ensures
            b.wf(),
            b.phase == Phase::Readiness,
            b.now_tick == now_tick,
            b.reports == reports,
            b.fired@ == Seq::<(TimerId, T)>::empty(),
            b.messages@ == Seq::<M>::empty(),
    {
        Batch { phase: Phase::Readiness, now_tick, reports, fired: Vec::new(), messages: Vec::new() }
    }

    /// The next step of the batch.
    ///
    /// While reports are left, the first is taken to the registration
    /// table, and the handler is told if it delivers anything. After the
    /// last report the due timers are taken from the wheel and handed out
    /// one by one; after the last timer the messages, no more than one
    /// iteration allows; after the last message the batch is done.
    ///
    /// A batch never goes back to an earlier phase, and the kind of a call
    /// tells the phase it was made in: within one batch no readiness call
    /// follows a timer or a message, and no timer follows a message.
    pub fn next(&mut self, event_loop: &mut EventLoop<T, M>) -> (c: Call<T, M>)
        requires
            old(self).wf(),
            old(event_loop).wf(),
        ensures
            final(self).wf(),
            final(event_loop).wf(),
            final(self).now_tick == old(self).now_tick,
            final(self).phase.rank() >= old(self).phase.rank(),
            c is Ready ==> old(self).phase == Phase::Readiness,
            c is Timeout ==> old(self).phase == Phase::Timers,
            c is Notify ==> old(self).phase == Phase::Messages,
            final(event_loop).config == old(event_loop).config,
            final(event_loop).state == old(event_loop).state,
            match old(self).phase {
                Phase::Readiness => if old(self).reports@.len() > 0 {
                    let report = old(self).reports@[0];
                    &&& final(self).phase == Phase::Readiness
                    &&& final(self).reports@ == old(self).reports@.remove(0)
                    &&& final(self).fired@ == old(self).fired@
                    &&& final(self).messages@ == old(self).messages@
                    &&& final(event_loop).timers == old(event_loop).timers
                    &&& final(event_loop).notify == old(event_loop).notify
                    &&& final(event_loop).registry@ == table_after_delivery(
                        old(event_loop).registry@,
                        report.0,
                        report.1,
                    )
                    &&& c == match delivered(old(event_loop).registry@, report.0, report.1) {
                        Some(d) => Call::<T, M>::Ready(d.0, d.1),
                        None => Call::<T, M>::Idle,
                    }
                } else {
                    &&& c == Call::<T, M>::Idle
                    &&& final(self).phase == Phase::Timers
                    &&& final(self).reports@ == old(self).reports@
                    &&& final(self).messages@ == old(self).messages@
                    &&& final(self).fired@ == old(event_loop).timers.due(old(self).now_tick as int)
                    &&& final(event_loop).registry == old(event_loop).registry
                    &&& final(event_loop).notify == old(event_loop).notify
                    &&& final(event_loop).timers.spec_now() == if old(self).now_tick > old(event_loop).timers.spec_now() {
                        old(self).now_tick as int
                    } else {
                        old(event_loop).timers.spec_now()
                    }
                    &&& forall|i: int|
                        0 <= i < final(self).fired@.len() ==> !final(event_loop).timers.is_pending(
                            (#[trigger] final(self).fired@[i]).0,
                        )
                },
                Phase::Timers => if old(self).fired@.len() > 0 {
                    &&& c == Call::<T, M>::Timeout(old(self).fired@[0].0, old(self).fired@[0].1)
                    &&& final(self).phase == Phase::Timers
                    &&& final(self).fired@ == old(self).fired@.remove(0)
                    &&& final(self).messages@ == old(self).messages@
                    &&& *final(event_loop) == *old(event_loop)
                } else {
                    &&& c == Call::<T, M>::Idle
                    &&& final(self).phase == Phase::Messages
                    &&& final(self).fired@ == old(self).fired@
                    &&& final(self).messages@ == drained(
                        old(event_loop).notify@,
                        old(event_loop).config.messages_per_tick as int,
                    )
                    &&& final(event_loop).notify@ == left_after_drain(
                        old(event_loop).notify@,
                        old(event_loop).config.messages_per_tick as int,
                    )
                    &&& !final(event_loop).notify.spec_signaled()
                    &&& final(event_loop).registry == old(event_loop).registry
                    &&& final(event_loop).timers == old(event_loop).timers
                },
                Phase::Messages => if old(self).messages@.len() > 0 {
                    &&& c == Call::<T, M>::Notify(old(self).messages@[0])
                    &&& final(self).phase == Phase::Messages
                    &&& final(self).messages@ == old(self).messages@.remove(0)
                    &&& *final(event_loop) == *old(event_loop)
                } else {
                    &&& c == Call::<T, M>::Done
                    &&& final(self).phase == Phase::Done
                    &&& final(self).messages@ == old(self).messages@
                    &&& *final(event_loop) == *old(event_loop)
                },
                Phase::Done => {
                    &&& c == Call::<T, M>::Done
                    &&& final(self).phase == Phase::Done
                    &&& *final(event_loop) == *old(event_loop)
                },
            },
    {
        match self.phase {
            Phase::Readiness => {
                if self.reports.len() > 0 {
                    let report = self.reports.remove(0);
                    match event_loop.on_ready(report.0, report.1) {
                        Some(d) => Call::Ready(d.0, d.1),
                        None => Call::Idle,
                    }
                } else {
                    self.fired = event_loop.expire(self.now_tick);
                    self.phase = Phase::Timers;
                    Call::Idle
                }
            },
            Phase::Timers => {
                if self.fired.len() > 0 {
                    let timer = self.fired.remove(0);
                    Call::Timeout(timer.0, timer.1)
                } else {
                    self.messages = event_loop.take_messages();
                    self.phase = Phase::Messages;
                    Call::Idle
                }
            },
            Phase::Messages => {
                if self.messages.len() > 0 {
                    let message = self.messages.remove(0);
                    Call::Notify(message)
                } else {
                    self.phase = Phase::Done;
                    Call::Done
                }
            },
            Phase::Done => Call::Done,
        }
    }
}

} // verus!
