//! The event loop's own decisions: its configuration, its run states, the
//! timeout of the next poll, and the order in which one iteration hands out
//! readiness, timers and messages.

use vstd::prelude::*;
use crate::error::Error;
use crate::notify::{drained, left_after_drain, queue_after_send, Full, NotifyQueue};
use crate::poller::{delivered, table_after_delivery, Registration, Registry};
use crate::timer::{TimerId, TimerWheel};
use crate::token::{EventSet, PollOpt, Token};

verus! {

/// What the event loop is configured with.
#[derive(Clone, Copy, Debug, PartialEq, Eq, Structural)]
pub struct LoopConfig {
    /// The longest a poll blocks, in milliseconds.
    pub io_poll_timeout_ms: u64,
    /// The most messages the notify queue holds.
    pub notify_capacity: usize,
    /// The most messages handed to the handler in one iteration.
    pub messages_per_tick: usize,
    /// The length of a timer tick, in milliseconds.
    pub timer_tick_ms: u64,
    /// The number of buckets of the timer wheel.
    pub timer_wheel_size: usize,
    /// The number of waiting timers that the driver reserves room for. The
    /// wheel itself takes every timer whose deadline it spans.
    pub timer_capacity: usize,
}

impl Default for LoopConfig {
    fn default() -> (c: LoopConfig)
        ensures
            c == (LoopConfig {
                io_poll_timeout_ms: 1000,
                notify_capacity: 1024,
                messages_per_tick: 64,
                timer_tick_ms: 100,
                timer_wheel_size: 1024,
                timer_capacity: 65536,
            }),
            c.spec_valid(),
    {
        LoopConfig {
            io_poll_timeout_ms: 1000,
            notify_capacity: 1024,
            messages_per_tick: 64,
            timer_tick_ms: 100,
            timer_wheel_size: 1024,
            timer_capacity: 65536,
        }
    }
}

/// The number of whole ticks of `tick_ms` milliseconds that cover `ms`
/// milliseconds.
pub open spec fn ticks_covering(ms: int, tick_ms: int) -> int {
    if ms % tick_ms == 0 {
        ms / tick_ms
    } else {
        ms / tick_ms + 1
    }
}

/// The timeout of the next poll, in milliseconds: zero while messages wait,
/// else the idle timeout, cut down to the delay until the earliest timer
/// where one waits.
pub open spec fn poll_timeout(
    idle_ms: int,
    tick_ms: int,
    now_tick: int,
    next_deadline: Option<u64>,
    messages_waiting: bool,
) -> int {
    if messages_waiting {
        0
    } else {
        match next_deadline {
            None => idle_ms,
            Some(t) => if t <= now_tick {
                0
            } else if (t - now_tick) * tick_ms < idle_ms {
                (t - now_tick) * tick_ms
            } else {
                idle_ms
            },
        }
    }
}

impl LoopConfig {
    /// A configuration the loop can run with: ticks have a length and the
    /// wheel has a bucket.
    pub open spec fn spec_valid(&self) -> bool {
        self.timer_tick_ms >= 1 && self.timer_wheel_size >= 1
    }

    /// Whether the loop can run with this configuration.
    pub fn is_valid(&self) -> (b: bool)
        ensures
            b == self.spec_valid(),
    {
        self.timer_tick_ms >= 1 && self.timer_wheel_size >= 1
    }

    /// The tick that the time `ms` falls into.
    pub fn tick_at(&self, ms: u64) -> (t: u64)
        requires
            self.spec_valid(),
        ensures
            t == ms as int / self.timer_tick_ms as int,
    {
        ms / self.timer_tick_ms
    }

    /// The number of ticks that a delay of `ms` milliseconds takes, rounded
    /// up to whole ticks.
    pub fn ticks_for(&self, ms: u64) -> (n: u64)
        requires
            self.spec_valid(),
        ensures
            n == ticks_covering(ms as int, self.timer_tick_ms as int),
    {
        let whole: u64 = ms / self.timer_tick_ms;
        if ms % self.timer_tick_ms == 0 {
            whole
        } else {
            assert(whole < u64::MAX) by (nonlinear_arith)
                requires
                    whole == ms as int / self.timer_tick_ms as int,
                    ms as int % self.timer_tick_ms as int != 0,
                    self.timer_tick_ms >= 1,
                    ms <= u64::MAX,
            ;
            whole + 1
        }
    }

    /// The timeout of the next poll, in milliseconds.
    pub fn next_poll_timeout(
        &self,
        now_tick: u64,
        next_deadline: Option<u64>,
        messages_waiting: bool,
    ) -> (ms: u64)
        requires
            self.spec_valid(),
        ensures
            ms == poll_timeout(
                self.io_poll_timeout_ms as int,
                self.timer_tick_ms as int,
                now_tick as int,
                next_deadline,
                messages_waiting,
            ),
    {
        if messages_waiting {
            return 0;
        }
        match next_deadline {
            None => self.io_poll_timeout_ms,
            Some(t) => {
                if t <= now_tick {
                    return 0;
                }
                let ticks: u64 = t - now_tick;
                let idle: u64 = self.io_poll_timeout_ms;
                let tick_ms: u64 = self.timer_tick_ms;
                if ticks > idle / tick_ms {
                    assert(ticks * tick_ms >= idle) by (nonlinear_arith)
                        requires
                            ticks > idle as int / tick_ms as int,
                            tick_ms >= 1,
                            idle >= 0,
                    ;
                    idle
                } else {
                    assert(ticks * tick_ms <= idle) by (nonlinear_arith)
                        requires
                            ticks <= idle as int / tick_ms as int,
                            tick_ms >= 1,
                            idle >= 0,
                            ticks >= 0,
                    ;
                    let delay: u64 = ticks * tick_ms;
                    if delay < idle {
                        delay
                    } else {
                        idle
                    }
                }
            },
        }
    }
}

/// Where the loop stands in its life.
#[derive(Clone, Copy, Debug, PartialEq, Eq, Structural)]
pub enum RunState {
    /// Built, `run` not yet called.
    Initialized,
    /// Inside `run`, polling and dispatching.
    Running,
    /// Shutdown was asked for; the batch in hand is being finished.
    Draining,
    /// `run` has returned.
    Stopped,
}

/// What the driver of the loop does next.
#[derive(Clone, Copy, Debug, PartialEq, Eq, Structural)]
pub enum Action {
    /// Poll for at most this many milliseconds, then dispatch the batch.
    Poll { timeout_ms: u64 },
    /// Leave `run`.
    Stop,
}

impl RunState {
    /// The state after `run` is called: a loop that was never run starts,
    /// any other stays as it is.
    pub open spec fn after_run(self) -> RunState {
        match self {
            RunState::Initialized => RunState::Running,
            s => s,
        }
    }

    /// The state after shutdown is asked for: a running loop begins to
    /// drain, any other stays as it is.
    pub open spec fn after_shutdown(self) -> RunState {
        match self {
            RunState::Running => RunState::Draining,
            s => s,
        }
    }

    /// The state after the poller has failed: a loop inside `run` stops at
    /// once, any other stays as it is.
    pub open spec fn after_poll_failure(self) -> RunState {
        match self {
            RunState::Running => RunState::Stopped,
            RunState::Draining => RunState::Stopped,
            s => s,
        }
    }

    /// Whether the driver polls in this state.
    pub open spec fn polls(self) -> bool {
        self == RunState::Running
    }

    /// The state after the driver has asked what to do next: a draining
    /// loop stops, any other stays as it is.
    pub open spec fn after_action(self) -> RunState {
        match self {
            RunState::Draining => RunState::Stopped,
            s => s,
        }
    }

    /// The state after the driver has asked `n` times what to do next.
    pub open spec fn after_actions(self, n: nat) -> RunState
        decreases n,
    {
        if n == 0 {
            self
        } else {
            self.after_actions((n - 1) as nat).after_action()
        }
    }

    /// Once shutdown has been asked for, the driver never polls again,
    /// however often it asks what to do next, and after the first time it
    /// asks the loop has stopped.
    pub proof fn lemma_no_poll_after_shutdown(self, n: nat)
        requires
            self == RunState::Running,
        ensures
            !self.after_shutdown().after_actions(n).polls(),
            n >= 1 ==> self.after_shutdown().after_actions(n) == RunState::Stopped,
        decreases n,
    {
        if n >= 1 {
            self.lemma_no_poll_after_shutdown((n - 1) as nat);
        }
    }
}

/// The reactor's state: the registration table, the timer wheel, the notify
/// queue and the run state. `T` is the payload of a timer, `M` a message.
pub struct EventLoop<T, M> {
    pub config: LoopConfig,
    pub state: RunState,
    pub registry: Registry,
    pub timers: TimerWheel<T>,
    pub notify: NotifyQueue<M>,
}

impl<T, M> EventLoop<T, M> {
    /// The invariant of the loop: those of its parts, sized as configured.
    pub open spec fn wf(&self) -> bool {
        &&& self.config.spec_valid()
        &&& self.timers.wf()
        &&& self.timers.spec_span() == self.config.timer_wheel_size
        &&& self.notify.wf()
        &&& self.notify.spec_capacity() == self.config.notify_capacity
    }

    /// The poll that the driver makes when `next` is the earliest deadline
    /// among the waiting timers.
    pub open spec fn poll_action(&self, next: Option<u64>) -> Action {
        Action::Poll {
            timeout_ms: poll_timeout(
                self.config.io_poll_timeout_ms as int,
                self.config.timer_tick_ms as int,
                self.timers.spec_now(),
                next,
                self.notify@.len() > 0,
            ) as u64,
        }
    }

    /// A loop with the given configuration, whose timer wheel stands at
    /// `now_tick`.
    pub fn configured(config: LoopConfig, now_tick: u64) -> (l: EventLoop<T, M>)
        requires
            config.spec_valid(),
        ensures
            l.wf(),
            l.config == config,
            l.state == RunState::Initialized,
            l.registry@ == Map::<u64, Registration>::empty(),
            l.timers.spec_is_empty(),
            l.timers.spec_now() == now_tick,
            l.timers.spec_next_seq() == 0,
            l.notify@ == Seq::<M>::empty(),
            !l.notify.spec_signaled(),
    {
        EventLoop {
            config,
            state: RunState::Initialized,
            registry: Registry::new(),
            timers: TimerWheel::new(config.timer_wheel_size, now_tick),
            notify: NotifyQueue::new(config.notify_capacity),
        }
    }

    /// Binds a resource; see [`Registry::register`].
    pub fn register(&mut self, resource: u64, token: Token, interest: EventSet, opts: PollOpt) -> (r:
        Result<(), Error>)
        ensures
            old(self).registry@.contains_key(resource) ==> r == Err::<(), Error>(
                Error::AlreadyRegistered,
            ) && final(self).registry@ == old(self).registry@,
            !old(self).registry@.contains_key(resource) ==> r == Ok::<(), Error>(()) && final(self).registry@ == old(self).registry@.insert(
                resource,
                Registration { token, interest, opts },
            ),
            final(self).config == old(self).config,
            final(self).state == old(self).state,
            final(self).timers == old(self).timers,
            final(self).notify == old(self).notify,
    {
        self.registry.register(resource, token, interest, opts)
    }

    /// Arms a bound resource anew; see [`Registry::reregister`].
    pub fn reregister(&mut self, resource: u64, token: Token, interest: EventSet, opts: PollOpt) -> (r:
        Result<(), Error>)
        ensures
            !old(self).registry@.contains_key(resource) ==> r == Err::<(), Error>(
                Error::NotRegistered,
            ) && final(self).registry@ == old(self).registry@,
            old(self).registry@.contains_key(resource) ==> r == Ok::<(), Error>(()) && final(self).registry@ == old(self).registry@.insert(
                resource,
                Registration { token, interest, opts },
            ),
            final(self).config == old(self).config,
            final(self).state == old(self).state,
            final(self).timers == old(self).timers,
            final(self).notify == old(self).notify,
    {
        self.registry.reregister(resource, token, interest, opts)
    }

    /// Removes a binding; see [`Registry::deregister`].
    pub fn deregister(&mut self, resource: u64) -> (r: Result<(), Error>)
        ensures
            !old(self).registry@.contains_key(resource) ==> r == Err::<(), Error>(
                Error::NotRegistered,
            ) && final(self).registry@ == old(self).registry@,
            old(self).registry@.contains_key(resource) ==> r == Ok::<(), Error>(()) && final(self).registry@ == old(self).registry@.remove(resource),
            final(self).config == old(self).config,
            final(self).state == old(self).state,
            final(self).timers == old(self).timers,
            final(self).notify == old(self).notify,
    {
        self.registry.deregister(resource)
    }

    /// Starts the loop if it was never run. Returns whether it did: a loop
    /// that is running, draining or stopped is not started again.
    pub fn begin_run(&mut self) -> (started: bool)
        ensures
            started == (old(self).state == RunState::Initialized),
            final(self).state == old(self).state.after_run(),
            final(self).config == old(self).config,
            final(self).registry == old(self).registry,
            final(self).timers == old(self).timers,
            final(self).notify == old(self).notify,
    {
        match self.state {
            RunState::Initialized => {
                self.state = RunState::Running;
                true
            },
            _ => false,
        }
    }

    /// Asks the loop to stop. A running loop finishes the batch in hand and
    /// polls no more.
    pub fn shutdown(&mut self)
        ensures
            final(self).state == old(self).state.after_shutdown(),
            final(self).config == old(self).config,
            final(self).registry == old(self).registry,
            final(self).timers == old(self).timers,
            final(self).notify == old(self).notify,
    {
        match self.state {
            RunState::Running => {
                self.state = RunState::Draining;
            },
            _ => {},
        }
    }

    /// Takes note that the poller has failed: the run is over, and the
    /// failure is what `run` hands to its caller.
    pub fn poll_failed(&mut self) -> (e: Error)
        ensures
            e == Error::PollFailure,
            final(self).state == old(self).state.after_poll_failure(),
            final(self).config == old(self).config,
            final(self).registry == old(self).registry,
            final(self).timers == old(self).timers,
            final(self).notify == old(self).notify,
    {
        match self.state {
            RunState::Running => {
                self.state = RunState::Stopped;
            },
            RunState::Draining => {
                self.state = RunState::Stopped;
            },
            _ => {},
        }
        Error::PollFailure
    }

    /// Whether the loop is inside `run` and not yet asked to stop.
    pub fn is_running(&self) -> (b: bool)
        ensures
            b == self.state.polls(),
    {
        match self.state {
            RunState::Running => true,
            _ => false,
        }
    }

    /// What the driver does at the start of an iteration: poll, with the
    /// timeout that the waiting timers and messages allow, while the loop
    /// runs; stop otherwise. A draining loop becomes stopped.
    pub fn next_action(&mut self) -> (a: Action)
        requires
            old(self).wf(),
        ensures
            final(self).wf(),
            final(self).state == old(self).state.after_action(),
            final(self).config == old(self).config,
            final(self).registry == old(self).registry,
            final(self).timers == old(self).timers,
            final(self).notify == old(self).notify,
            !old(self).state.polls() ==> a == Action::Stop,
            old(self).state.polls() ==> exists|next: Option<u64>|
                #[trigger] old(self).timers.is_next_deadline(next) && a == old(self).poll_action(
                    next,
                ),
    {
        match self.state {
            RunState::Running => {
                let next = self.timers.next_deadline();
                let waiting: bool = !self.notify.is_empty();
                let timeout_ms = self.config.next_poll_timeout(self.timers.now(), next, waiting);
                assert(self.timers.is_next_deadline(next));
                Action::Poll { timeout_ms }
            },
            RunState::Draining => {
                self.state = RunState::Stopped;
                Action::Stop
            },
            _ => Action::Stop,
        }
    }

    /// Step one of a batch: a readiness report of the poller. Returns what
    /// the handler is told; see [`Registry::deliver`].
    pub fn on_ready(&mut self, resource: u64, ready: EventSet) -> (r: Option<(Token, EventSet)>)
        ensures
            r == delivered(old(self).registry@, resource, ready),
            final(self).registry@ == table_after_delivery(old(self).registry@, resource, ready),
            final(self).config == old(self).config,
            final(self).state == old(self).state,
            final(self).timers == old(self).timers,
            final(self).notify == old(self).notify,
    {
        self.registry.deliver(resource, ready)
    }

    /// Schedules a timer; see [`TimerWheel::schedule`].
    pub fn timeout(&mut self, deadline: u64, payload: T) -> (r: Result<TimerId, Error>)
        requires
            old(self).wf(),
            old(self).timers.spec_next_seq() < u64::MAX,
        ensures
            final(self).wf(),
            final(self).config == old(self).config,
            final(self).state == old(self).state,
            final(self).registry == old(self).registry,
            final(self).notify == old(self).notify,
            final(self).timers.spec_now() == old(self).timers.spec_now(),
            deadline >= old(self).timers.spec_now() + old(self).timers.spec_span() ==> {
                &&& r == Err::<TimerId, Error>(Error::TimerRangeExceeded)
                &&& final(self).timers@ == old(self).timers@
                &&& final(self).timers.spec_next_seq() == old(self).timers.spec_next_seq()
            },
            deadline < old(self).timers.spec_now() + old(self).timers.spec_span() ==> {
                let tick = if deadline > old(self).timers.spec_now() {
                    deadline as int
                } else {
                    old(self).timers.spec_now()
                };
                let id = TimerId {
                    seq: old(self).timers.spec_next_seq() as u64,
                    deadline: tick as u64,
                };
                let b = tick % old(self).timers.spec_span();
                &&& r == Ok::<TimerId, Error>(id)
                &&& final(self).timers@ == old(self).timers@.update(
                    b,
                    old(self).timers@[b].push((id, payload)),
                )
                &&& final(self).timers.spec_next_seq() == old(self).timers.spec_next_seq() + 1
            },
    {
        self.timers.schedule(deadline, payload)
    }

    /// Cancels a timer; see [`TimerWheel::cancel`].
    pub fn clear_timeout(&mut self, id: TimerId) -> (r: bool)
        requires
            old(self).wf(),
        ensures
            final(self).wf(),
            final(self).config == old(self).config,
            final(self).state == old(self).state,
            final(self).registry == old(self).registry,
            final(self).notify == old(self).notify,
            final(self).timers.spec_now() == old(self).timers.spec_now(),
            final(self).timers.spec_next_seq() == old(self).timers.spec_next_seq(),
            r == old(self).timers.is_pending(id),
            !final(self).timers.is_pending(id),
            !r ==> final(self).timers@ == old(self).timers@,
            r ==> exists|k: int|
                old(self).timers.holds_at(id, k) && final(self).timers@ == old(self).timers.without(id, k),
    {
        let r = self.timers.cancel(id);
        r
    }

    /// Step two of a batch: the timers that have come due at `now_tick`, in
    /// firing order; see [`TimerWheel::advance`].
    pub fn expire(&mut self, now_tick: u64) -> (fired: Vec<(TimerId, T)>)
        requires
            old(self).wf(),
        ensures
            final(self).wf(),
            final(self).config == old(self).config,
            final(self).state == old(self).state,
            final(self).registry == old(self).registry,
            final(self).notify == old(self).notify,
            fired@ == old(self).timers.due(now_tick as int),
            TimerWheel::<T>::in_firing_order(fired@),
            forall|i: int|
                0 <= i < fired@.len() ==> !final(self).timers.is_pending((#[trigger] fired@[i]).0),
            final(self).timers.spec_now() == if now_tick > old(self).timers.spec_now() {
                now_tick as int
            } else {
                old(self).timers.spec_now()
            },
            final(self).timers.spec_next_seq() == old(self).timers.spec_next_seq(),
            forall|b: int|
                0 <= b < old(self).timers.spec_span() ==> #[trigger] final(self).timers@[b] == if old(self).timers.bucket_due(b, now_tick as int) {
                    Seq::<(TimerId, T)>::empty()
                } else {
                    old(self).timers@[b]
                },
    {
        self.timers.advance(now_tick)
    }

    /// Hands a message to the loop; see [`NotifyQueue::send`].
    pub fn send(&mut self, msg: M) -> (r: Result<bool, Full<M>>)
        requires
            old(self).wf(),
        ensures
            final(self).wf(),
            final(self).config == old(self).config,
            final(self).state == old(self).state,
            final(self).registry == old(self).registry,
            final(self).timers == old(self).timers,
            final(self).notify@ == queue_after_send(
                old(self).notify@,
                old(self).config.notify_capacity as int,
                msg,
            ),
            old(self).notify@.len() >= old(self).config.notify_capacity ==> r == Err::<
                bool,
                Full<M>,
            >(Full(msg)) && final(self).notify.spec_signaled() == old(self).notify.spec_signaled(),
            old(self).notify@.len() < old(self).config.notify_capacity ==> r == Ok::<bool, Full<M>>(
                !old(self).notify.spec_signaled(),
            ) && final(self).notify.spec_signaled(),
    {
        self.notify.send(msg)
    }

    /// Step three of a batch: the messages for the handler, oldest first, no
    /// more than the configuration allows for one iteration. The rest stays
    /// queued.
    pub fn take_messages(&mut self) -> (out: Vec<M>)
        requires
            old(self).wf(),
        ensures
            final(self).wf(),
            final(self).config == old(self).config,
            final(self).state == old(self).state,
            final(self).registry == old(self).registry,
            final(self).timers == old(self).timers,
            out@ == drained(old(self).notify@, old(self).config.messages_per_tick as int),
            final(self).notify@ == left_after_drain(
                old(self).notify@,
                old(self).config.messages_per_tick as int,
            ),
            !final(self).notify.spec_signaled(),
    {
        self.notify.drain(self.config.messages_per_tick)
    }
}

} // verus!
