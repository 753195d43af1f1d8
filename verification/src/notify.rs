//! The notify queue: a bounded FIFO through which other threads hand
//! messages to the reactor, with the bookkeeping that coalesces wake-ups.

use vstd::prelude::*;
use std::collections::VecDeque;

verus! {

/// The queue after an attempt to send `msg`: the message goes to the back
/// unless the queue already holds `capacity` messages.
pub open spec fn queue_after_send<M>(queue: Seq<M>, capacity: int, msg: M) -> Seq<M> {
    if queue.len() < capacity {
        queue.push(msg)
    } else {
        queue
    }
}

/// The queue after an attempt to send each of `msgs` in turn.
pub open spec fn queue_after_sends<M>(queue: Seq<M>, capacity: int, msgs: Seq<M>) -> Seq<M>
    decreases msgs.len(),
{
    if msgs.len() == 0 {
        queue
    } else {
        queue_after_send(
            queue_after_sends(queue, capacity, msgs.drop_last()),
            capacity,
            msgs.last(),
        )
    }
}

/// The number of messages that a drain of at most `max` takes from `queue`.
pub open spec fn drain_count<M>(queue: Seq<M>, max: int) -> int {
    if queue.len() <= max {
        queue.len() as int
    } else if max < 0 {
        0
    } else {
        max
    }
}

/// The messages that a drain of at most `max` takes from `queue`.
pub open spec fn drained<M>(queue: Seq<M>, max: int) -> Seq<M> {
    queue.subrange(0, drain_count(queue, max))
}

/// The messages that a drain of at most `max` leaves in `queue`.
pub open spec fn left_after_drain<M>(queue: Seq<M>, max: int) -> Seq<M> {
    queue.subrange(drain_count(queue, max), queue.len() as int)
}

/// Messages sent to an empty queue, no more of them than it can hold, are
/// all accepted; one drain then hands out exactly those messages, each once
/// and in the order sent, and leaves the queue empty. A further message sent
/// to a queue that holds `capacity` messages changes nothing.
pub proof fn lemma_sends_then_drain<M>(capacity: int, msgs: Seq<M>, extra: M)
    requires
        msgs.len() <= capacity,
    ensures
        queue_after_sends(Seq::<M>::empty(), capacity, msgs) == msgs,
        drained(msgs, msgs.len() as int) == msgs,
        left_after_drain(msgs, msgs.len() as int) == Seq::<M>::empty(),
        msgs.len() == capacity ==> queue_after_send(msgs, capacity, extra) == msgs,
    decreases msgs.len(),
{
    if msgs.len() > 0 {
        lemma_sends_then_drain(capacity, msgs.drop_last(), extra);
        assert(msgs.drop_last().push(msgs.last()) =~= msgs);
    } else {
        assert(queue_after_sends(Seq::<M>::empty(), capacity, msgs) =~= msgs);
    }
    assert(drained(msgs, msgs.len() as int) =~= msgs);
    assert(left_after_drain(msgs, msgs.len() as int) =~= Seq::<M>::empty());
}

/// A drain splits the queue in two: what it hands out followed by what it
/// leaves is the queue as it was. Nothing is lost, doubled or reordered.
pub proof fn lemma_drain_splits<M>(queue: Seq<M>, max: int)
    ensures
        drained(queue, max) + left_after_drain(queue, max) == queue,
        drained(queue, max).len() <= if max < 0 { 0 } else { max },
{
    assert(drained(queue, max) + left_after_drain(queue, max) =~= queue);
}

/// The error of a send to a saturated queue. It carries the message back to
/// the sender.
#[derive(Debug, PartialEq, Eq)]
pub struct Full<M>(pub M);

impl<M> Full<M> {
    /// The message that the queue did not take.
    pub fn into_message(self) -> (m: M)
        ensures
            m == self.0,
    {
        self.0
    }
}

/// The consumer's side of the notify channel.
pub struct NotifyQueue<M> {
    queue: VecDeque<M>,
    capacity: usize,
    signaled: bool,
}

impl<M> NotifyQueue<M> {
    /// The messages waiting, oldest first.
    pub closed spec fn view(&self) -> Seq<M> {
        self.queue@
    }

    /// The most messages the queue holds.
    pub closed spec fn spec_capacity(&self) -> int {
        self.capacity as int
    }

    /// Whether a wake-up has been asked for since the last drain.
    pub closed spec fn spec_signaled(&self) -> bool {
        self.signaled
    }

    /// The internal invariant: the queue never holds more than its capacity.
    pub open spec fn wf(&self) -> bool {
        self@.len() <= self.spec_capacity()
    }

    /// An empty queue that holds at most `capacity` messages.
    pub fn new(capacity: usize) -> (q: NotifyQueue<M>)
        ensures
            q.wf(),
            q@ == Seq::<M>::empty(),
            q.spec_capacity() == capacity,
            !q.spec_signaled(),
    {
        NotifyQueue { queue: VecDeque::new(), capacity, signaled: false }
    }

    /// The number of messages waiting.
    pub fn len(&self) -> (n: usize)
        ensures
            n == self@.len(),
    {
        self.queue.len()
    }

    /// Whether no message is waiting.
    pub fn is_empty(&self) -> (b: bool)
        ensures
            b == (self@.len() == 0),
    {
        self.queue.len() == 0
    }

    /// The most messages the queue holds.
    pub fn capacity(&self) -> (n: usize)
        ensures
            n == self.spec_capacity(),
    {
        self.capacity
    }

    /// Puts `msg` at the back of the queue. A full queue refuses the message
    /// and hands it back in the error. On success the result says whether the poller has to be woken:
    /// it has unless a wake-up was already asked for since the last drain.
    pub fn send(&mut self, msg: M) -> (r: Result<bool, Full<M>>)
        requires
            old(self).wf(),
        ensures
            final(self).wf(),
            final(self).spec_capacity() == old(self).spec_capacity(),
            final(self)@ == queue_after_send(old(self)@, old(self).spec_capacity(), msg),
            old(self)@.len() >= old(self).spec_capacity() ==> r == Err::<bool, Full<M>>(Full(msg))
                && final(self).spec_signaled() == old(self).spec_signaled(),
            old(self)@.len() < old(self).spec_capacity() ==> r == Ok::<bool, Full<M>>(
                !old(self).spec_signaled(),
            ) && final(self).spec_signaled(),
    {
        if self.queue.len() >= self.capacity {
            return Err(Full(msg));
        }
        self.queue.push_back(msg);
        let wake: bool = !self.signaled;
        self.signaled = true;
        Ok(wake)
    }

    /// Takes up to `max` messages from the front of the queue, oldest first,
    /// and forgets that a wake-up was asked for.
    pub fn drain(&mut self, max: usize) -> (out: Vec<M>)
        requires
            old(self).wf(),
        ensures
            final(self).wf(),
            final(self).spec_capacity() == old(self).spec_capacity(),
            out@ == drained(old(self)@, max as int),
            final(self)@ == left_after_drain(old(self)@, max as int),
            !final(self).spec_signaled(),
    {
        let mut out: Vec<M> = Vec::new();
        let total: usize = self.queue.len();
        let count: usize = if total <= max { total } else { max };
        let mut i: usize = 0;
        while i < count
            invariant
                i <= count <= total,
                total == old(self)@.len(),
                count == drain_count(old(self)@, max as int),
                self.capacity == old(self).capacity,
                out@ == old(self)@.subrange(0, i as int),
                self.queue@ == old(self)@.subrange(i as int, total as int),
            decreases count - i,
        {
            let front = self.queue.pop_front();
            match front {
                Some(m) => {
                    out.push(m);
                },
                None => {
                    assert(false);
                },
            }
            i += 1;
            proof {
                assert(out@ =~= old(self)@.subrange(0, i as int));
                assert(self.queue@ =~= old(self)@.subrange(i as int, total as int));
            }
        }
        self.signaled = false;
        out
    }
}

} // verus!
