//! The timer wheel: one bucket per tick of the span, each bucket a FIFO of
//! the timers due at that tick.

use vstd::prelude::*;
use crate::error::Error;

verus! {

/// Names a scheduled timer: the number it was given when scheduled and the
/// tick at which it fires.
#[derive(Clone, Copy, Debug, PartialEq, Eq, Structural)]
pub struct TimerId {
    pub seq: u64,
    pub deadline: u64,
}

/// Two ticks of one window of `n` ticks that fall into the same bucket are
/// the same tick.
pub proof fn lemma_same_bucket_same_tick(a: int, b: int, lo: int, n: int)
    requires
        n > 0,
        lo <= a < lo + n,
        lo <= b < lo + n,
        a % n == b % n,
    ensures
        a == b,
{
    vstd::arithmetic::div_mod::lemma_fundamental_div_mod(a, n);
    vstd::arithmetic::div_mod::lemma_fundamental_div_mod(b, n);
    let q: int = a / n - b / n;
    assert(a - b == n * q) by (nonlinear_arith)
        requires
            a == n * (a / n) + a % n,
            b == n * (b / n) + b % n,
            a % n == b % n,
            q == a / n - b / n,
    ;
    assert(q == 0) by (nonlinear_arith)
        requires
            n > 0,
            -n < n * q < n,
    ;
}

/// A wheel of timers with payloads of type `T`.
///
/// The wheel keeps a current tick `now` and accepts deadlines in the window
/// from `now` up to, but not including, `now + span`.
pub struct TimerWheel<T> {
    buckets: Vec<Vec<(TimerId, T)>>,
    span: u64,
    now: u64,
    next_seq: u64,
}

impl<T> TimerWheel<T> {
    /// The tick the wheel was last advanced to.
    pub closed spec fn spec_now(&self) -> int {
        self.now as int
    }

    /// The number of buckets, which is the width of the window in ticks.
    pub closed spec fn spec_span(&self) -> int {
        self.span as int
    }

    /// The number that the next scheduled timer gets.
    pub closed spec fn spec_next_seq(&self) -> int {
        self.next_seq as int
    }

    /// The buckets, each as the sequence of its timers, oldest first.
    pub closed spec fn view(&self) -> Seq<Seq<(TimerId, T)>> {
        Seq::new(self.buckets@.len(), |b: int| self.buckets@[b]@)
    }

    /// The internal invariant. Every timer sits in the bucket of its
    /// deadline, every deadline lies in the window, and within a bucket the
    /// timers stand in the order in which they were scheduled.
    pub open spec fn wf(&self) -> bool {
        &&& self.spec_span() >= 1
        &&& self@.len() == self.spec_span()
        &&& 0 <= self.spec_now() <= u64::MAX
        &&& 0 <= self.spec_next_seq() <= u64::MAX
        &&& forall|b: int, k: int|
            0 <= b < self@.len() && 0 <= k < self@[b].len() ==> {
                let id = (#[trigger] self@[b][k]).0;
                &&& id.deadline as int % self.spec_span() == b
                &&& self.spec_now() <= id.deadline < self.spec_now() + self.spec_span()
                &&& id.seq < self.spec_next_seq()
            }
        &&& forall|b: int, j: int, k: int|
            0 <= b < self@.len() && 0 <= j < k < self@[b].len() ==> (#[trigger] self@[b][j]).0.seq
                < (#[trigger] self@[b][k]).0.seq
    }

    /// The timers of the buckets of the ticks `from ..= to`, tick by tick.
    pub open spec fn due_between(&self, from: int, to: int) -> Seq<(TimerId, T)>
        decreases to - from + 1,
    {
        if to < from {
            Seq::empty()
        } else {
            self.due_between(from, to - 1) + self@[to % self.spec_span()]
        }
    }

    /// The last tick whose bucket an advance to `now` empties.
    pub open spec fn last_due_tick(&self, now: int) -> int {
        if now - self.spec_now() >= self.spec_span() {
            self.spec_now() + self.spec_span() - 1
        } else {
            now
        }
    }

    /// The timers that an advance to `now` fires, in firing order.
    pub open spec fn due(&self, now: int) -> Seq<(TimerId, T)> {
        self.due_between(self.spec_now(), self.last_due_tick(now))
    }

    /// Whether bucket `b` holds timers that are due at `now`.
    pub open spec fn bucket_due(&self, b: int, now: int) -> bool {
        self@[b].len() > 0 && self@[b][0].0.deadline <= now
    }

    /// Whether the timer `id` is waiting in the wheel.
    pub open spec fn is_pending(&self, id: TimerId) -> bool {
        exists|k: int| self.holds_at(id, k)
    }

    /// Whether the timer `id` stands at place `k` of its bucket.
    pub open spec fn holds_at(&self, id: TimerId, k: int) -> bool {
        0 <= k < self@[id.deadline as int % self.spec_span()].len()
            && self@[id.deadline as int % self.spec_span()][k].0 == id
    }

    /// The buckets after the timer at place `k` of the bucket of `id` has been
    /// taken out.
    pub open spec fn without(&self, id: TimerId, k: int) -> Seq<Seq<(TimerId, T)>> {
        let b = id.deadline as int % self.spec_span();
        self@.update(b, self@[b].remove(k))
    }

    /// Whether `s` is in firing order: deadlines never fall, and among equal
    /// deadlines the timer scheduled first comes first.
    pub open spec fn in_firing_order(s: Seq<(TimerId, T)>) -> bool {
        forall|i: int, j: int|
            0 <= i < j < s.len() ==> {
                ||| (#[trigger] s[i]).0.deadline < (#[trigger] s[j]).0.deadline
                ||| s[i].0.deadline == s[j].0.deadline && s[i].0.seq < s[j].0.seq
            }
    }

    /// The timers of the ticks `from ..= to` of the window are in firing
    /// order, were all waiting, and have their deadlines among those ticks.
    pub proof fn lemma_due_between(&self, from: int, to: int)
        requires
            self.wf(),
            self.spec_now() <= from,
            to < self.spec_now() + self.spec_span(),
        ensures
            Self::in_firing_order(self.due_between(from, to)),
            forall|i: int|
                0 <= i < self.due_between(from, to).len() ==> {
                    &&& from <= (#[trigger] self.due_between(from, to)[i]).0.deadline <= to
                    &&& self.is_pending(self.due_between(from, to)[i].0)
                },
        decreases to - from + 1,
    {
        if to >= from {
            self.lemma_due_between(from, to - 1);
            let prev = self.due_between(from, to - 1);
            let b = to % self.spec_span();
            let all = self.due_between(from, to);
            assert(all == prev + self@[b]);
            assert forall|i: int| 0 <= i < all.len() implies {
                &&& from <= (#[trigger] all[i]).0.deadline <= to
                &&& self.is_pending(all[i].0)
                &&& i >= prev.len() ==> all[i].0.deadline == to
            } by {
                if i < prev.len() {
                    assert(all[i] == prev[i]);
                } else {
                    let k = i - prev.len();
                    assert(all[i] == self@[b][k]);
                    lemma_same_bucket_same_tick(
                        all[i].0.deadline as int,
                        to,
                        self.spec_now(),
                        self.spec_span(),
                    );
                    assert(self.holds_at(all[i].0, k));
                }
            }
            assert forall|i: int, j: int| 0 <= i < j < all.len() implies {
                ||| (#[trigger] all[i]).0.deadline < (#[trigger] all[j]).0.deadline
                ||| all[i].0.deadline == all[j].0.deadline && all[i].0.seq < all[j].0.seq
            } by {
                if j < prev.len() {
                    assert(all[i] == prev[i]);
                    assert(all[j] == prev[j]);
                } else if i < prev.len() {
                    assert(all[i] == prev[i]);
                } else {
                    assert(all[i] == self@[b][i - prev.len()]);
                    assert(all[j] == self@[b][j - prev.len()]);
                }
            }
        }
    }

    /// A timer that waits at a tick among `from ..= to` is among the timers
    /// of those ticks.
    pub proof fn lemma_due_between_holds(&self, from: int, to: int, b: int, k: int)
        requires
            self.wf(),
            0 <= b < self.spec_span(),
            0 <= k < self@[b].len(),
            from <= self@[b][k].0.deadline <= to,
        ensures
            self.due_between(from, to).contains(self@[b][k]),
        decreases to - from + 1,
    {
        let prev = self.due_between(from, to - 1);
        let all = self.due_between(from, to);
        let last = self@[to % self.spec_span()];
        assert(all == prev + last);
        if self@[b][k].0.deadline == to {
            assert(all[prev.len() + k] == self@[b][k]);
        } else {
            self.lemma_due_between_holds(from, to - 1, b, k);
            let i = choose|i: int| 0 <= i < prev.len() && prev[i] == self@[b][k];
            assert(all[i] == self@[b][k]);
        }
    }

    /// What an advance to `now` fires is in firing order; it holds every
    /// waiting timer whose deadline is at or before `now`, and nothing else.
    pub proof fn lemma_due(&self, now: int)
        requires
            self.wf(),
        ensures
            Self::in_firing_order(self.due(now)),
            forall|i: int|
                0 <= i < self.due(now).len() ==> (#[trigger] self.due(now)[i]).0.deadline <= now
                    && self.is_pending(self.due(now)[i].0),
            forall|b: int, k: int|
                0 <= b < self.spec_span() && 0 <= k < self@[b].len() && (
                #[trigger] self@[b][k]).0.deadline <= now ==> self.due(now).contains(self@[b][k]),
    {
        let last = self.last_due_tick(now);
        self.lemma_due_between(self.spec_now(), last);
        assert forall|b: int, k: int|
            0 <= b < self.spec_span() && 0 <= k < self@[b].len() && (
            #[trigger] self@[b][k]).0.deadline <= now implies self.due(now).contains(
            self@[b][k],
        ) by {
            self.lemma_due_between_holds(self.spec_now(), last, b, k);
        }
    }

    /// An empty wheel of `span` buckets that stands at tick `now`.
    pub fn new(span: usize, now: u64) -> (w: TimerWheel<T>)
        requires
            span >= 1,
        ensures
            w.wf(),
            w.spec_span() == span,
            w.spec_now() == now,
            w.spec_next_seq() == 0,
            forall|b: int| 0 <= b < span ==> (#[trigger] w@[b]).len() == 0,
    {
        let mut buckets: Vec<Vec<(TimerId, T)>> = Vec::new();
        let mut i: usize = 0;
        while i < span
            invariant
                i <= span,
                buckets@.len() == i,
                forall|b: int| 0 <= b < i ==> (#[trigger] buckets@[b])@.len() == 0,
            decreases span - i,
        {
            buckets.push(Vec::new());
            i += 1;
        }
        TimerWheel { buckets, span: span as u64, now, next_seq: 0 }
    }

    /// The tick the wheel was last advanced to.
    pub fn now(&self) -> (t: u64)
        ensures
            t == self.spec_now(),
    {
        self.now
    }

    /// The number of timers scheduled so far, which is the number that the
    /// next one gets.
    pub fn issued(&self) -> (n: u64)
        ensures
            n == self.spec_next_seq(),
    {
        self.next_seq
    }

    /// The width of the window in ticks.
    pub fn span(&self) -> (n: u64)
        ensures
            n == self.spec_span(),
    {
        self.span
    }

    /// Whether no timer is waiting.
    pub open spec fn spec_is_empty(&self) -> bool {
        forall|b: int| 0 <= b < self.spec_span() ==> (#[trigger] self@[b]).len() == 0
    }

    /// Whether `t` is the earliest deadline among the waiting timers.
    pub open spec fn is_earliest(&self, t: int) -> bool {
        &&& exists|b: int|
            0 <= b < self.spec_span() && (#[trigger] self@[b]).len() > 0
                && self@[b][0].0.deadline == t
        &&& forall|b: int, k: int|
            0 <= b < self.spec_span() && 0 <= k < self@[b].len() ==> (
            #[trigger] self@[b][k]).0.deadline >= t
    }

    /// Whether `next` is the earliest deadline among the waiting timers, or
    /// nothing where none waits.
    pub open spec fn is_next_deadline(&self, next: Option<u64>) -> bool {
        match next {
            Some(t) => self.is_earliest(t as int),
            None => self.spec_is_empty(),
        }
    }

    /// The earliest deadline among the waiting timers, if any waits.
    pub fn next_deadline(&self) -> (r: Option<u64>)
        requires
            self.wf(),
        ensures
            self.is_next_deadline(r),
    {
        let mut best: Option<u64> = None;
        let width: usize = self.buckets.len();
        let mut b: usize = 0;
        while b < width
            invariant
                self.wf(),
                width == self.spec_span(),
                b <= width,
                match best {
                    Some(t) => {
                        &&& exists|c: int|
                            0 <= c < b && (#[trigger] self@[c]).len() > 0
                                && self@[c][0].0.deadline == t
                        &&& forall|c: int, k: int|
                            0 <= c < b && 0 <= k < self@[c].len() ==> (
                            #[trigger] self@[c][k]).0.deadline >= t
                    },
                    None => forall|c: int| 0 <= c < b ==> (#[trigger] self@[c]).len() == 0,
                },
            decreases width - b,
        {
            if self.buckets[b].len() > 0 {
                let d: u64 = self.buckets[b][0].0.deadline;
                proof {
                    assert(self@[b as int][0].0.deadline == d);
                    assert forall|k: int| 0 <= k < self@[b as int].len() implies (
                    #[trigger] self@[b as int][k]).0.deadline == d by {
                        lemma_same_bucket_same_tick(
                            self@[b as int][k].0.deadline as int,
                            d as int,
                            self.spec_now(),
                            self.spec_span(),
                        );
                    }
                }
                let better: bool = match best {
                    Some(t) => d < t,
                    None => true,
                };
                if better {
                    best = Some(d);
                }
            }
            b += 1;
        }
        best
    }

    /// Schedules `payload` for the tick `deadline`. A deadline that has
    /// passed counts as the current tick. A deadline beyond the window is
    /// refused.
    pub fn schedule(&mut self, deadline: u64, payload: T) -> (r: Result<TimerId, Error>)
        requires
            old(self).wf(),
            old(self).spec_next_seq() < u64::MAX,
        ensures
            final(self).wf(),
            final(self).spec_now() == old(self).spec_now(),
            final(self).spec_span() == old(self).spec_span(),
            deadline >= old(self).spec_now() + old(self).spec_span() ==> {
                &&& r == Err::<TimerId, Error>(Error::TimerRangeExceeded)
                &&& final(self)@ == old(self)@
                &&& final(self).spec_next_seq() == old(self).spec_next_seq()
            },
            deadline < old(self).spec_now() + old(self).spec_span() ==> {
                let tick = if deadline > old(self).spec_now() {
                    deadline as int
                } else {
                    old(self).spec_now()
                };
                let id = TimerId { seq: old(self).spec_next_seq() as u64, deadline: tick as u64 };
                let b = tick % old(self).spec_span();
                &&& r == Ok::<TimerId, Error>(id)
                &&& final(self)@ == old(self)@.update(b, old(self)@[b].push((id, payload)))
                &&& final(self).spec_next_seq() == old(self).spec_next_seq() + 1
            },
    {
        if deadline > self.now && deadline - self.now >= self.span {
            return Err(Error::TimerRangeExceeded);
        }
        let tick: u64 = if deadline > self.now { deadline } else { self.now };
        let width: usize = self.buckets.len();
        assert(self.span as int == width);
        let b: usize = (tick % self.span) as usize;
        let id = TimerId { seq: self.next_seq, deadline: tick };
        self.buckets[b].push((id, payload));
        self.next_seq = self.next_seq + 1;
        proof {
            assert(self@ =~= old(self)@.update(b as int, old(self)@[b as int].push((id, payload))));
        }
        Ok(id)
    }

    /// Cancels the timer `id`. Returns whether it was still waiting.
    pub fn cancel(&mut self, id: TimerId) -> (r: bool)
        requires
            old(self).wf(),
        ensures
            final(self).wf(),
            final(self).spec_now() == old(self).spec_now(),
            final(self).spec_span() == old(self).spec_span(),
            final(self).spec_next_seq() == old(self).spec_next_seq(),
            r == old(self).is_pending(id),
            !r ==> final(self)@ == old(self)@,
            !final(self).is_pending(id),
            r ==> exists|k: int|
                old(self).holds_at(id, k) && final(self)@ == old(self).without(id, k),
    {
        let width: usize = self.buckets.len();
        assert(self.span as int == width);
        let b: usize = (id.deadline % self.span) as usize;
        let n: usize = self.buckets[b].len();
        let mut k: usize = 0;
        while k < n
            invariant
                self.wf(),
                *self == *old(self),
                b == id.deadline as int % self.spec_span(),
                n == self@[b as int].len(),
                k <= n,
                forall|j: int| 0 <= j < k ==> !self.holds_at(id, j),
            decreases n - k,
        {
            let found: bool = self.buckets[b][k].0.seq == id.seq && self.buckets[b][k].0.deadline
                == id.deadline;
            if found {
                let ghost before = self@;
                assert(old(self).holds_at(id, k as int));
                let _gone = self.buckets[b].remove(k);
                proof {
                    assert(self@ =~= before.update(b as int, before[b as int].remove(k as int)));
                    assert forall|j: int| !self.holds_at(id, j) by {
                        if 0 <= j < self@[b as int].len() {
                            if j < k {
                                assert(!old(self).holds_at(id, j));
                            } else {
                                assert(before[b as int][k as int].0.seq < before[b as int][j
                                    + 1].0.seq);
                            }
                        }
                    }
                }
                return true;
            }
            k += 1;
        }
        false
    }

    /// Moves the wheel to tick `now` and returns the timers whose deadline
    /// is at or before it: earlier deadlines first, and among equal
    /// deadlines the timer scheduled first. A `now` behind the wheel's own
    /// tick fires nothing and leaves the wheel as it is.
    pub fn advance(&mut self, now: u64) -> (fired: Vec<(TimerId, T)>)
        requires
            old(self).wf(),
        ensures
            final(self).wf(),
            fired@ == old(self).due(now as int),
            Self::in_firing_order(fired@),
            forall|i: int| 0 <= i < fired@.len() ==> !final(self).is_pending((#[trigger] fired@[i]).0),
            final(self).spec_now() == if now > old(self).spec_now() {
                now as int
            } else {
                old(self).spec_now()
            },
            final(self).spec_span() == old(self).spec_span(),
            final(self).spec_next_seq() == old(self).spec_next_seq(),
            forall|b: int|
                0 <= b < old(self).spec_span() ==> #[trigger] final(self)@[b] == if old(self).bucket_due(b, now as int) {
                    Seq::<(TimerId, T)>::empty()
                } else {
                    old(self)@[b]
                },
    {
        let mut fired: Vec<(TimerId, T)> = Vec::new();
        proof {
            self.lemma_due(now as int);
        }
        if now < self.now {
            return fired;
        }
        let start: u64 = self.now;
        let span: u64 = self.span;
        let last: u64 = if now - start >= span { start + (span - 1) } else { now };
        let count: u64 = last - start + 1;
        let mut i: u64 = 0;
        while i < count
            invariant
                old(self).wf(),
                start == old(self).spec_now(),
                span == old(self).spec_span(),
                last == old(self).last_due_tick(now as int),
                count == last - start + 1,
                count <= span,
                i <= count,
                self.span == span,
                self.now == start,
                self.next_seq == old(self).next_seq,
                self@.len() == span,
                fired@ == old(self).due_between(start as int, start + i - 1),
                forall|b: int|
                    0 <= b < span ==> #[trigger] self@[b] == if old(self)@[b].len() > 0 && old(self)@[b][0].0.deadline < start + i {
                        Seq::<(TimerId, T)>::empty()
                    } else {
                        old(self)@[b]
                    },
            decreases count - i,
        {
            let t: u64 = start + i;
            let width: usize = self.buckets.len();
            assert(span as int == width);
            let b: usize = (t % span) as usize;
            let ghost before = self@;
            let mut taken: Vec<(TimerId, T)> = Vec::new();
            core::mem::swap(&mut self.buckets[b], &mut taken);
            fired.append(&mut taken);
            proof {
                assert(self@ =~= before.update(b as int, Seq::empty()));
                if old(self)@[b as int].len() > 0 {
                    let d = old(self)@[b as int][0].0.deadline;
                    lemma_same_bucket_same_tick(d as int, t as int, start as int, span as int);
                }
                assert(before[b as int] == old(self)@[b as int]);
                assert forall|c: int| 0 <= c < span implies #[trigger] self@[c] == if old(self)@[c].len()
                    > 0 && old(self)@[c][0].0.deadline < start + i + 1 {
                    Seq::<(TimerId, T)>::empty()
                } else {
                    old(self)@[c]
                } by {
                    if c != b {
                        assert(self@[c] == before[c]);
                        if old(self)@[c].len() > 0 {
                            assert(old(self)@[c][0].0.deadline as int % (span as int) == c);
                        }
                    }
                }
            }
            i = i + 1;
        }
        self.now = now;
        proof {
            assert forall|b: int, k: int| 0 <= b < self@.len() && 0 <= k < self@[b].len() implies {
                let id = (#[trigger] self@[b][k]).0;
                &&& id.deadline as int % self.spec_span() == b
                &&& self.spec_now() <= id.deadline < self.spec_now() + self.spec_span()
                &&& id.seq < self.spec_next_seq()
            } by {
                assert(self@[b] == old(self)@[b]);
                let id0 = old(self)@[b][0].0;
                let id = old(self)@[b][k].0;
                lemma_same_bucket_same_tick(
                    id0.deadline as int,
                    id.deadline as int,
                    start as int,
                    span as int,
                );
            }
            assert forall|b: int| 0 <= b < old(self).spec_span() implies #[trigger] self@[b] == if old(self).bucket_due(b, now as int) {
                Seq::<(TimerId, T)>::empty()
            } else {
                old(self)@[b]
            } by {
                if old(self)@[b].len() > 0 {
                    let id0 = old(self)@[b][0].0;
                    assert(start <= id0.deadline < start + span);
                }
            }
            assert forall|i: int| 0 <= i < fired@.len() implies !self.is_pending(
                (#[trigger] fired@[i]).0,
            ) by {
                let id = fired@[i].0;
                let b = id.deadline as int % old(self).spec_span();
                assert(old(self).is_pending(id));
                let k = choose|k: int| old(self).holds_at(id, k);
                assert(old(self).holds_at(id, k));
                lemma_same_bucket_same_tick(
                    old(self)@[b][0].0.deadline as int,
                    old(self)@[b][k].0.deadline as int,
                    start as int,
                    span as int,
                );
                assert(old(self).bucket_due(b, now as int));
                assert(self@[b] == Seq::<(TimerId, T)>::empty());
                assert forall|j: int| !self.holds_at(id, j) by {}
            }
        }
        fired
    }
}

} // verus!
