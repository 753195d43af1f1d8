//! Tokens, interest sets and trigger modes.

use vstd::prelude::*;

verus! {

/// Identifies a registered resource inside one reactor.
#[derive(Clone, Copy, Debug, PartialEq, Eq, Structural, Hash)]
pub struct Token(pub usize);

impl Token {
    /// The token's number.
    pub fn as_usize(self) -> (n: usize)
        ensures
            n == self.0,
    {
        self.0
    }
}

/// A set over the three readiness kinds: readable, writable, hangup.
#[derive(Clone, Copy, Debug, PartialEq, Eq, Structural)]
pub struct EventSet {
    pub readable: bool,
    pub writable: bool,
    pub hup: bool,
}

impl EventSet {
    /// The empty set.
    pub fn none() -> (i: EventSet)
        ensures
            i == (EventSet { readable: false, writable: false, hup: false }),
    {
        EventSet { readable: false, writable: false, hup: false }
    }

    /// The set that holds readable alone.
    pub fn readable() -> (i: EventSet)
        ensures
            i == (EventSet { readable: true, writable: false, hup: false }),
    {
        EventSet { readable: true, writable: false, hup: false }
    }

    /// The set that holds writable alone.
    pub fn writable() -> (i: EventSet)
        ensures
            i == (EventSet { readable: false, writable: true, hup: false }),
    {
        EventSet { readable: false, writable: true, hup: false }
    }

    /// The set that holds hangup alone.
    pub fn hup() -> (i: EventSet)
        ensures
            i == (EventSet { readable: false, writable: false, hup: true }),
    {
        EventSet { readable: false, writable: false, hup: true }
    }

    /// The set of all three kinds.
    pub fn all() -> (i: EventSet)
        ensures
            i == (EventSet { readable: true, writable: true, hup: true }),
    {
        EventSet { readable: true, writable: true, hup: true }
    }

    /// The kinds in either set.
    pub open spec fn spec_union(self, other: EventSet) -> EventSet {
        EventSet {
            readable: self.readable || other.readable,
            writable: self.writable || other.writable,
            hup: self.hup || other.hup,
        }
    }

    /// The kinds in both sets.
    pub open spec fn spec_intersection(self, other: EventSet) -> EventSet {
        EventSet {
            readable: self.readable && other.readable,
            writable: self.writable && other.writable,
            hup: self.hup && other.hup,
        }
    }

    /// The kinds of `self` that `other` lacks.
    pub open spec fn spec_difference(self, other: EventSet) -> EventSet {
        EventSet {
            readable: self.readable && !other.readable,
            writable: self.writable && !other.writable,
            hup: self.hup && !other.hup,
        }
    }

    /// No kind at all.
    pub open spec fn spec_is_none(self) -> bool {
        !self.readable && !self.writable && !self.hup
    }

    /// Every kind of `other` is in `self`.
    pub open spec fn spec_contains(self, other: EventSet) -> bool {
        (other.readable ==> self.readable) && (other.writable ==> self.writable) && (other.hup
            ==> self.hup)
    }

    /// Whether the set is empty.
    pub fn is_none(&self) -> (b: bool)
        ensures
            b == self.spec_is_none(),
    {
        !self.readable && !self.writable && !self.hup
    }

    /// Whether readable is in the set.
    pub fn is_readable(&self) -> (b: bool)
        ensures
            b == self.readable,
    {
        self.readable
    }

    /// Whether writable is in the set.
    pub fn is_writable(&self) -> (b: bool)
        ensures
            b == self.writable,
    {
        self.writable
    }

    /// Whether hangup is in the set.
    pub fn is_hup(&self) -> (b: bool)
        ensures
            b == self.hup,
    {
        self.hup
    }

    /// Whether every kind of `other` is in the set.
    pub fn contains(&self, other: EventSet) -> (b: bool)
        ensures
            b == self.spec_contains(other),
    {
        (!other.readable || self.readable) && (!other.writable || self.writable) && (!other.hup
            || self.hup)
    }

    /// The union of two sets.
    pub fn union(self, other: EventSet) -> (i: EventSet)
        ensures
            i == self.spec_union(other),
    {
        EventSet {
            readable: self.readable || other.readable,
            writable: self.writable || other.writable,
            hup: self.hup || other.hup,
        }
    }

    /// The intersection of two sets.
    pub fn intersection(self, other: EventSet) -> (i: EventSet)
        ensures
            i == self.spec_intersection(other),
    {
        EventSet {
            readable: self.readable && other.readable,
            writable: self.writable && other.writable,
            hup: self.hup && other.hup,
        }
    }

    /// The kinds of `self` that are not in `other`.
    pub fn difference(self, other: EventSet) -> (i: EventSet)
        ensures
            i == self.spec_difference(other),
    {
        EventSet {
            readable: self.readable && !other.readable,
            writable: self.writable && !other.writable,
            hup: self.hup && !other.hup,
        }
    }

    /// Adds the kinds of `other` to the set.
    pub fn insert(&mut self, other: EventSet)
        ensures
            *final(self) == old(self).spec_union(other),
    {
        *self = self.union(other);
    }

    /// Takes the kinds of `other` out of the set.
    pub fn remove(&mut self, other: EventSet)
        ensures
            *final(self) == old(self).spec_difference(other),
    {
        *self = self.difference(other);
    }
}

/// How readiness is reported: level- or edge-triggered, with or without the
/// oneshot modifier.
#[derive(Clone, Copy, Debug, PartialEq, Eq, Structural)]
pub struct PollOpt {
    pub edge: bool,
    pub oneshot: bool,
}

impl PollOpt {
    /// Level-triggered, no oneshot.
    pub fn level() -> (o: PollOpt)
        ensures
            o == (PollOpt { edge: false, oneshot: false }),
    {
        PollOpt { edge: false, oneshot: false }
    }

    /// Edge-triggered, no oneshot.
    pub fn edge() -> (o: PollOpt)
        ensures
            o == (PollOpt { edge: true, oneshot: false }),
    {
        PollOpt { edge: true, oneshot: false }
    }

    /// The oneshot modifier alone.
    pub fn oneshot() -> (o: PollOpt)
        ensures
            o == (PollOpt { edge: false, oneshot: true }),
    {
        PollOpt { edge: false, oneshot: true }
    }

    /// Both options combined.
    pub open spec fn spec_union(self, other: PollOpt) -> PollOpt {
        PollOpt { edge: self.edge || other.edge, oneshot: self.oneshot || other.oneshot }
    }

    /// Combines two option sets.
    pub fn union(self, other: PollOpt) -> (o: PollOpt)
        ensures
            o == self.spec_union(other),
    {
        PollOpt { edge: self.edge || other.edge, oneshot: self.oneshot || other.oneshot }
    }

    /// Whether readiness is edge-triggered.
    pub fn is_edge(&self) -> (b: bool)
        ensures
            b == self.edge,
    {
        self.edge
    }

    /// Whether readiness is level-triggered.
    pub fn is_level(&self) -> (b: bool)
        ensures
            b == !self.edge,
    {
        !self.edge
    }

    /// Whether the oneshot modifier is set.
    pub fn is_oneshot(&self) -> (b: bool)
        ensures
            b == self.oneshot,
    {
        self.oneshot
    }
}

} // verus!
