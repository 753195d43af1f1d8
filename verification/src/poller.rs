//! The registration table of the poller: which resource is bound to which
//! token, with what interest and trigger mode, and what a readiness report
//! from the operating system amounts to under the rearm protocol.

use vstd::prelude::*;
use std::collections::HashMap;
use crate::error::Error;
use crate::token::{EventSet, PollOpt, Token};

verus! {

broadcast use vstd::std_specs::hash::group_hash_axioms;

/// What is known of a bound resource.
#[derive(Clone, Copy, Debug, PartialEq, Eq, Structural)]
pub struct Registration {
    pub token: Token,
    pub interest: EventSet,
    pub opts: PollOpt,
}

/// The kinds that a report of `ready` delivers to a binding: those it is
/// armed for.
pub open spec fn fired(reg: Registration, ready: EventSet) -> EventSet {
    ready.spec_intersection(reg.interest)
}

/// The binding after a report of `ready`: a oneshot binding loses the kinds
/// that were delivered, another stays as it was.
pub open spec fn after_delivery(reg: Registration, ready: EventSet) -> Registration {
    if reg.opts.oneshot {
        Registration {
            token: reg.token,
            interest: reg.interest.spec_difference(fired(reg, ready)),
            opts: reg.opts,
        }
    } else {
        reg
    }
}

/// What the handler is told when the operating system reports `ready` for
/// `resource`: the resource's token and the kinds delivered, or nothing
/// where the resource is not bound or is armed for none of the kinds.
pub open spec fn delivered(
    table: Map<u64, Registration>,
    resource: u64,
    ready: EventSet,
) -> Option<(Token, EventSet)> {
    if table.contains_key(resource) && !fired(table[resource], ready).spec_is_none() {
        Some((table[resource].token, fired(table[resource], ready)))
    } else {
        None
    }
}

/// The table after the operating system reported `ready` for `resource`.
pub open spec fn table_after_delivery(
    table: Map<u64, Registration>,
    resource: u64,
    ready: EventSet,
) -> Map<u64, Registration> {
    if table.contains_key(resource) && !fired(table[resource], ready).spec_is_none() {
        table.insert(resource, after_delivery(table[resource], ready))
    } else {
        table
    }
}

/// The table after a run of reports, each a resource and the kinds reported
/// ready for it.
pub open spec fn table_after_reports(
    table: Map<u64, Registration>,
    reports: Seq<(u64, EventSet)>,
) -> Map<u64, Registration>
    decreases reports.len(),
{
    if reports.len() == 0 {
        table
    } else {
        table_after_delivery(
            table_after_reports(table, reports.drop_last()),
            reports.last().0,
            reports.last().1,
        )
    }
}

/// Whether `resource`, if bound at all, is armed for none of `kinds`.
pub open spec fn disarmed(table: Map<u64, Registration>, resource: u64, kinds: EventSet) -> bool {
    table.contains_key(resource) ==> table[resource].interest.spec_intersection(
        kinds,
    ).spec_is_none()
}

/// A report never arms anything: a resource that is armed for none of
/// `kinds` stays so through any run of reports, and no report in the run
/// delivers one of `kinds` for it.
pub proof fn lemma_reports_keep_disarmed(
    table: Map<u64, Registration>,
    resource: u64,
    kinds: EventSet,
    reports: Seq<(u64, EventSet)>,
)
    requires
        disarmed(table, resource, kinds),
    ensures
        disarmed(table_after_reports(table, reports), resource, kinds),
        forall|ready: EventSet|
            match #[trigger] delivered(table_after_reports(table, reports), resource, ready) {
                Some(d) => d.1.spec_intersection(kinds).spec_is_none(),
                None => true,
            },
    decreases reports.len(),
{
    if reports.len() > 0 {
        lemma_reports_keep_disarmed(table, resource, kinds, reports.drop_last());
    }
}

/// The oneshot rule. Once a report has delivered some kinds for a oneshot
/// binding, no later report delivers any of those kinds for that resource,
/// however many reports follow, as long as the resource is not registered
/// anew.
pub proof fn lemma_oneshot_silent_until_rearmed(
    table: Map<u64, Registration>,
    resource: u64,
    ready: EventSet,
    later: Seq<(u64, EventSet)>,
    again: EventSet,
)
    requires
        table.contains_key(resource),
        table[resource].opts.oneshot,
    ensures
        match delivered(
            table_after_reports(table_after_delivery(table, resource, ready), later),
            resource,
            again,
        ) {
            Some(d) => d.1.spec_intersection(fired(table[resource], ready)).spec_is_none(),
            None => true,
        },
{
    let first = fired(table[resource], ready);
    let next = table_after_delivery(table, resource, ready);
    assert(disarmed(next, resource, first));
    lemma_reports_keep_disarmed(next, resource, first, later);
}

/// The registration table, keyed by the resource's number (its descriptor).
pub struct Registry {
    bindings: HashMap<u64, Registration>,
}

impl Registry {
    /// The table as a map from resource numbers to registrations.
    pub closed spec fn view(&self) -> Map<u64, Registration> {
        self.bindings@
    }

    /// An empty table.
    pub fn new() -> (r: Registry)
        ensures
            r@ == Map::<u64, Registration>::empty(),
    {
        Registry { bindings: HashMap::new() }
    }

    /// The registration of `resource`, if it is bound.
    pub fn lookup(&self, resource: u64) -> (r: Option<Registration>)
        ensures
            r == if self@.contains_key(resource) {
                Some(self@[resource])
            } else {
                None
            },
    {
        match self.bindings.get(&resource) {
            Some(reg) => Some(*reg),
            None => None,
        }
    }

    /// Binds `resource` to `token` with the given interest and trigger mode.
    /// Fails where the resource is bound already.
    pub fn register(&mut self, resource: u64, token: Token, interest: EventSet, opts: PollOpt) -> (r:
        Result<(), Error>)
        ensures
            old(self)@.contains_key(resource) ==> r == Err::<(), Error>(Error::AlreadyRegistered)
                && final(self)@ == old(self)@,
            !old(self)@.contains_key(resource) ==> r == Ok::<(), Error>(()) && final(self)@ == old(self)@.insert(resource, Registration { token, interest, opts }),
    {
        if self.bindings.contains_key(&resource) {
            return Err(Error::AlreadyRegistered);
        }
        self.bindings.insert(resource, Registration { token, interest, opts });
        Ok(())
    }

    /// Replaces the token, interest and trigger mode of a bound resource;
    /// this is what arms a oneshot binding again. Fails where the resource
    /// is not bound.
    pub fn reregister(&mut self, resource: u64, token: Token, interest: EventSet, opts: PollOpt) -> (r:
        Result<(), Error>)
        ensures
            !old(self)@.contains_key(resource) ==> r == Err::<(), Error>(Error::NotRegistered)
                && final(self)@ == old(self)@,
            old(self)@.contains_key(resource) ==> r == Ok::<(), Error>(()) && final(self)@ == old(self)@.insert(resource, Registration { token, interest, opts }),
    {
        if !self.bindings.contains_key(&resource) {
            return Err(Error::NotRegistered);
        }
        self.bindings.insert(resource, Registration { token, interest, opts });
        Ok(())
    }

    /// Removes the binding of `resource`. Fails where the resource is not
    /// bound.
    pub fn deregister(&mut self, resource: u64) -> (r: Result<(), Error>)
        ensures
            !old(self)@.contains_key(resource) ==> r == Err::<(), Error>(Error::NotRegistered)
                && final(self)@ == old(self)@,
            old(self)@.contains_key(resource) ==> r == Ok::<(), Error>(()) && final(self)@ == old(self)@.remove(resource),
    {
        if !self.bindings.contains_key(&resource) {
            return Err(Error::NotRegistered);
        }
        self.bindings.remove(&resource);
        Ok(())
    }

    /// Takes a readiness report of the operating system for `resource` and
    /// returns what the handler is to be told, if anything. A oneshot
    /// binding is disarmed for the kinds delivered.
    pub fn deliver(&mut self, resource: u64, ready: EventSet) -> (r: Option<(Token, EventSet)>)
        ensures
            r == delivered(old(self)@, resource, ready),
            final(self)@ == table_after_delivery(old(self)@, resource, ready),
    {
        let reg = match self.lookup(resource) {
            Some(reg) => reg,
            None => {
                return None;
            },
        };
        let hit = ready.intersection(reg.interest);
        if hit.is_none() {
            return None;
        }
        if reg.opts.oneshot {
            let rest = Registration {
                token: reg.token,
                interest: reg.interest.difference(hit),
                opts: reg.opts,
            };
            self.bindings.insert(resource, rest);
        } else {
            assert(self@ =~= self@.insert(resource, reg));
        }
        Some((reg.token, hit))
    }
}

} // verus!
