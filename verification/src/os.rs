//! The seam to mio, which speaks to the operating system's poller: the
//! library's interest sets become mio's, and mio's events become the
//! readiness reports that the registration table takes.
//!
//! mio's values are opaque here. What is said of them is said through the
//! names below, each of which stands for the result of one of mio's
//! accessors; none of it is proved.

use vstd::prelude::*;
use crate::token::EventSet;

verus! {

/// mio's interest set, carried through as it is.
#[verifier::external_type_specification]
#[verifier::external_body]
pub struct ExMioInterest(mio::Interest);

/// mio's readiness event, carried through as it is.
#[verifier::external_type_specification]
#[verifier::external_body]
pub struct ExMioEvent(mio::event::Event);

/// What `mio::Interest::is_readable` returns for `i`.
pub uninterp spec fn mio_interest_readable(i: mio::Interest) -> bool;

/// What `mio::Interest::is_writable` returns for `i`.
pub uninterp spec fn mio_interest_writable(i: mio::Interest) -> bool;

/// The number in the token that `mio::event::Event::token` returns for `ev`.
pub uninterp spec fn mio_event_token(ev: mio::event::Event) -> usize;

/// What `mio::event::Event::is_readable` returns for `ev`.
pub uninterp spec fn mio_event_readable(ev: mio::event::Event) -> bool;

/// What `mio::event::Event::is_writable` returns for `ev`.
pub uninterp spec fn mio_event_writable(ev: mio::event::Event) -> bool;

/// What `mio::event::Event::is_read_closed` returns for `ev`.
pub uninterp spec fn mio_event_read_closed(ev: mio::event::Event) -> bool;

/// What `mio::event::Event::is_write_closed` returns for `ev`.
pub uninterp spec fn mio_event_write_closed(ev: mio::event::Event) -> bool;

/// `mio::Interest::READABLE`. Trusted: mio's `is_readable` holds of it and
/// `is_writable` does not, as its one bit shows.
#[verifier::external_body]
fn mio_readable() -> (r: mio::Interest)
    ensures
        mio_interest_readable(r),
        !mio_interest_writable(r),
{
    mio::Interest::READABLE
}

/// `mio::Interest::WRITABLE`. Trusted: mio's `is_writable` holds of it and
/// `is_readable` does not, as its one bit shows.
#[verifier::external_body]
fn mio_writable() -> (r: mio::Interest)
    ensures
        mio_interest_writable(r),
        !mio_interest_readable(r),
{
    mio::Interest::WRITABLE
}

/// `mio::Interest::add`. Trusted: the sum is readable where either part
/// is, and writable where either part is; mio joins the two bit sets.
#[verifier::external_body]
fn mio_add(a: mio::Interest, b: mio::Interest) -> (r: mio::Interest)
    ensures
        mio_interest_readable(r) == (mio_interest_readable(a) || mio_interest_readable(b)),
        mio_interest_writable(r) == (mio_interest_writable(a) || mio_interest_writable(b)),
{
    a.add(b)
}

/// `mio::Interest::is_readable`. Trusted: the result is the one named.
#[verifier::external_body]
fn mio_is_readable(i: mio::Interest) -> (b: bool)
    ensures
        b == mio_interest_readable(i),
{
    i.is_readable()
}

/// `mio::Interest::is_writable`. Trusted: the result is the one named.
#[verifier::external_body]
fn mio_is_writable(i: mio::Interest) -> (b: bool)
    ensures
        b == mio_interest_writable(i),
{
    i.is_writable()
}

/// `mio::event::Event::token`. Trusted: the result is the number of the
/// token that mio stored in the event.
#[verifier::external_body]
fn event_token(ev: &mio::event::Event) -> (n: usize)
    ensures
        n == mio_event_token(*ev),
{
    ev.token().0
}

/// `mio::event::Event::is_readable`. Trusted: the result is the one named.
#[verifier::external_body]
fn event_readable(ev: &mio::event::Event) -> (b: bool)
    ensures
        b == mio_event_readable(*ev),
{
    ev.is_readable()
}

/// `mio::event::Event::is_writable`. Trusted: the result is the one named.
#[verifier::external_body]
fn event_writable(ev: &mio::event::Event) -> (b: bool)
    ensures
        b == mio_event_writable(*ev),
{
    ev.is_writable()
}

/// `mio::event::Event::is_read_closed`. Trusted: the result is the one
/// named.
#[verifier::external_body]
fn event_read_closed(ev: &mio::event::Event) -> (b: bool)
    ensures
        b == mio_event_read_closed(*ev),
{
    ev.is_read_closed()
}

/// `mio::event::Event::is_write_closed`. Trusted: the result is the one
/// named.
#[verifier::external_body]
fn event_write_closed(ev: &mio::event::Event) -> (b: bool)
    ensures
        b == mio_event_write_closed(*ev),
{
    ev.is_write_closed()
}

/// The interest set to hand to mio for `interest`. mio knows readable and
/// writable only and has no empty set: there is a result exactly where one
/// of the two is asked for, and it is readable and writable as `interest`
/// is. Hangup needs no asking; mio reports it unasked.
pub fn to_mio(interest: EventSet) -> (r: Option<mio::Interest>)
    ensures
        r is Some <==> (interest.readable || interest.writable),
        r is Some ==> mio_interest_readable(r->Some_0) == interest.readable
            && mio_interest_writable(r->Some_0) == interest.writable,
{
    if interest.readable && interest.writable {
        Some(mio_add(mio_readable(), mio_writable()))
    } else if interest.readable {
        Some(mio_readable())
    } else if interest.writable {
        Some(mio_writable())
    } else {
        None
    }
}

/// What the driver asks of mio's poller for one resource.
pub enum PollerCall {
    /// Add the resource to the poller with this interest.
    Register(mio::Interest),
    /// Give the resource, which the poller holds, this interest anew.
    Reregister(mio::Interest),
    /// Take the resource out of the poller.
    Deregister,
    /// Leave the poller as it is.
    Nothing,
}

/// Whether `interest` asks for anything that mio can be asked for.
pub open spec fn asks_mio(interest: EventSet) -> bool {
    interest.readable || interest.writable
}

/// Whether mio's `asked` is readable and writable as `interest` is.
pub open spec fn mio_matches(asked: mio::Interest, interest: EventSet) -> bool {
    mio_interest_readable(asked) == interest.readable && mio_interest_writable(asked)
        == interest.writable
}

/// The call on mio's poller that arms a resource with `interest`, given
/// whether the poller holds the resource. A resource that asks for readable
/// or writable is registered, or registered anew where the poller holds it
/// already. One that asks for neither is taken out of the poller, since mio
/// has no empty interest; nothing is asked of the poller on its behalf.
pub fn poller_call(interest: EventSet, in_poller: bool) -> (c: PollerCall)
    ensures
        match c {
            PollerCall::Register(asked) => !in_poller && asks_mio(interest) && mio_matches(
                asked,
                interest,
            ),
            PollerCall::Reregister(asked) => in_poller && asks_mio(interest) && mio_matches(
                asked,
                interest,
            ),
            PollerCall::Deregister => in_poller && !asks_mio(interest),
            PollerCall::Nothing => !in_poller && !asks_mio(interest),
        },
{
    match to_mio(interest) {
        Some(asked) => if in_poller {
            PollerCall::Reregister(asked)
        } else {
            PollerCall::Register(asked)
        },
        None => if in_poller {
            PollerCall::Deregister
        } else {
            PollerCall::Nothing
        },
    }
}

/// The library's interest set for one of mio's: readable and writable as
/// mio's is, without hangup.
pub fn from_mio(interest: mio::Interest) -> (r: EventSet)
    ensures
        r == (EventSet {
            readable: mio_interest_readable(interest),
            writable: mio_interest_writable(interest),
            hup: false,
        }),
{
    EventSet {
        readable: mio_is_readable(interest),
        writable: mio_is_writable(interest),
        hup: false,
    }
}

/// The readiness report for given flags of an event: hangup stands for a
/// side of the stream that was closed, the reading or the writing one.
pub open spec fn readiness(
    readable: bool,
    writable: bool,
    read_closed: bool,
    write_closed: bool,
) -> EventSet {
    EventSet { readable, writable, hup: read_closed || write_closed }
}

/// Puts an event's flags together to the kinds that are ready.
pub fn readiness_of(readable: bool, writable: bool, read_closed: bool, write_closed: bool) -> (r:
    EventSet)
    ensures
        r == readiness(readable, writable, read_closed, write_closed),
{
    EventSet { readable, writable, hup: read_closed || write_closed }
}

/// The readiness report that an event of mio amounts to: the number of the
/// token it carries, which is the resource's number, and the kinds that
/// are ready.
pub fn report_of(ev: &mio::event::Event) -> (r: (u64, EventSet))
    ensures
        r.0 == mio_event_token(*ev),
        r.1 == readiness(
            mio_event_readable(*ev),
            mio_event_writable(*ev),
            mio_event_read_closed(*ev),
            mio_event_write_closed(*ev),
        ),
{
    let resource: u64 = event_token(ev) as u64;
    let kinds = readiness_of(
        event_readable(ev),
        event_writable(ev),
        event_read_closed(ev),
        event_write_closed(ev),
    );
    (resource, kinds)
}

} // verus!
