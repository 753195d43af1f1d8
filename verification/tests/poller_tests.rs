use reactor::error::Error;
use reactor::poller::{Registration, Registry};
use reactor::token::{EventSet, PollOpt, Token};

fn edge_oneshot() -> PollOpt {
    PollOpt::edge().union(PollOpt::oneshot())
}

#[test]
fn register_twice_fails() {
    let mut reg = Registry::new();
    assert_eq!(reg.register(5, Token(0), EventSet::readable(), edge_oneshot()), Ok(()));
    assert_eq!(
        reg.register(5, Token(9), EventSet::writable(), PollOpt::level()),
        Err(Error::AlreadyRegistered)
    );
    assert_eq!(
        reg.lookup(5),
        Some(Registration { token: Token(0), interest: EventSet::readable(), opts: edge_oneshot() })
    );
}

#[test]
fn reregister_and_deregister_need_a_binding() {
    let mut reg = Registry::new();
    assert_eq!(
        reg.reregister(5, Token(0), EventSet::readable(), edge_oneshot()),
        Err(Error::NotRegistered)
    );
    assert_eq!(reg.deregister(5), Err(Error::NotRegistered));
    assert_eq!(reg.lookup(5), None);
    assert_eq!(reg.register(5, Token(0), EventSet::readable(), edge_oneshot()), Ok(()));
    assert_eq!(reg.reregister(5, Token(1), EventSet::writable(), PollOpt::edge()), Ok(()));
    assert_eq!(
        reg.lookup(5),
        Some(Registration { token: Token(1), interest: EventSet::writable(), opts: PollOpt::edge() })
    );
    assert_eq!(reg.deregister(5), Ok(()));
    assert_eq!(reg.deregister(5), Err(Error::NotRegistered));
    assert_eq!(reg.lookup(5), None);
}

#[test]
fn oneshot_delivers_once_until_rearmed() {
    let mut reg = Registry::new();
    reg.register(7, Token(3), EventSet::readable(), edge_oneshot()).unwrap();
    assert_eq!(reg.deliver(7, EventSet::readable()), Some((Token(3), EventSet::readable())));
    for _ in 0..100 {
        assert_eq!(reg.deliver(7, EventSet::readable()), None);
        assert_eq!(reg.deliver(7, EventSet::all()), None);
    }
    reg.reregister(7, Token(3), EventSet::readable(), edge_oneshot()).unwrap();
    assert_eq!(reg.deliver(7, EventSet::all()), Some((Token(3), EventSet::readable())));
    assert_eq!(reg.deliver(7, EventSet::readable()), None);
}

#[test]
fn oneshot_disarms_only_what_was_delivered() {
    let mut reg = Registry::new();
    let both = EventSet::readable().union(EventSet::writable());
    reg.register(7, Token(3), both, edge_oneshot()).unwrap();
    assert_eq!(reg.deliver(7, EventSet::writable()), Some((Token(3), EventSet::writable())));
    assert_eq!(reg.deliver(7, EventSet::writable()), None);
    assert_eq!(reg.deliver(7, both), Some((Token(3), EventSet::readable())));
    assert_eq!(reg.deliver(7, both), None);
}

#[test]
fn without_oneshot_every_report_is_delivered() {
    let mut reg = Registry::new();
    reg.register(7, Token(3), EventSet::readable(), PollOpt::edge()).unwrap();
    for _ in 0..3 {
        assert_eq!(reg.deliver(7, EventSet::readable()), Some((Token(3), EventSet::readable())));
    }
    assert_eq!(reg.deliver(7, EventSet::writable()), None);
}

#[test]
fn reports_for_unbound_resources_are_dropped() {
    let mut reg = Registry::new();
    assert_eq!(reg.deliver(1, EventSet::all()), None);
    reg.register(1, Token(0), EventSet::readable(), edge_oneshot()).unwrap();
    reg.deregister(1).unwrap();
    assert_eq!(reg.deliver(1, EventSet::all()), None);
}

#[test]
fn interest_set_operations() {
    let mut i = EventSet::hup();
    assert!(i.is_hup() && !i.is_readable() && !i.is_writable());
    i.insert(EventSet::writable());
    assert_eq!(i, EventSet { readable: false, writable: true, hup: true });
    i.insert(EventSet::readable());
    assert_eq!(i, EventSet::all());
    i.remove(EventSet::writable());
    assert_eq!(i, EventSet { readable: true, writable: false, hup: true });
    assert!(i.contains(EventSet::readable()));
    assert!(!i.contains(EventSet::writable()));
    assert!(i.contains(EventSet::none()));
    assert!(EventSet::none().is_none());
    assert!(!i.is_none());
    assert_eq!(i.intersection(EventSet::readable().union(EventSet::writable())), EventSet::readable());
    assert_eq!(i.difference(EventSet::readable()), EventSet::hup());
}

#[test]
fn poll_options_combine() {
    let o = PollOpt::edge().union(PollOpt::oneshot());
    assert!(o.is_edge() && o.is_oneshot() && !o.is_level());
    assert!(PollOpt::level().is_level());
    assert!(!PollOpt::level().is_oneshot());
    assert!(PollOpt::oneshot().is_oneshot());
    assert_eq!(Token(5).as_usize(), 5);
}

#[test]
fn every_error_has_a_message() {
    let all = [
        Error::InvalidToken,
        Error::AlreadyRegistered,
        Error::NotRegistered,
        Error::TimerRangeExceeded,
        Error::PollFailure,
    ];
    for (i, a) in all.iter().enumerate() {
        assert!(!a.message().is_empty());
        for (j, b) in all.iter().enumerate() {
            assert_eq!(i == j, a.message() == b.message());
        }
    }
    assert_eq!(Error::InvalidToken.message(), "invalid token");
}
