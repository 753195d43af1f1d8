use reactor::echo_tcp as tcp;
use reactor::echo_unix as unix;
use reactor::error::Error;
use reactor::event_loop::{Action, EventLoop, LoopConfig, RunState};
use reactor::io::IoOutcome;
use reactor::rearm::edge_oneshot;
use reactor::slab::Slab;
use reactor::token::{EventSet, Token};
use std::collections::VecDeque;

const SERVER: Token = Token(0);
const CLIENT: Token = Token(1);

const LISTENER_FD: u64 = 0;
const CLIENT_FD: u64 = 1;
const CONN_FD: u64 = 2;

/// A one-way byte stream held in memory.
struct Wire {
    bytes: VecDeque<u8>,
}

impl Wire {
    fn new() -> Wire {
        Wire { bytes: VecDeque::new() }
    }

    fn write(&mut self, data: &[u8]) -> usize {
        self.bytes.extend(data.iter().copied());
        data.len()
    }

    fn read(&mut self, max: usize) -> Vec<u8> {
        let n = max.min(self.bytes.len());
        self.bytes.drain(..n).collect()
    }

    fn is_empty(&self) -> bool {
        self.bytes.is_empty()
    }
}

#[test]
pub fn test_unix_echo_server() {
    let mut event_loop: unix::TestEventLoop = EventLoop::configured(LoopConfig::default(), 0);
    event_loop.register(LISTENER_FD, SERVER, EventSet::readable(), edge_oneshot()).unwrap();
    event_loop.register(CLIENT_FD, CLIENT, EventSet::writable(), edge_oneshot()).unwrap();

    let mut handler = unix::EchoHandler::new(
        LISTENER_FD,
        CLIENT_FD,
        vec![b"foo".to_vec(), b"bar".to_vec()],
    );
    let mut pending_connect = true;
    let mut to_server = Wire::new();
    let mut to_client = Wire::new();
    let mut came_back: Vec<u8> = Vec::new();

    assert!(event_loop.begin_run());
    let mut polls: usize = 0;
    loop {
        match event_loop.next_action() {
            Action::Stop => break,
            Action::Poll { timeout_ms: _ } => {}
        }
        polls += 1;
        assert!(polls < 1_000, "the loop stalled");

        let mut reports: Vec<(u64, EventSet)> = Vec::new();
        if pending_connect {
            reports.push((LISTENER_FD, EventSet::readable()));
        }
        let mut client = EventSet::writable();
        if !to_client.is_empty() {
            client.insert(EventSet::readable());
        }
        reports.push((CLIENT_FD, client));
        let mut conn = EventSet::writable();
        if !to_server.is_empty() {
            conn.insert(EventSet::readable());
        }
        reports.push((CONN_FD, conn));

        for (fd, ready) in reports {
            let (token, kinds) = match event_loop.on_ready(fd, ready) {
                Some(call) => call,
                None => continue,
            };
            if kinds.is_readable() {
                if token == SERVER {
                    assert!(pending_connect);
                    pending_connect = false;
                    assert!(handler.server.conns.has_remaining());
                    assert!(event_loop.registry.lookup(CONN_FD).is_none());
                    handler
                        .readable(&mut event_loop, token, CONN_FD, IoOutcome::Ready(0), Vec::new())
                        .unwrap();
                } else if token == CLIENT {
                    // The echo comes back two bytes at a time.
                    let data = to_client.read(2);
                    let read = if data.is_empty() {
                        IoOutcome::WouldBlock
                    } else {
                        IoOutcome::Ready(data.len())
                    };
                    assert!(handler.client.expects(&data));
                    came_back.extend(data.iter().copied());
                    handler.readable(&mut event_loop, token, 0, read, data).unwrap();
                } else {
                    let data = to_server.read(2048);
                    let read = if data.is_empty() {
                        IoOutcome::WouldBlock
                    } else {
                        IoOutcome::Ready(data.len())
                    };
                    assert!(handler.server.conns.get(token).ok().unwrap().mut_buf);
                    handler.readable(&mut event_loop, token, 0, read, data).unwrap();
                }
            }
            if kinds.is_writable() {
                if token == SERVER {
                    panic!("received writable for token 0");
                } else if token == CLIENT {
                    let n = to_server.write(&handler.client.curr[handler.client.tx..]);
                    handler.writable(&mut event_loop, token, IoOutcome::Ready(n)).unwrap();
                } else {
                    let buf = handler.server.conns.get(token).ok().unwrap().buf.clone().unwrap();
                    let n = to_client.write(&buf);
                    handler.writable(&mut event_loop, token, IoOutcome::Ready(n)).unwrap();
                }
            }
        }
        assert!(event_loop.expire(polls as u64).is_empty());
        assert!(event_loop.take_messages().is_empty());
    }
    assert_eq!(event_loop.state, RunState::Stopped);
    assert_eq!(came_back, b"foobar".to_vec());
    assert!(handler.client.msgs.is_empty());
    assert_eq!(handler.client.curr, b"bar".to_vec());
    assert_eq!(handler.client.rx, 3);
    assert_eq!(handler.server.conns.get(Token(2)).ok().unwrap().token, Token(2));
}

#[test]
pub fn test_echo_server() {
    let config = LoopConfig {
        io_poll_timeout_ms: 1_000,
        notify_capacity: 1_048_576,
        messages_per_tick: 64,
        timer_tick_ms: 100,
        timer_wheel_size: 1_024,
        timer_capacity: 65_536,
    };
    let total: u32 = 1_000_000;
    let mut event_loop: tcp::TestEventLoop = EventLoop::configured(config, 0);
    event_loop.register(LISTENER_FD, SERVER, EventSet::readable(), edge_oneshot()).unwrap();
    event_loop.register(CLIENT_FD, CLIENT, EventSet::writable(), edge_oneshot()).unwrap();

    let message = String::from("THIS IS A TEST MESSAGE");
    let mut i = total;
    while i > 0 {
        event_loop.send(message.clone()).unwrap();
        i -= 1;
    }

    let mut handler = tcp::EchoHandler::new(LISTENER_FD, CLIENT_FD);
    let mut pending_connect = true;
    let mut wire = Wire::new();
    let mut writes: u32 = 0;

    assert!(event_loop.begin_run());
    let mut polls: u32 = 0;
    loop {
        match event_loop.next_action() {
            Action::Stop => break,
            Action::Poll { timeout_ms: _ } => {}
        }
        polls += 1;
        assert!(polls <= total, "the loop stalled");
        let mut reports = vec![(CLIENT_FD, EventSet::writable())];
        if pending_connect {
            reports.push((LISTENER_FD, EventSet::readable()));
        }
        if !wire.is_empty() {
            reports.push((CONN_FD, EventSet::readable()));
        }
        for (fd, ready) in reports {
            let (token, kinds) = match event_loop.on_ready(fd, ready) {
                Some(call) => call,
                None => continue,
            };
            if kinds.is_readable() {
                if token == SERVER {
                    assert!(pending_connect);
                    pending_connect = false;
                    let done = handler.readable(&mut event_loop, token, CONN_FD, IoOutcome::Ready(0));
                    assert_eq!(done, Some(Ok(())));
                } else {
                    loop {
                        let chunk = wire.read(22);
                        let read = if chunk.is_empty() {
                            IoOutcome::WouldBlock
                        } else {
                            assert_eq!(chunk, b"THIS IS A TEST MESSAGE".to_vec());
                            IoOutcome::Ready(chunk.len())
                        };
                        if let Some(armed) = handler.readable(&mut event_loop, token, 0, read) {
                            assert_eq!(armed, Ok(()));
                            break;
                        }
                    }
                }
            }
            if kinds.is_writable() {
                assert_eq!(token, CLIENT);
                loop {
                    let write = match handler.client.backlog.front() {
                        Some(msg) => IoOutcome::Ready(wire.write(msg.as_bytes())),
                        None => IoOutcome::WouldBlock,
                    };
                    if let Some(done) = handler.writable(&mut event_loop, token, write) {
                        assert_eq!(done, Ok(()));
                        break;
                    }
                }
                assert!(handler.client.backlog.is_empty());
            }
        }
        let batch = event_loop.take_messages();
        assert!(batch.len() <= 64);
        for msg in batch {
            writes += 1;
            if writes % 1_000 == 0 {
                assert_eq!(handler.notify(&mut event_loop, msg, IoOutcome::WouldBlock), Ok(()));
            } else {
                let n = wire.write(msg.as_bytes());
                assert_eq!(handler.notify(&mut event_loop, msg, IoOutcome::Ready(n)), Ok(()));
            }
        }
    }
    assert_eq!(event_loop.state, RunState::Stopped);
    assert_eq!(handler.client.count, total);
    assert_eq!(handler.server.conns.get(Token(2)).ok().map(|c| c.count), Some(total));
}

#[test]
fn unix_connection_follows_the_outcome_of_each_transfer() {
    let mut event_loop: unix::TestEventLoop = EventLoop::configured(LoopConfig::default(), 0);
    let mut conn = unix::EchoConn::new(9);
    assert_eq!(conn.interest, EventSet::hup());
    assert_eq!(conn.token, Token(usize::MAX));
    assert_eq!(conn.readable(&mut event_loop, IoOutcome::Ready(2), vec![1, 2]), Err(Error::NotRegistered));
    assert_eq!(conn.buf, Some(vec![1, 2]));
    assert_eq!(conn.interest, EventSet { readable: false, writable: true, hup: true });

    event_loop.register(9, Token(4), EventSet::readable(), edge_oneshot()).unwrap();
    conn.token = Token(4);
    assert_eq!(conn.writable(&mut event_loop, IoOutcome::WouldBlock), Ok(()));
    assert_eq!(conn.buf, Some(vec![1, 2]));
    assert_eq!(conn.interest, EventSet { readable: false, writable: true, hup: true });
    assert_eq!(event_loop.registry.lookup(9).map(|r| r.interest), Some(conn.interest));
    assert_eq!(conn.writable(&mut event_loop, IoOutcome::Ready(2)), Ok(()));
    assert_eq!(conn.buf, None);
    assert!(conn.mut_buf);
    assert_eq!(conn.interest, EventSet { readable: true, writable: false, hup: true });
    assert_eq!(
        event_loop.registry.lookup(9),
        Some(reactor::poller::Registration { token: Token(4), interest: conn.interest, opts: edge_oneshot() })
    );
    assert_eq!(conn.readable(&mut event_loop, IoOutcome::Failed, Vec::new()), Ok(()));
    assert_eq!(conn.interest, EventSet { readable: false, writable: false, hup: true });
    assert_eq!(conn.writable(&mut event_loop, IoOutcome::Failed), Ok(()));
    assert_eq!(conn.buf, None);
    assert_eq!(conn.interest, EventSet { readable: false, writable: false, hup: true });
}

#[test]
fn unix_connection_waits_for_the_next_edge_when_a_read_would_block() {
    let mut event_loop: unix::TestEventLoop = EventLoop::configured(LoopConfig::default(), 0);
    event_loop.register(9, Token(4), EventSet::readable(), edge_oneshot()).unwrap();
    let mut conn = unix::EchoConn::new(9);
    conn.token = Token(4);
    conn.interest = EventSet::readable();
    assert_eq!(event_loop.on_ready(9, EventSet::readable()), Some((Token(4), EventSet::readable())));
    assert_eq!(conn.readable(&mut event_loop, IoOutcome::WouldBlock, vec![7, 7]), Ok(()));
    assert_eq!(conn.buf, None);
    assert!(conn.mut_buf);
    assert_eq!(conn.interest, EventSet::readable());
    assert_eq!(event_loop.on_ready(9, EventSet::readable()), Some((Token(4), EventSet::readable())));
    assert_eq!(conn.readable(&mut event_loop, IoOutcome::Ready(1), vec![5]), Ok(()));
    assert_eq!(conn.buf, Some(vec![5]));
    assert_eq!(conn.interest, EventSet::writable());
}

#[test]
fn unix_client_walks_through_its_messages() {
    let mut event_loop: unix::TestEventLoop = EventLoop::configured(LoopConfig::default(), 0);
    event_loop.register(1, CLIENT, EventSet::writable(), edge_oneshot()).unwrap();
    assert!(event_loop.begin_run());
    let mut client = unix::EchoClient::new(1, CLIENT, vec![b"foo".to_vec(), b"bar".to_vec()]);
    assert_eq!(client.curr, b"foo".to_vec());
    assert_eq!(client.msgs, vec![b"bar".to_vec()]);
    assert_eq!(client.interest, EventSet::none());
    assert_eq!(client.writable(&mut event_loop, IoOutcome::WouldBlock), Ok(()));
    assert_eq!(client.interest, EventSet::writable());
    assert_eq!(client.writable(&mut event_loop, IoOutcome::Ready(3)), Ok(()));
    assert_eq!(client.tx, 3);
    assert_eq!(client.interest, EventSet::readable());
    assert!(client.expects(&b"fo".to_vec()));
    assert!(!client.expects(&b"fx".to_vec()));
    assert!(!client.expects(&b"fooo".to_vec()));
    assert_eq!(client.readable(&mut event_loop, IoOutcome::Ready(2), b"fo".to_vec()), Ok(()));
    assert_eq!(client.rx, 2);
    assert_eq!(client.interest, EventSet::readable());
    assert!(client.expects(&b"o".to_vec()));
    assert_eq!(client.readable(&mut event_loop, IoOutcome::Ready(1), b"o".to_vec()), Ok(()));
    assert_eq!(client.curr, b"bar".to_vec());
    assert!(client.msgs.is_empty());
    assert_eq!((client.tx, client.rx), (0, 0));
    assert_eq!(client.interest, EventSet::writable());
    assert_eq!(event_loop.registry.lookup(1).map(|r| r.interest), Some(EventSet::writable()));
    assert_eq!(event_loop.state, RunState::Running);
    assert_eq!(client.writable(&mut event_loop, IoOutcome::Failed), Ok(()));
    assert_eq!(client.interest, EventSet::writable());
    assert_eq!(client.writable(&mut event_loop, IoOutcome::Ready(3)), Ok(()));
    assert_eq!(client.readable(&mut event_loop, IoOutcome::Ready(3), b"bar".to_vec()), Ok(()));
    assert_eq!(client.interest, EventSet::none());
    assert_eq!(event_loop.state, RunState::Draining);
    assert_eq!(client.next_msg(&mut event_loop), Ok(()));
    assert_eq!(client.curr, b"bar".to_vec());
}

#[test]
fn unix_client_keeps_listening_after_a_partial_echo() {
    let mut event_loop: unix::TestEventLoop = EventLoop::configured(LoopConfig::default(), 0);
    event_loop.register(1, CLIENT, EventSet::writable(), edge_oneshot()).unwrap();
    assert!(event_loop.begin_run());
    let mut client = unix::EchoClient::new(1, CLIENT, vec![b"bar".to_vec()]);
    assert_eq!(event_loop.on_ready(1, EventSet::writable()), Some((CLIENT, EventSet::writable())));
    assert_eq!(client.writable(&mut event_loop, IoOutcome::Ready(3)), Ok(()));
    assert_eq!(event_loop.on_ready(1, EventSet::all()), Some((CLIENT, EventSet::readable())));
    assert_eq!(client.readable(&mut event_loop, IoOutcome::Ready(2), b"ba".to_vec()), Ok(()));
    assert_eq!(client.rx, 2);
    assert!(client.interest.is_readable());
    assert_eq!(event_loop.registry.lookup(1).map(|r| r.interest), Some(EventSet::readable()));
    assert_eq!(event_loop.state, RunState::Running);
    // The rest of the echo is still delivered.
    assert_eq!(event_loop.on_ready(1, EventSet::all()), Some((CLIENT, EventSet::readable())));
    assert_eq!(client.readable(&mut event_loop, IoOutcome::WouldBlock, Vec::new()), Ok(()));
    assert_eq!(client.rx, 2);
    assert_eq!(client.curr, b"bar".to_vec());
    assert!(client.interest.is_readable());
    assert_eq!(event_loop.on_ready(1, EventSet::readable()), Some((CLIENT, EventSet::readable())));
    assert_eq!(client.readable(&mut event_loop, IoOutcome::Ready(1), b"r".to_vec()), Ok(()));
    assert_eq!(client.rx, 3);
    assert_eq!(client.interest, EventSet::none());
    assert_eq!(event_loop.state, RunState::Draining);
}

#[test]
fn unix_client_stops_listening_after_a_failed_read() {
    let mut event_loop: unix::TestEventLoop = EventLoop::configured(LoopConfig::default(), 0);
    let mut client = unix::EchoClient::new(1, CLIENT, vec![b"bar".to_vec()]);
    client.interest = EventSet::readable();
    assert_eq!(
        client.readable(&mut event_loop, IoOutcome::Failed, Vec::new()),
        Err(Error::NotRegistered)
    );
    assert_eq!(client.interest, EventSet::none());
    assert_eq!((client.tx, client.rx), (0, 0));
}

#[test]
fn tcp_connection_stops_the_loop_at_the_target() {
    let mut event_loop: tcp::TestEventLoop = EventLoop::configured(LoopConfig::default(), 0);
    assert!(event_loop.begin_run());
    let mut server = tcp::EchoServer { sock: 0, conns: Slab::new_starting_at(Token(2), 128) };
    assert_eq!(server.accept(&mut event_loop, 7), Ok(()));
    assert_eq!(server.accept(&mut event_loop, 8), Ok(()));
    assert_eq!(server.conns.get(Token(3)).ok().map(|c| (c.sock, c.token, c.count)), Some((8, Token(3), 0)));
    assert_eq!(
        event_loop.registry.lookup(7),
        Some(reactor::poller::Registration { token: Token(2), interest: EventSet::readable(), opts: edge_oneshot() })
    );
    assert_eq!(event_loop.on_ready(7, EventSet::readable()), Some((Token(2), EventSet::readable())));
    for _ in 0..(tcp::TARGET - 1) {
        assert_eq!(server.conn_readable(&mut event_loop, Token(2), IoOutcome::Ready(22)), None);
    }
    assert_eq!(event_loop.state, RunState::Running);
    assert_eq!(event_loop.on_ready(7, EventSet::readable()), None);
    assert_eq!(server.conn_readable(&mut event_loop, Token(2), IoOutcome::WouldBlock), Some(Ok(())));
    assert_eq!(event_loop.on_ready(7, EventSet::readable()), Some((Token(2), EventSet::readable())));
    assert_eq!(server.conn_writable(&mut event_loop, Token(2)), Ok(()));
    assert_eq!(event_loop.state, RunState::Running);
    assert_eq!(server.conn_readable(&mut event_loop, Token(2), IoOutcome::Ready(22)), None);
    assert_eq!(event_loop.state, RunState::Draining);
    assert_eq!(server.conns.get(Token(2)).ok().map(|c| c.count), Some(tcp::TARGET));
    assert_eq!(server.conn_readable(&mut event_loop, Token(2), IoOutcome::Failed), Some(Ok(())));
    assert_eq!(server.conns.get(Token(2)).ok().map(|c| c.count), Some(tcp::TARGET));
    event_loop.deregister(8).unwrap();
    assert_eq!(server.conn_readable(&mut event_loop, Token(3), IoOutcome::Ready(22)), None);
    assert_eq!(
        server.conn_readable(&mut event_loop, Token(3), IoOutcome::WouldBlock),
        Some(Err(Error::NotRegistered))
    );
    assert_eq!(server.conns.get(Token(3)).ok().map(|c| c.count), Some(1));
}

#[test]
fn tcp_client_keeps_what_its_socket_would_not_take() {
    let mut event_loop: tcp::TestEventLoop = EventLoop::configured(LoopConfig::default(), 0);
    event_loop.register(1, CLIENT, EventSet::writable(), edge_oneshot()).unwrap();
    let mut handler = tcp::EchoHandler::new(0, 1);
    assert_eq!(event_loop.on_ready(1, EventSet::writable()), Some((CLIENT, EventSet::writable())));
    assert_eq!(handler.writable(&mut event_loop, CLIENT, IoOutcome::Ready(1)), Some(Ok(())));
    assert_eq!(handler.client.count, 0);
    assert_eq!(event_loop.on_ready(1, EventSet::writable()), None);
    assert_eq!(handler.notify(&mut event_loop, String::from("a"), IoOutcome::Ready(1)), Ok(()));
    assert_eq!(handler.client.count, 1);
    assert!(handler.client.backlog.is_empty());
    assert_eq!(event_loop.on_ready(1, EventSet::writable()), None);
    assert_eq!(handler.notify(&mut event_loop, String::from("b"), IoOutcome::WouldBlock), Ok(()));
    assert_eq!(handler.notify(&mut event_loop, String::from("c"), IoOutcome::Failed), Ok(()));
    assert_eq!(handler.notify(&mut event_loop, String::from("d"), IoOutcome::WouldBlock), Ok(()));
    assert_eq!(handler.client.count, 1);
    assert_eq!(handler.client.backlog.iter().map(|m| m.as_str()).collect::<Vec<&str>>(), vec!["b", "c", "d"]);
    assert_eq!(event_loop.on_ready(1, EventSet::writable()), Some((CLIENT, EventSet::writable())));
    assert_eq!(handler.writable(&mut event_loop, CLIENT, IoOutcome::Ready(1)), None);
    assert_eq!(handler.writable(&mut event_loop, CLIENT, IoOutcome::Ready(1)), None);
    assert_eq!(handler.writable(&mut event_loop, CLIENT, IoOutcome::WouldBlock), Some(Ok(())));
    assert_eq!(handler.client.count, 3);
    assert_eq!(handler.client.backlog.iter().map(|m| m.as_str()).collect::<Vec<&str>>(), vec!["d"]);
    assert_eq!(event_loop.on_ready(1, EventSet::writable()), Some((CLIENT, EventSet::writable())));
    assert_eq!(handler.writable(&mut event_loop, CLIENT, IoOutcome::Ready(1)), Some(Ok(())));
    assert_eq!(handler.client.count, 4);
    assert!(handler.client.backlog.is_empty());
    assert_eq!(event_loop.on_ready(1, EventSet::writable()), None);
    assert_eq!(handler.readable(&mut event_loop, CLIENT, 0, IoOutcome::WouldBlock), Some(Ok(())));
    assert_eq!(handler.client.count, 4);
    event_loop.deregister(1).unwrap();
    assert_eq!(
        handler.notify(&mut event_loop, String::from("e"), IoOutcome::WouldBlock),
        Err(Error::NotRegistered)
    );
    assert_eq!(
        handler.writable(&mut event_loop, CLIENT, IoOutcome::Failed),
        Some(Err(Error::NotRegistered))
    );
}

#[test]
fn a_million_messages_arrive_once_and_in_order() {
    let config = LoopConfig { notify_capacity: 1_048_576, ..LoopConfig::default() };
    let mut event_loop: EventLoop<usize, u32> = EventLoop::configured(config, 0);
    let total: u32 = 1_000_000;
    let mut next_to_send: u32 = 0;
    let mut next_expected: u32 = 0;
    assert!(event_loop.begin_run());
    let mut polls: u32 = 0;
    while let Action::Poll { timeout_ms: _ } = event_loop.next_action() {
        polls += 1;
        let burst = if next_to_send < total { 100.min(total - next_to_send) } else { 0 };
        for _ in 0..burst {
            assert!(event_loop.send(next_to_send).is_ok());
            next_to_send += 1;
        }
        for msg in event_loop.take_messages() {
            assert_eq!(msg, next_expected);
            next_expected += 1;
            if next_expected == total {
                event_loop.shutdown();
            }
        }
    }
    assert_eq!(next_expected, total);
    assert_eq!(polls, total / 64);
    assert_eq!(event_loop.state, RunState::Stopped);
    assert!(event_loop.take_messages().is_empty());
}

#[test]
fn ping_reaches_the_connection_and_shutdown_from_notify_stops_the_loop() {
    let mut event_loop: EventLoop<usize, &'static str> =
        EventLoop::configured(LoopConfig::default(), 0);
    let mut conns: Slab<Vec<u8>> = Slab::new_starting_at(Token(2), 128);
    let mut wire = Wire::new();
    let mut calls: Vec<(Token, &'static str)> = Vec::new();
    event_loop.register(LISTENER_FD, SERVER, EventSet::readable(), edge_oneshot()).unwrap();
    assert!(event_loop.begin_run());

    // First batch: the listener is readable; the peer is accepted.
    assert_eq!(event_loop.next_action(), Action::Poll { timeout_ms: 1_000 });
    let (token, kinds) = event_loop.on_ready(LISTENER_FD, EventSet::readable()).unwrap();
    assert_eq!((token, kinds), (SERVER, EventSet::readable()));
    calls.push((token, "readable"));
    let conn = conns.insert(Vec::new()).ok().unwrap();
    assert_eq!(conn, Token(2));
    event_loop.register(CONN_FD, conn, EventSet::readable(), edge_oneshot()).unwrap();

    // Second batch: the peer has sent its bytes.
    wire.write(b"PING");
    assert_eq!(event_loop.next_action(), Action::Poll { timeout_ms: 1_000 });
    let (token, kinds) = event_loop.on_ready(CONN_FD, EventSet::readable()).unwrap();
    assert_eq!((token, kinds), (Token(2), EventSet::readable()));
    calls.push((token, "readable"));
    conns.get_mut(token).ok().unwrap().extend(wire.read(64));
    assert_eq!(conns.get(Token(2)), Ok(&b"PING".to_vec()));

    // Third batch: a message asks for shutdown; the batch is finished first.
    assert_eq!(event_loop.send("stop"), Ok(true));
    assert_eq!(event_loop.send("after"), Ok(false));
    assert_eq!(event_loop.next_action(), Action::Poll { timeout_ms: 0 });
    let mut seen: Vec<&'static str> = Vec::new();
    for msg in event_loop.take_messages() {
        if msg == "stop" {
            event_loop.shutdown();
        }
        seen.push(msg);
    }
    assert_eq!(seen, vec!["stop", "after"]);
    assert_eq!(event_loop.state, RunState::Draining);
    assert_eq!(event_loop.next_action(), Action::Stop);
    assert_eq!(event_loop.next_action(), Action::Stop);
    assert_eq!(event_loop.state, RunState::Stopped);
    assert_eq!(calls, vec![(SERVER, "readable"), (Token(2), "readable")]);
}
