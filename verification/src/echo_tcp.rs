//! A flood test over TCP, as handlers of the reactor: other threads send
//! messages through the notify channel, the client writes each to its
//! socket, and the accepted connection counts what arrives until the last
//! message is in and the loop is asked to stop.
//!
//! The transfers themselves are the caller's: each callback here takes what
//! the reads or writes came back with.

use vstd::prelude::*;
use std::collections::VecDeque;
use crate::error::Error;
use crate::event_loop::{EventLoop, RunState};
use crate::io::IoOutcome;
use crate::poller::Registration;
use crate::rearm::{edge_oneshot, rearm_result, rearmed, spec_edge_oneshot};
use crate::slab::Slab;
use crate::token::{EventSet, Token};

verus! {

/// The token number of the listening socket.
pub const SERVER: usize = 0;

/// The token number of the client's socket.
pub const CLIENT: usize = 1;

/// The number of messages after which the connection asks the loop to stop.
pub const TARGET: u32 = 1_000_000;

/// The loop these handlers run on.
pub type TestEventLoop = EventLoop<usize, String>;

/// Whether two loops differ in their registration tables and run states
/// at most.
pub open spec fn same_queues(a: TestEventLoop, b: TestEventLoop) -> bool {
    a.config == b.config && a.timers == b.timers && a.notify == b.notify
}

/// The set that holds readable alone.
pub open spec fn only_readable() -> EventSet {
    EventSet { readable: true, writable: false, hup: false }
}

/// The set that holds writable alone.
pub open spec fn only_writable() -> EventSet {
    EventSet { readable: false, writable: true, hup: false }
}

/// A connection that the server accepted. It counts the messages read.
pub struct EchoConn {
    /// The number of the connection's socket.
    pub sock: u64,
    pub token: Token,
    pub count: u32,
}

impl EchoConn {
    /// A fresh connection on `sock`: nothing counted, no token yet.
    pub fn new(sock: u64) -> (c: EchoConn)
        ensures
            c == (EchoConn { sock, token: Token(usize::MAX), count: 0 }),
    {
        EchoConn { sock, token: Token(usize::MAX), count: 0 }
    }

    /// The socket was writable: the connection only ever reads, so it is
    /// armed for reading again.
    pub fn writable(&mut self, event_loop: &mut TestEventLoop) -> (r: Result<(), Error>)
        ensures
            *final(self) == *old(self),
            same_queues(*final(event_loop), *old(event_loop)),
            final(event_loop).state == old(event_loop).state,
            final(event_loop).registry@ == rearmed(
                old(event_loop).registry@,
                old(self).sock,
                old(self).token,
                only_readable(),
            ),
            r == rearm_result(old(event_loop).registry@, old(self).sock),
    {
        event_loop.reregister(self.sock, self.token, EventSet::readable(), edge_oneshot())
    }

    /// The state of the loop after the connection has counted one more
    /// message on top of `count`: the loop is asked to stop exactly when the
    /// count reaches the target.
    pub open spec fn state_after_count(state: RunState, count: u32) -> RunState {
        if count + 1 == TARGET {
            state.after_shutdown()
        } else {
            state
        }
    }

    /// One read of the readable callback came back with `read`.
    ///
    /// A read that brought a message is counted, and the caller reads
    /// again: the result is `None`. When the count reaches the target the
    /// loop is asked to stop. A read that would block or failed ends the
    /// callback: nothing is counted, the socket is armed for reading
    /// again, and the result holds what the arming returned.
    pub fn readable(&mut self, event_loop: &mut TestEventLoop, read: IoOutcome) -> (r: Option<
        Result<(), Error>,
    >)
        requires
            read is Ready ==> old(self).count < u32::MAX,
        ensures
            final(self).sock == old(self).sock,
            final(self).token == old(self).token,
            same_queues(*final(event_loop), *old(event_loop)),
            read is Ready ==> {
                &&& r == None::<Result<(), Error>>
                &&& final(self).count == old(self).count + 1
                &&& final(event_loop).state == Self::state_after_count(
                    old(event_loop).state,
                    old(self).count,
                )
                &&& final(event_loop).registry@ == old(event_loop).registry@
            },
            !(read is Ready) ==> {
                &&& r == Some(rearm_result(old(event_loop).registry@, old(self).sock))
                &&& final(self).count == old(self).count
                &&& final(event_loop).state == old(event_loop).state
                &&& final(event_loop).registry@ == rearmed(
                    old(event_loop).registry@,
                    old(self).sock,
                    old(self).token,
                    only_readable(),
                )
            },
    {
        match read {
            IoOutcome::Ready(_) => {
                self.count = self.count + 1;
                if self.count == TARGET {
                    event_loop.shutdown();
                }
                None
            },
            _ => Some(
                event_loop.reregister(self.sock, self.token, EventSet::readable(), edge_oneshot()),
            ),
        }
    }
}

/// The listening side: the listener's socket and the connections accepted.
pub struct EchoServer {
    /// The number of the listening socket.
    pub sock: u64,
    pub conns: Slab<EchoConn>,
}

impl EchoServer {
    /// The listener was readable and `accepted` is the socket of the peer
    /// that was accepted. The connection takes the lowest free token and is
    /// registered for reading.
    pub fn accept(&mut self, event_loop: &mut TestEventLoop, accepted: u64) -> (r: Result<(), Error>)
        requires
            old(self).conns.wf(),
            !old(self).conns.is_full(),
            !old(event_loop).registry@.contains_key(accepted),
        ensures
            r == Ok::<(), Error>(()),
            final(self).sock == old(self).sock,
            final(self).conns.wf(),
            final(self).conns.spec_start() == old(self).conns.spec_start(),
            final(self).conns.spec_capacity() == old(self).conns.spec_capacity(),
            final(self).conns@ == old(self).conns@.insert(
                old(self).conns.lowest_free(),
                (EchoConn {
                    sock: accepted,
                    token: Token(old(self).conns.lowest_free() as usize),
                    count: 0,
                }),
            ),
            same_queues(*final(event_loop), *old(event_loop)),
            final(event_loop).state == old(event_loop).state,
            final(event_loop).registry@ == old(event_loop).registry@.insert(
                accepted,
                Registration {
                    token: Token(old(self).conns.lowest_free() as usize),
                    interest: only_readable(),
                    opts: spec_edge_oneshot(),
                },
            ),
    {
        proof {
            self.conns.lemma_lowest_free();
        }
        let conn = EchoConn::new(accepted);
        let tok = match self.conns.insert(conn) {
            Ok(tok) => tok,
            Err(_) => {
                assert(false);
                Token(0)
            },
        };
        match self.conns.get_mut(tok) {
            Ok(c) => {
                c.token = tok;
            },
            Err(_) => {
                assert(false);
            },
        }
        proof {
            assert(self.conns@ =~= old(self).conns@.insert(
                old(self).conns.lowest_free(),
                (EchoConn {
                    sock: accepted,
                    token: Token(old(self).conns.lowest_free() as usize),
                    count: 0,
                }),
            ));
        }
        event_loop.register(accepted, tok, EventSet::readable(), edge_oneshot())
    }

    /// The connection under `tok` made one read; see
    /// [`EchoConn::readable`].
    pub fn conn_readable(&mut self, event_loop: &mut TestEventLoop, tok: Token, read: IoOutcome) -> (r:
        Option<Result<(), Error>>)
        requires
            old(self).conns.wf(),
            old(self).conns@.dom().contains(tok.0 as int),
            read is Ready ==> old(self).conns@[tok.0 as int].count < u32::MAX,
        ensures
            final(self).sock == old(self).sock,
            final(self).conns.wf(),
            final(self).conns.spec_start() == old(self).conns.spec_start(),
            final(self).conns.spec_capacity() == old(self).conns.spec_capacity(),
            same_queues(*final(event_loop), *old(event_loop)),
            read is Ready ==> {
                &&& r == None::<Result<(), Error>>
                &&& final(self).conns@ == old(self).conns@.insert(
                    tok.0 as int,
                    (EchoConn {
                        sock: old(self).conns@[tok.0 as int].sock,
                        token: old(self).conns@[tok.0 as int].token,
                        count: (old(self).conns@[tok.0 as int].count + 1) as u32,
                    }),
                )
                &&& final(event_loop).state == EchoConn::state_after_count(
                    old(event_loop).state,
                    old(self).conns@[tok.0 as int].count,
                )
                &&& final(event_loop).registry@ == old(event_loop).registry@
            },
            !(read is Ready) ==> {
                &&& r == Some(
                    rearm_result(old(event_loop).registry@, old(self).conns@[tok.0 as int].sock),
                )
                &&& final(self).conns@ == old(self).conns@
                &&& final(event_loop).state == old(event_loop).state
                &&& final(event_loop).registry@ == rearmed(
                    old(event_loop).registry@,
                    old(self).conns@[tok.0 as int].sock,
                    old(self).conns@[tok.0 as int].token,
                    only_readable(),
                )
            },
    {
        let r = match self.conns.get_mut(tok) {
            Ok(c) => c.readable(event_loop, read),
            Err(e) => Some(Err(e)),
        };
        proof {
            if !(read is Ready) {
                assert(self.conns@ =~= old(self).conns@);
            }
        }
        r
    }

    /// The connection under `tok` was writable; see [`EchoConn::writable`].
    pub fn conn_writable(&mut self, event_loop: &mut TestEventLoop, tok: Token) -> (r: Result<
        (),
        Error,
    >)
        requires
            old(self).conns.wf(),
            old(self).conns@.dom().contains(tok.0 as int),
        ensures
            final(self).sock == old(self).sock,
            final(self).conns.wf(),
            final(self).conns.spec_start() == old(self).conns.spec_start(),
            final(self).conns.spec_capacity() == old(self).conns.spec_capacity(),
            final(self).conns@ == old(self).conns@,
            same_queues(*final(event_loop), *old(event_loop)),
            final(event_loop).state == old(event_loop).state,
            final(event_loop).registry@ == rearmed(
                old(event_loop).registry@,
                old(self).conns@[tok.0 as int].sock,
                old(self).conns@[tok.0 as int].token,
                only_readable(),
            ),
            r == rearm_result(old(event_loop).registry@, old(self).conns@[tok.0 as int].sock),
    {
        let r = match self.conns.get_mut(tok) {
            Ok(c) => c.writable(event_loop),
            Err(e) => Err(e),
        };
        proof {
            assert(self.conns@ =~= old(self).conns@);
        }
        r
    }
}

/// The client: it writes the messages that the loop is notified of, and
/// keeps those its socket would not take.
pub struct EchoClient {
    /// The number of the client's socket.
    pub sock: u64,
    /// The messages that wait for the socket to be writable, oldest first.
    pub backlog: VecDeque<String>,
    pub token: Token,
    pub count: u32,
}

impl EchoClient {
    /// A client on `sock` with nothing to send.
    pub fn new(sock: u64, tok: Token) -> (c: EchoClient)
        ensures
            c.sock == sock,
            c.token == tok,
            c.count == 0,
            c.backlog@ == Seq::<String>::empty(),
    {
        EchoClient { sock, backlog: VecDeque::new(), token: tok, count: 0 }
    }

    /// The socket was readable: nothing comes back to the client, so there
    /// is nothing to do.
    pub fn readable(&mut self, _event_loop: &mut TestEventLoop) -> (r: Result<(), Error>)
        ensures
            r == Ok::<(), Error>(()),
            *final(self) == *old(self),
            *final(_event_loop) == *old(_event_loop),
    {
        Ok(())
    }

    /// One step of the writable callback: `write` is what the write of the
    /// first message of the backlog came back with.
    ///
    /// With an empty backlog the callback is over at once and `write` says
    /// nothing. A message that went out leaves the backlog and is counted;
    /// the caller writes the next, and the result is `None`, unless that
    /// was the last, which ends the callback without arming. A write that
    /// would block or failed keeps the message at the front and ends the
    /// callback with the socket armed for writing again; the result holds
    /// what the arming returned.
    pub fn writable(&mut self, event_loop: &mut TestEventLoop, write: IoOutcome) -> (r: Option<
        Result<(), Error>,
    >)
        requires
            old(self).backlog@.len() > 0 && write is Ready ==> old(self).count < u32::MAX,
        ensures
            final(self).sock == old(self).sock,
            final(self).token == old(self).token,
            same_queues(*final(event_loop), *old(event_loop)),
            final(event_loop).state == old(event_loop).state,
            old(self).backlog@.len() == 0 ==> {
                &&& r == Some(Ok::<(), Error>(()))
                &&& final(self).backlog@ == old(self).backlog@
                &&& final(self).count == old(self).count
                &&& final(event_loop).registry@ == old(event_loop).registry@
            },
            old(self).backlog@.len() > 0 && write is Ready ==> {
                &&& r == if old(self).backlog@.len() == 1 {
                    Some(Ok::<(), Error>(()))
                } else {
                    None::<Result<(), Error>>
                }
                &&& final(self).backlog@ == old(self).backlog@.skip(1)
                &&& final(self).count == old(self).count + 1
                &&& final(event_loop).registry@ == old(event_loop).registry@
            },
            old(self).backlog@.len() > 0 && !(write is Ready) ==> {
                &&& r == Some(rearm_result(old(event_loop).registry@, old(self).sock))
                &&& final(self).backlog@ == old(self).backlog@
                &&& final(self).count == old(self).count
                &&& final(event_loop).registry@ == rearmed(
                    old(event_loop).registry@,
                    old(self).sock,
                    old(self).token,
                    only_writable(),
                )
            },
    {
        if self.backlog.len() == 0 {
            return Some(Ok(()));
        }
        match write {
            IoOutcome::Ready(_) => {
                let _sent = self.backlog.pop_front();
                self.count = self.count + 1;
                proof {
                    assert(self.backlog@ =~= old(self).backlog@.skip(1));
                }
                if self.backlog.len() == 0 {
                    Some(Ok(()))
                } else {
                    None
                }
            },
            _ => Some(
                event_loop.reregister(self.sock, self.token, EventSet::writable(), edge_oneshot()),
            ),
        }
    }
}

/// The handler of the flood test: the server and the client in one.
pub struct EchoHandler {
    pub server: EchoServer,
    pub client: EchoClient,
}

impl EchoHandler {
    /// A handler with the listener `srv`, no connection yet, and a client
    /// on the socket `client`.
    pub fn new(srv: u64, client: u64) -> (h: EchoHandler)
        ensures
            h.server.sock == srv,
            h.server.conns.wf(),
            h.server.conns@ == Map::<int, EchoConn>::empty(),
            h.server.conns.spec_start() == 2,
            h.server.conns.spec_capacity() == 128,
            h.client.sock == client,
            h.client.token == Token(CLIENT),
            h.client.count == 0,
            h.client.backlog@ == Seq::<String>::empty(),
    {
        EchoHandler {
            server: EchoServer { sock: srv, conns: Slab::new_starting_at(Token(2), 128) },
            client: EchoClient::new(client, Token(CLIENT)),
        }
    }

    /// Whether the handler can take a readable callback for `token`.
    pub open spec fn can_read(
        &self,
        event_loop: TestEventLoop,
        token: Token,
        accepted: u64,
        read: IoOutcome,
    ) -> bool {
        if token.0 == SERVER {
            !self.server.conns.is_full() && !event_loop.registry@.contains_key(accepted)
        } else if token.0 == CLIENT {
            true
        } else {
            &&& self.server.conns@.dom().contains(token.0 as int)
            &&& read is Ready ==> self.server.conns@[token.0 as int].count < u32::MAX
        }
    }

    /// One step of the readable callback. For the listener `accepted` is
    /// the socket of the peer accepted; for a connection `read` is what one
    /// read came back with. The result is `None` where the caller is to
    /// read again, and else what the callee returned.
    pub fn readable(
        &mut self,
        event_loop: &mut TestEventLoop,
        token: Token,
        accepted: u64,
        read: IoOutcome,
    ) -> (r: Option<Result<(), Error>>)
        requires
            old(self).server.conns.wf(),
            old(self).can_read(*old(event_loop), token, accepted, read),
        ensures
            final(self).server.conns.wf(),
            final(self).server.sock == old(self).server.sock,
            final(self).client == old(self).client,
            same_queues(*final(event_loop), *old(event_loop)),
            token.0 == SERVER ==> {
                &&& r == Some(Ok::<(), Error>(()))
                &&& final(self).server.conns@ == old(self).server.conns@.insert(
                    old(self).server.conns.lowest_free(),
                    (EchoConn {
                        sock: accepted,
                        token: Token(old(self).server.conns.lowest_free() as usize),
                        count: 0,
                    }),
                )
                &&& final(event_loop).state == old(event_loop).state
                &&& final(event_loop).registry@ == old(event_loop).registry@.insert(
                    accepted,
                    Registration {
                        token: Token(old(self).server.conns.lowest_free() as usize),
                        interest: only_readable(),
                        opts: spec_edge_oneshot(),
                    },
                )
            },
            token.0 == CLIENT ==> {
                &&& r == Some(Ok::<(), Error>(()))
                &&& final(self).server.conns@ == old(self).server.conns@
                &&& final(event_loop).state == old(event_loop).state
                &&& final(event_loop).registry@ == old(event_loop).registry@
            },
            token.0 != SERVER && token.0 != CLIENT && read is Ready ==> {
                &&& r == None::<Result<(), Error>>
                &&& final(self).server.conns@ == old(self).server.conns@.insert(
                    token.0 as int,
                    (EchoConn {
                        sock: old(self).server.conns@[token.0 as int].sock,
                        token: old(self).server.conns@[token.0 as int].token,
                        count: (old(self).server.conns@[token.0 as int].count + 1) as u32,
                    }),
                )
                &&& final(event_loop).state == EchoConn::state_after_count(
                    old(event_loop).state,
                    old(self).server.conns@[token.0 as int].count,
                )
                &&& final(event_loop).registry@ == old(event_loop).registry@
            },
            token.0 != SERVER && token.0 != CLIENT && !(read is Ready) ==> {
                &&& r == Some(
                    rearm_result(
                        old(event_loop).registry@,
                        old(self).server.conns@[token.0 as int].sock,
                    ),
                )
                &&& final(self).server.conns@ == old(self).server.conns@
                &&& final(event_loop).state == old(event_loop).state
                &&& final(event_loop).registry@ == rearmed(
                    old(event_loop).registry@,
                    old(self).server.conns@[token.0 as int].sock,
                    old(self).server.conns@[token.0 as int].token,
                    only_readable(),
                )
            },
    {
        if token.0 == SERVER {
            Some(self.server.accept(event_loop, accepted))
        } else if token.0 == CLIENT {
            Some(self.client.readable(event_loop))
        } else {
            self.server.conn_readable(event_loop, token, read)
        }
    }

    /// Whether the handler can take a writable callback for `token`: the
    /// listener never gets one.
    pub open spec fn can_write(&self, token: Token, write: IoOutcome) -> bool {
        if token.0 == SERVER {
            false
        } else if token.0 == CLIENT {
            self.client.backlog@.len() > 0 && write is Ready ==> self.client.count < u32::MAX
        } else {
            self.server.conns@.dom().contains(token.0 as int)
        }
    }

    /// One step of the writable callback; for the client `write` is what
    /// the write of the first backlog message came back with. The result is
    /// `None` where the caller is to write again, and else what the callee
    /// returned.
    pub fn writable(&mut self, event_loop: &mut TestEventLoop, token: Token, write: IoOutcome) -> (r:
        Option<Result<(), Error>>)
        requires
            old(self).server.conns.wf(),
            old(self).can_write(token, write),
        ensures
            final(self).server.conns.wf(),
            final(self).server.sock == old(self).server.sock,
            final(self).server.conns@ == old(self).server.conns@,
            final(self).client.sock == old(self).client.sock,
            final(self).client.token == old(self).client.token,
            same_queues(*final(event_loop), *old(event_loop)),
            final(event_loop).state == old(event_loop).state,
            token.0 == CLIENT && old(self).client.backlog@.len() == 0 ==> {
                &&& r == Some(Ok::<(), Error>(()))
                &&& final(self).client.backlog@ == old(self).client.backlog@
                &&& final(self).client.count == old(self).client.count
                &&& final(event_loop).registry@ == old(event_loop).registry@
            },
            token.0 == CLIENT && old(self).client.backlog@.len() > 0 && write is Ready ==> {
                &&& r == if old(self).client.backlog@.len() == 1 {
                    Some(Ok::<(), Error>(()))
                } else {
                    None::<Result<(), Error>>
                }
                &&& final(self).client.backlog@ == old(self).client.backlog@.skip(1)
                &&& final(self).client.count == old(self).client.count + 1
                &&& final(event_loop).registry@ == old(event_loop).registry@
            },
            token.0 == CLIENT && old(self).client.backlog@.len() > 0 && !(write is Ready) ==> {
                &&& r == Some(rearm_result(old(event_loop).registry@, old(self).client.sock))
                &&& final(self).client.backlog@ == old(self).client.backlog@
                &&& final(self).client.count == old(self).client.count
                &&& final(event_loop).registry@ == rearmed(
                    old(event_loop).registry@,
                    old(self).client.sock,
                    old(self).client.token,
                    only_writable(),
                )
            },
            token.0 != CLIENT ==> {
                &&& r == Some(
                    rearm_result(
                        old(event_loop).registry@,
                        old(self).server.conns@[token.0 as int].sock,
                    ),
                )
                &&& final(self).client == old(self).client
                &&& final(event_loop).registry@ == rearmed(
                    old(event_loop).registry@,
                    old(self).server.conns@[token.0 as int].sock,
                    old(self).server.conns@[token.0 as int].token,
                    only_readable(),
                )
            },
    {
        if token.0 == CLIENT {
            self.client.writable(event_loop, write)
        } else {
            Some(self.server.conn_writable(event_loop, token))
        }
    }

    /// The loop was notified of `msg` and a write of it to the client's
    /// socket came back with `write`. A message that went out is counted;
    /// any other joins the backlog, and the socket is armed for writing.
    /// The result is that of the arming where there was one.
    pub fn notify(&mut self, event_loop: &mut TestEventLoop, msg: String, write: IoOutcome) -> (r:
        Result<(), Error>)
        requires
            write is Ready ==> old(self).client.count < u32::MAX,
        ensures
            final(self).server == old(self).server,
            final(self).client.sock == old(self).client.sock,
            final(self).client.token == old(self).client.token,
            same_queues(*final(event_loop), *old(event_loop)),
            final(event_loop).state == old(event_loop).state,
            write is Ready ==> {
                &&& r == Ok::<(), Error>(())
                &&& final(self).client.count == old(self).client.count + 1
                &&& final(self).client.backlog@ == old(self).client.backlog@
                &&& final(event_loop).registry@ == old(event_loop).registry@
            },
            !(write is Ready) ==> {
                &&& r == rearm_result(old(event_loop).registry@, old(self).client.sock)
                &&& final(self).client.count == old(self).client.count
                &&& final(self).client.backlog@ == old(self).client.backlog@.push(msg)
                &&& final(event_loop).registry@ == rearmed(
                    old(event_loop).registry@,
                    old(self).client.sock,
                    old(self).client.token,
                    only_writable(),
                )
            },
    {
        match write {
            IoOutcome::Ready(_) => {
                self.client.count = self.client.count + 1;
                Ok(())
            },
            _ => {
                self.client.backlog.push_back(msg);
                event_loop.reregister(
                    self.client.sock,
                    self.client.token,
                    EventSet::writable(),
                    edge_oneshot(),
                )
            },
        }
    }
}

} // verus!
