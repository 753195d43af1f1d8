//! An echo server and its client over stream sockets, as handlers of the
//! reactor. A connection reads, then writes back what it read; the client
//! sends its messages one at a time and expects each back, byte for byte.
//!
//! The transfers themselves are the caller's: each callback here takes the
//! outcome of the read or write and decides what the peer holds and what it
//! asks the reactor for next.

use vstd::prelude::*;
use crate::error::Error;
use crate::event_loop::EventLoop;
use crate::io::IoOutcome;
use crate::poller::Registration;
use crate::rearm::{edge_oneshot, rearm_result, rearmed, spec_edge_oneshot};
use crate::slab::Slab;
use crate::token::{EventSet, Token};

verus! {

/// The token number of the listening socket.
pub const SERVER: usize = 0;

/// The token number of the client's socket.
pub const CLIENT: usize = 1;

/// The loop these handlers run on.
pub type TestEventLoop = EventLoop<usize, ()>;

/// Whether two loops differ in their registration tables at most.
pub open spec fn same_but_registry(a: TestEventLoop, b: TestEventLoop) -> bool {
    a.config == b.config && a.state == b.state && a.timers == b.timers && a.notify == b.notify
}

/// A connection that the server accepted.
pub struct EchoConn {
    /// The number of the connection's socket.
    pub sock: u64,
    /// The bytes read and not yet written back.
    pub buf: Option<Vec<u8>>,
    /// Whether the buffer to read into is at hand.
    pub mut_buf: bool,
    pub token: Token,
    pub interest: EventSet,
}

impl EchoConn {
    /// The connection after a read that came back with `read` and `data`.
    /// A read that would block leaves the connection as it was, still
    /// asking for readable.
    pub open spec fn after_read(self, read: IoOutcome, data: Vec<u8>) -> EchoConn {
        match read {
            IoOutcome::WouldBlock => EchoConn {
                sock: self.sock,
                buf: self.buf,
                mut_buf: self.mut_buf,
                token: self.token,
                interest: self.interest.spec_union(
                    EventSet { readable: true, writable: false, hup: false },
                ),
            },
            IoOutcome::Ready(_) => EchoConn {
                sock: self.sock,
                buf: Some(data),
                mut_buf: false,
                token: self.token,
                interest: self.interest.spec_difference(
                    EventSet { readable: true, writable: false, hup: false },
                ).spec_union(EventSet { readable: false, writable: true, hup: false }),
            },
            IoOutcome::Failed => EchoConn {
                sock: self.sock,
                buf: Some(data),
                mut_buf: false,
                token: self.token,
                interest: self.interest.spec_difference(
                    EventSet { readable: true, writable: false, hup: false },
                ),
            },
        }
    }

    /// The connection after a write of its buffer that came back with
    /// `write`.
    pub open spec fn after_write(self, write: IoOutcome) -> EchoConn {
        match write {
            IoOutcome::WouldBlock => EchoConn {
                sock: self.sock,
                buf: self.buf,
                mut_buf: self.mut_buf,
                token: self.token,
                interest: self.interest.spec_union(
                    EventSet { readable: false, writable: true, hup: false },
                ),
            },
            IoOutcome::Ready(_) => EchoConn {
                sock: self.sock,
                buf: None,
                mut_buf: true,
                token: self.token,
                interest: self.interest.spec_union(
                    EventSet { readable: true, writable: false, hup: false },
                ).spec_difference(EventSet { readable: false, writable: true, hup: false }),
            },
            IoOutcome::Failed => EchoConn {
                sock: self.sock,
                buf: None,
                mut_buf: self.mut_buf,
                token: self.token,
                interest: self.interest,
            },
        }
    }

    /// A connection whose read would have blocked goes on asking for
    /// readable, and is otherwise as it was.
    pub proof fn lemma_would_block_keeps_listening(self, data: Vec<u8>)
        ensures
            self.after_read(IoOutcome::WouldBlock, data).interest.readable,
            self.after_read(IoOutcome::WouldBlock, data).buf == self.buf,
            self.after_read(IoOutcome::WouldBlock, data).mut_buf == self.mut_buf,
    {
    }

    /// A fresh connection on `sock`: nothing read, no token yet, and
    /// interest in hangup alone.
    pub fn new(sock: u64) -> (c: EchoConn)
        ensures
            c == (EchoConn {
                sock,
                buf: None,
                mut_buf: true,
                token: Token(usize::MAX),
                interest: EventSet { readable: false, writable: false, hup: true },
            }),
    {
        EchoConn {
            sock,
            buf: None,
            mut_buf: true,
            token: Token(usize::MAX),
            interest: EventSet::hup(),
        }
    }

    /// The socket was writable and the buffer was written with the outcome
    /// `write`. A write that would block keeps the buffer and asks for
    /// writable; a complete one frees the buffer and turns to reading; a
    /// failed one drops the buffer. The socket is armed anew either way.
    pub fn writable(&mut self, event_loop: &mut TestEventLoop, write: IoOutcome) -> (r: Result<
        (),
        Error,
    >)
        requires
            old(self).buf is Some,
        ensures
            *final(self) == old(self).after_write(write),
            same_but_registry(*final(event_loop), *old(event_loop)),
            final(event_loop).registry@ == rearmed(
                old(event_loop).registry@,
                old(self).sock,
                old(self).token,
                final(self).interest,
            ),
            r == rearm_result(old(event_loop).registry@, old(self).sock),
    {
        match write {
            IoOutcome::WouldBlock => {
                self.interest.insert(EventSet::writable());
            },
            IoOutcome::Ready(_) => {
                self.buf = None;
                self.mut_buf = true;
                self.interest.insert(EventSet::readable());
                self.interest.remove(EventSet::writable());
            },
            IoOutcome::Failed => {
                self.buf = None;
            },
        }
        event_loop.reregister(self.sock, self.token, self.interest, edge_oneshot())
    }

    /// The socket was readable and a read came back with `read` and the
    /// bytes `data`. A read that would block changes nothing: the
    /// connection goes on asking for readable and waits for the next edge.
    /// Otherwise the bytes wait to be written back, and after a read that
    /// brought some the connection turns to writing. The socket is armed
    /// anew either way.
    pub fn readable(&mut self, event_loop: &mut TestEventLoop, read: IoOutcome, data: Vec<u8>) -> (r:
        Result<(), Error>)
        requires
            old(self).mut_buf,
        ensures
            *final(self) == old(self).after_read(read, data),
            same_but_registry(*final(event_loop), *old(event_loop)),
            final(event_loop).registry@ == rearmed(
                old(event_loop).registry@,
                old(self).sock,
                old(self).token,
                final(self).interest,
            ),
            r == rearm_result(old(event_loop).registry@, old(self).sock),
    {
        match read {
            IoOutcome::WouldBlock => {
                self.interest.insert(EventSet::readable());
            },
            IoOutcome::Ready(_) => {
                self.interest.remove(EventSet::readable());
                self.interest.insert(EventSet::writable());
                self.buf = Some(data);
                self.mut_buf = false;
            },
            IoOutcome::Failed => {
                self.interest.remove(EventSet::readable());
                self.buf = Some(data);
                self.mut_buf = false;
            },
        }
        event_loop.reregister(self.sock, self.token, self.interest, edge_oneshot())
    }
}

/// The listening side: the listener's socket and the connections accepted.
pub struct EchoServer {
    /// The number of the listening socket.
    pub sock: u64,
    pub conns: Slab<EchoConn>,
}

impl EchoServer {
    /// The connection that `accept` stores for the socket `accepted` under
    /// the token number `tok`.
    pub open spec fn accepted_conn(accepted: u64, tok: int) -> EchoConn {
        EchoConn {
            sock: accepted,
            buf: None,
            mut_buf: true,
            token: Token(tok as usize),
            interest: EventSet { readable: false, writable: false, hup: true },
        }
    }

    /// The listener was readable and `accepted` is the socket of the peer
    /// that was accepted. The connection takes the lowest free token and is
    /// registered for reading.
    pub fn accept(&mut self, event_loop: &mut TestEventLoop, accepted: u64) -> (r: Result<(), Error>)
        requires
            old(self).conns.wf(),
            !old(self).conns.is_full(),
            !old(event_loop).registry@.contains_key(accepted),
        ensures
            r == Ok::<(), Error>(()),
            final(self).sock == old(self).sock,
            final(self).conns.wf(),
            final(self).conns.spec_start() == old(self).conns.spec_start(),
            final(self).conns.spec_capacity() == old(self).conns.spec_capacity(),
            final(self).conns@ == old(self).conns@.insert(
                old(self).conns.lowest_free(),
                Self::accepted_conn(accepted, old(self).conns.lowest_free()),
            ),
            same_but_registry(*final(event_loop), *old(event_loop)),
            final(event_loop).registry@ == old(event_loop).registry@.insert(
                accepted,
                Registration {
                    token: Token(old(self).conns.lowest_free() as usize),
                    interest: EventSet { readable: true, writable: false, hup: false },
                    opts: spec_edge_oneshot(),
                },
            ),
    {
        proof {
            self.conns.lemma_lowest_free();
        }
        let conn = EchoConn::new(accepted);
        let tok = match self.conns.insert(conn) {
            Ok(tok) => tok,
            Err(_) => {
                assert(false);
                Token(0)
            },
        };
        match self.conns.get_mut(tok) {
            Ok(c) => {
                c.token = tok;
            },
            Err(_) => {
                assert(false);
            },
        }
        proof {
            assert(self.conns@ =~= old(self).conns@.insert(
                old(self).conns.lowest_free(),
                Self::accepted_conn(accepted, old(self).conns.lowest_free()),
            ));
        }
        event_loop.register(accepted, tok, EventSet::readable(), edge_oneshot())
    }

    /// The connection under `tok` was readable; see [`EchoConn::readable`].
    pub fn conn_readable(
        &mut self,
        event_loop: &mut TestEventLoop,
        tok: Token,
        read: IoOutcome,
        data: Vec<u8>,
    ) -> (r: Result<(), Error>)
        requires
            old(self).conns.wf(),
            old(self).conns@.dom().contains(tok.0 as int),
            old(self).conns@[tok.0 as int].mut_buf,
        ensures
            final(self).sock == old(self).sock,
            final(self).conns.wf(),
            final(self).conns.spec_start() == old(self).conns.spec_start(),
            final(self).conns.spec_capacity() == old(self).conns.spec_capacity(),
            final(self).conns@ == old(self).conns@.insert(
                tok.0 as int,
                old(self).conns@[tok.0 as int].after_read(read, data),
            ),
            same_but_registry(*final(event_loop), *old(event_loop)),
            final(event_loop).registry@ == rearmed(
                old(event_loop).registry@,
                old(self).conns@[tok.0 as int].sock,
                old(self).conns@[tok.0 as int].token,
                old(self).conns@[tok.0 as int].after_read(read, data).interest,
            ),
            r == rearm_result(old(event_loop).registry@, old(self).conns@[tok.0 as int].sock),
    {
        match self.conns.get_mut(tok) {
            Ok(c) => c.readable(event_loop, read, data),
            Err(e) => Err(e),
        }
    }

    /// The connection under `tok` was writable; see [`EchoConn::writable`].
    pub fn conn_writable(&mut self, event_loop: &mut TestEventLoop, tok: Token, write: IoOutcome) -> (r:
        Result<(), Error>)
        requires
            old(self).conns.wf(),
            old(self).conns@.dom().contains(tok.0 as int),
            old(self).conns@[tok.0 as int].buf is Some,
        ensures
            final(self).sock == old(self).sock,
            final(self).conns.wf(),
            final(self).conns.spec_start() == old(self).conns.spec_start(),
            final(self).conns.spec_capacity() == old(self).conns.spec_capacity(),
            final(self).conns@ == old(self).conns@.insert(
                tok.0 as int,
                old(self).conns@[tok.0 as int].after_write(write),
            ),
            same_but_registry(*final(event_loop), *old(event_loop)),
            final(event_loop).registry@ == rearmed(
                old(event_loop).registry@,
                old(self).conns@[tok.0 as int].sock,
                old(self).conns@[tok.0 as int].token,
                old(self).conns@[tok.0 as int].after_write(write).interest,
            ),
            r == rearm_result(old(event_loop).registry@, old(self).conns@[tok.0 as int].sock),
    {
        match self.conns.get_mut(tok) {
            Ok(c) => c.writable(event_loop, write),
            Err(e) => Err(e),
        }
    }
}

/// Whether two loops differ in their registration tables and run states
/// at most.
pub open spec fn same_queues(a: TestEventLoop, b: TestEventLoop) -> bool {
    a.config == b.config && a.timers == b.timers && a.notify == b.notify
}

/// The client: it sends each of its messages in turn and expects every byte
/// back before it sends the next.
pub struct EchoClient {
    /// The number of the client's socket.
    pub sock: u64,
    /// The messages still to be sent after the current one.
    pub msgs: Vec<Vec<u8>>,
    /// The message being sent and expected back.
    pub curr: Vec<u8>,
    /// How many bytes of the current message have been written.
    pub tx: usize,
    /// How many bytes of the current message have come back.
    pub rx: usize,
    /// Whether the buffer to read into is at hand.
    pub mut_buf: bool,
    pub token: Token,
    pub interest: EventSet,
}

impl EchoClient {
    /// The cursors lie within the current message.
    pub open spec fn wf(&self) -> bool {
        self.tx <= self.curr@.len() && self.rx <= self.curr@.len()
    }

    /// Whether `data` is what the client expects next: the bytes of the
    /// current message that follow those already received.
    pub open spec fn spec_expects(&self, data: Seq<u8>) -> bool {
        &&& data.len() <= self.curr@.len() - self.rx
        &&& forall|i: int| 0 <= i < data.len() ==> data[i] == self.curr@[self.rx + i]
    }

    /// Whether `data` completes the current message.
    pub open spec fn completes(&self, data: Seq<u8>) -> bool {
        self.rx + data.len() == self.curr@.len()
    }

    /// Whether a read that came back with `read` and `data` brings the last
    /// byte of the current message.
    pub open spec fn finishes(self, read: IoOutcome, data: Seq<u8>) -> bool {
        read is Ready && self.completes(data)
    }

    /// The interest after a read that came back with `read` and `data`.
    /// While bytes of the current message are outstanding the client goes
    /// on asking for readable; with the last byte it stops, and asks for
    /// writable if another message waits. After a failed read it asks for
    /// readable no more.
    pub open spec fn interest_after_read(self, read: IoOutcome, data: Seq<u8>) -> EventSet {
        let without = self.interest.spec_difference(
            EventSet { readable: true, writable: false, hup: false },
        );
        let with = self.interest.spec_union(
            EventSet { readable: true, writable: false, hup: false },
        );
        match read {
            IoOutcome::WouldBlock => with,
            IoOutcome::Failed => without,
            IoOutcome::Ready(_) => if !self.completes(data) {
                with
            } else if self.msgs@.len() > 0 {
                without.spec_union(EventSet { readable: false, writable: true, hup: false })
            } else {
                without
            },
        }
    }

    /// A client that still awaits bytes of its current message goes on
    /// asking for readable: after a read that would have blocked, and after
    /// one that brought less than the rest of the message.
    pub proof fn lemma_listens_while_outstanding(self, read: IoOutcome, data: Seq<u8>)
        requires
            read is WouldBlock || (read is Ready && !self.completes(data)),
        ensures
            self.interest_after_read(read, data).readable,
    {
    }

    /// The interest after a write that came back with `write`.
    pub open spec fn interest_after_write(self, write: IoOutcome) -> EventSet {
        match write {
            IoOutcome::WouldBlock => self.interest.spec_union(
                EventSet { readable: false, writable: true, hup: false },
            ),
            IoOutcome::Ready(_) => self.interest.spec_union(
                EventSet { readable: true, writable: false, hup: false },
            ).spec_difference(EventSet { readable: false, writable: true, hup: false }),
            IoOutcome::Failed => self.interest,
        }
    }

    /// A client on `sock` that sends `msgs`, the first of them first.
    pub fn new(sock: u64, tok: Token, msgs: Vec<Vec<u8>>) -> (c: EchoClient)
        requires
            msgs@.len() > 0,
        ensures
            c.wf(),
            c.sock == sock,
            c.token == tok,
            c.curr == msgs@[0],
            c.msgs@ == msgs@.remove(0),
            c.tx == 0,
            c.rx == 0,
            c.mut_buf,
            c.interest == (EventSet { readable: false, writable: false, hup: false }),
    {
        let mut msgs = msgs;
        let curr = msgs.remove(0);
        EchoClient {
            sock,
            msgs,
            curr,
            tx: 0,
            rx: 0,
            mut_buf: true,
            token: tok,
            interest: EventSet::none(),
        }
    }

    /// Whether `data` is what the client expects next.
    pub fn expects(&self, data: &Vec<u8>) -> (b: bool)
        requires
            self.wf(),
        ensures
            b == self.spec_expects(data@),
    {
        if data.len() > self.curr.len() - self.rx {
            return false;
        }
        let total: usize = self.curr.len();
        let mut i: usize = 0;
        while i < data.len()
            invariant
                self.wf(),
                total == self.curr@.len(),
                i <= data@.len() <= self.curr@.len() - self.rx,
                forall|k: int| 0 <= k < i ==> data@[k] == self.curr@[self.rx + k],
            decreases data@.len() - i,
        {
            if data[i] != self.curr[self.rx + i] {
                return false;
            }
            i += 1;
        }
        true
    }

    /// Turns to the next message and asks for writable; a client that has
    /// sent them all asks the loop to stop.
    pub fn next_msg(&mut self, event_loop: &mut TestEventLoop) -> (r: Result<(), Error>)
        requires
            old(self).wf(),
        ensures
            final(self).wf(),
            same_queues(*final(event_loop), *old(event_loop)),
            old(self).msgs@.len() == 0 ==> {
                &&& r == Ok::<(), Error>(())
                &&& *final(self) == *old(self)
                &&& final(event_loop).state == old(event_loop).state.after_shutdown()
                &&& final(event_loop).registry@ == old(event_loop).registry@
            },
            old(self).msgs@.len() > 0 ==> {
                &&& r == rearm_result(old(event_loop).registry@, old(self).sock)
                &&& final(self).msgs@ == old(self).msgs@.remove(0)
                &&& final(self).curr == old(self).msgs@[0]
                &&& final(self).tx == 0
                &&& final(self).rx == 0
                &&& final(self).sock == old(self).sock
                &&& final(self).token == old(self).token
                &&& final(self).mut_buf == old(self).mut_buf
                &&& final(self).interest == old(self).interest.spec_union(
                    EventSet { readable: false, writable: true, hup: false },
                )
                &&& final(event_loop).state == old(event_loop).state
                &&& final(event_loop).registry@ == rearmed(
                    old(event_loop).registry@,
                    old(self).sock,
                    old(self).token,
                    final(self).interest,
                )
            },
    {
        if self.msgs.len() == 0 {
            event_loop.shutdown();
            return Ok(());
        }
        let curr = self.msgs.remove(0);
        self.curr = curr;
        self.tx = 0;
        self.rx = 0;
        self.interest.insert(EventSet::writable());
        event_loop.reregister(self.sock, self.token, self.interest, edge_oneshot())
    }

    /// The socket was readable and a read came back with `read` and the
    /// bytes `data`.
    ///
    /// A read that would block changes nothing: the client goes on asking
    /// for readable and waits for the next edge. A read that brought bytes,
    /// which are the bytes the client expected, moves the cursor; while
    /// bytes of the current message are outstanding the client goes on
    /// asking for readable. With the last byte of the message the client
    /// turns to the next, or asks the loop to stop after the last. After a
    /// failed read the client moves no cursor and asks for readable no
    /// more. The socket is armed anew on every path.
    pub fn readable(&mut self, event_loop: &mut TestEventLoop, read: IoOutcome, data: Vec<u8>) -> (r:
        Result<(), Error>)
        requires
            old(self).wf(),
            old(self).mut_buf,
            read is Ready ==> old(self).spec_expects(data@),
        ensures
            final(self).wf(),
            final(self).sock == old(self).sock,
            final(self).token == old(self).token,
            final(self).mut_buf,
            final(self).interest == old(self).interest_after_read(read, data@),
            !(read is Ready) ==> {
                &&& final(self).msgs@ == old(self).msgs@
                &&& final(self).curr == old(self).curr
                &&& final(self).tx == old(self).tx
                &&& final(self).rx == old(self).rx
            },
            read is Ready && (!old(self).completes(data@) || old(self).msgs@.len() == 0) ==> {
                &&& final(self).msgs@ == old(self).msgs@
                &&& final(self).curr == old(self).curr
                &&& final(self).tx == old(self).tx
                &&& final(self).rx == old(self).rx + data@.len()
            },
            old(self).finishes(read, data@) && old(self).msgs@.len() > 0 ==> {
                &&& final(self).msgs@ == old(self).msgs@.remove(0)
                &&& final(self).curr == old(self).msgs@[0]
                &&& final(self).tx == 0
                &&& final(self).rx == 0
            },
            same_queues(*final(event_loop), *old(event_loop)),
            final(event_loop).state == if old(self).finishes(read, data@) && old(self).msgs@.len()
                == 0 {
                old(event_loop).state.after_shutdown()
            } else {
                old(event_loop).state
            },
            final(event_loop).registry@ == rearmed(
                old(event_loop).registry@,
                old(self).sock,
                old(self).token,
                final(self).interest,
            ),
            r == rearm_result(old(event_loop).registry@, old(self).sock),
    {
        match read {
            IoOutcome::WouldBlock => {
                self.interest.insert(EventSet::readable());
            },
            IoOutcome::Failed => {
                self.interest.remove(EventSet::readable());
            },
            IoOutcome::Ready(_) => {
                let total: usize = self.curr.len();
                self.rx = self.rx + data.len();
                if self.rx == total {
                    self.interest.remove(EventSet::readable());
                    let _next = self.next_msg(event_loop);
                } else {
                    self.interest.insert(EventSet::readable());
                }
            },
        }
        event_loop.reregister(self.sock, self.token, self.interest, edge_oneshot())
    }

    /// The socket was writable and a write of the current message came
    /// back with `write`. A write that would block asks for writable again;
    /// one that went through turns the client to reading. The socket is
    /// armed anew.
    pub fn writable(&mut self, event_loop: &mut TestEventLoop, write: IoOutcome) -> (r: Result<
        (),
        Error,
    >)
        requires
            old(self).wf(),
            match write {
                IoOutcome::Ready(n) => n <= old(self).curr@.len() - old(self).tx,
                _ => true,
            },
        ensures
            final(self).wf(),
            final(self).sock == old(self).sock,
            final(self).token == old(self).token,
            final(self).mut_buf == old(self).mut_buf,
            final(self).msgs == old(self).msgs,
            final(self).curr == old(self).curr,
            final(self).rx == old(self).rx,
            final(self).tx == match write {
                IoOutcome::Ready(n) => old(self).tx + n,
                _ => old(self).tx as int,
            },
            final(self).interest == old(self).interest_after_write(write),
            same_but_registry(*final(event_loop), *old(event_loop)),
            final(event_loop).registry@ == rearmed(
                old(event_loop).registry@,
                old(self).sock,
                old(self).token,
                final(self).interest,
            ),
            r == rearm_result(old(event_loop).registry@, old(self).sock),
    {
        let total: usize = self.curr.len();
        match write {
            IoOutcome::WouldBlock => {
                self.interest.insert(EventSet::writable());
            },
            IoOutcome::Ready(n) => {
                assert(self.tx + n <= total);
                self.tx = self.tx + n;
                self.interest.insert(EventSet::readable());
                self.interest.remove(EventSet::writable());
            },
            IoOutcome::Failed => {},
        }
        event_loop.reregister(self.sock, self.token, self.interest, edge_oneshot())
    }
}

/// The handler of the echo test: the server and the client in one.
pub struct EchoHandler {
    pub server: EchoServer,
    pub client: EchoClient,
}

impl EchoHandler {
    /// A handler with the listener `srv`, no connection yet, and a client
    /// on the socket `client` that sends `msgs`.
    pub fn new(srv: u64, client: u64, msgs: Vec<Vec<u8>>) -> (h: EchoHandler)
        requires
            msgs@.len() > 0,
        ensures
            h.server.sock == srv,
            h.server.conns.wf(),
            h.server.conns@ == Map::<int, EchoConn>::empty(),
            h.server.conns.spec_start() == 2,
            h.server.conns.spec_capacity() == 128,
            h.client.wf(),
            h.client.sock == client,
            h.client.token == Token(CLIENT),
            h.client.curr == msgs@[0],
            h.client.msgs@ == msgs@.remove(0),
            h.client.tx == 0,
            h.client.rx == 0,
            h.client.mut_buf,
            h.client.interest == (EventSet { readable: false, writable: false, hup: false }),
    {
        EchoHandler {
            server: EchoServer { sock: srv, conns: Slab::new_starting_at(Token(2), 128) },
            client: EchoClient::new(client, Token(CLIENT), msgs),
        }
    }

    /// Whether the handler can take a readable callback for `token` with
    /// these inputs: the conditions of the callee that the token leads to.
    pub open spec fn can_read(
        &self,
        event_loop: TestEventLoop,
        token: Token,
        accepted: u64,
        read: IoOutcome,
        data: Seq<u8>,
    ) -> bool {
        if token.0 == SERVER {
            !self.server.conns.is_full() && !event_loop.registry@.contains_key(accepted)
        } else if token.0 == CLIENT {
            &&& self.client.wf()
            &&& self.client.mut_buf
            &&& read is Ready ==> self.client.spec_expects(data)
        } else {
            &&& self.server.conns@.dom().contains(token.0 as int)
            &&& self.server.conns@[token.0 as int].mut_buf
        }
    }

    /// The readable callback. For the listener `accepted` is the socket of
    /// the peer accepted; for the client and for a connection `read` and
    /// `data` are what the read came back with. The result is that of the
    /// callee: of the registration for the listener, of the arming for the
    /// others.
    pub fn readable(
        &mut self,
        event_loop: &mut TestEventLoop,
        token: Token,
        accepted: u64,
        read: IoOutcome,
        data: Vec<u8>,
    ) -> (r: Result<(), Error>)
        requires
            old(self).server.conns.wf(),
            old(self).can_read(*old(event_loop), token, accepted, read, data@),
        ensures
            final(self).server.conns.wf(),
            final(self).server.sock == old(self).server.sock,
            same_queues(*final(event_loop), *old(event_loop)),
            token.0 == SERVER ==> {
                &&& r == Ok::<(), Error>(())
                &&& final(self).client == old(self).client
                &&& final(self).server.conns@ == old(self).server.conns@.insert(
                    old(self).server.conns.lowest_free(),
                    EchoServer::accepted_conn(accepted, old(self).server.conns.lowest_free()),
                )
                &&& final(event_loop).state == old(event_loop).state
                &&& final(event_loop).registry@ == old(event_loop).registry@.insert(
                    accepted,
                    Registration {
                        token: Token(old(self).server.conns.lowest_free() as usize),
                        interest: EventSet { readable: true, writable: false, hup: false },
                        opts: spec_edge_oneshot(),
                    },
                )
            },
            token.0 == CLIENT ==> {
                &&& r == rearm_result(old(event_loop).registry@, old(self).client.sock)
                &&& final(self).server.conns@ == old(self).server.conns@
                &&& final(self).client.wf()
                &&& final(self).client.sock == old(self).client.sock
                &&& final(self).client.token == old(self).client.token
                &&& final(self).client.mut_buf
                &&& final(self).client.interest == old(self).client.interest_after_read(read, data@)
                &&& !(read is Ready) ==> {
                    &&& final(self).client.msgs@ == old(self).client.msgs@
                    &&& final(self).client.curr == old(self).client.curr
                    &&& final(self).client.tx == old(self).client.tx
                    &&& final(self).client.rx == old(self).client.rx
                }
                &&& read is Ready && (!old(self).client.completes(data@) || old(self).client.msgs@.len() == 0) ==> {
                    &&& final(self).client.msgs@ == old(self).client.msgs@
                    &&& final(self).client.curr == old(self).client.curr
                    &&& final(self).client.tx == old(self).client.tx
                    &&& final(self).client.rx == old(self).client.rx + data@.len()
                }
                &&& old(self).client.finishes(read, data@) && old(self).client.msgs@.len() > 0 ==> {
                    &&& final(self).client.msgs@ == old(self).client.msgs@.remove(0)
                    &&& final(self).client.curr == old(self).client.msgs@[0]
                    &&& final(self).client.tx == 0
                    &&& final(self).client.rx == 0
                }
                &&& final(event_loop).state == if old(self).client.finishes(read, data@) && old(self).client.msgs@.len() == 0 {
                    old(event_loop).state.after_shutdown()
                } else {
                    old(event_loop).state
                }
                &&& final(event_loop).registry@ == rearmed(
                    old(event_loop).registry@,
                    old(self).client.sock,
                    old(self).client.token,
                    final(self).client.interest,
                )
            },
            token.0 != SERVER && token.0 != CLIENT ==> {
                &&& r == rearm_result(
                    old(event_loop).registry@,
                    old(self).server.conns@[token.0 as int].sock,
                )
                &&& final(self).client == old(self).client
                &&& final(self).server.conns@ == old(self).server.conns@.insert(
                    token.0 as int,
                    old(self).server.conns@[token.0 as int].after_read(read, data),
                )
                &&& final(event_loop).state == old(event_loop).state
                &&& final(event_loop).registry@ == rearmed(
                    old(event_loop).registry@,
                    old(self).server.conns@[token.0 as int].sock,
                    old(self).server.conns@[token.0 as int].token,
                    old(self).server.conns@[token.0 as int].after_read(read, data).interest,
                )
            },
    {
        if token.0 == SERVER {
            self.server.accept(event_loop, accepted)
        } else if token.0 == CLIENT {
            self.client.readable(event_loop, read, data)
        } else {
            self.server.conn_readable(event_loop, token, read, data)
        }
    }

    /// Whether the handler can take a writable callback for `token`: the
    /// listener never gets one, and the others need something to write.
    pub open spec fn can_write(&self, token: Token, write: IoOutcome) -> bool {
        if token.0 == SERVER {
            false
        } else if token.0 == CLIENT {
            &&& self.client.wf()
            &&& match write {
                IoOutcome::Ready(n) => n <= self.client.curr@.len() - self.client.tx,
                _ => true,
            }
        } else {
            &&& self.server.conns@.dom().contains(token.0 as int)
            &&& self.server.conns@[token.0 as int].buf is Some
        }
    }

    /// The writable callback; `write` is what the write came back with. The
    /// result is that of the arming.
    pub fn writable(&mut self, event_loop: &mut TestEventLoop, token: Token, write: IoOutcome) -> (r:
        Result<(), Error>)
        requires
            old(self).server.conns.wf(),
            old(self).can_write(token, write),
        ensures
            final(self).server.conns.wf(),
            final(self).server.sock == old(self).server.sock,
            same_but_registry(*final(event_loop), *old(event_loop)),
            token.0 == CLIENT ==> {
                &&& r == rearm_result(old(event_loop).registry@, old(self).client.sock)
                &&& final(self).server.conns@ == old(self).server.conns@
                &&& final(self).client.wf()
                &&& final(self).client.sock == old(self).client.sock
                &&& final(self).client.token == old(self).client.token
                &&& final(self).client.mut_buf == old(self).client.mut_buf
                &&& final(self).client.msgs == old(self).client.msgs
                &&& final(self).client.curr == old(self).client.curr
                &&& final(self).client.rx == old(self).client.rx
                &&& final(self).client.tx == match write {
                    IoOutcome::Ready(n) => old(self).client.tx + n,
                    _ => old(self).client.tx as int,
                }
                &&& final(self).client.interest == old(self).client.interest_after_write(write)
                &&& final(event_loop).registry@ == rearmed(
                    old(event_loop).registry@,
                    old(self).client.sock,
                    old(self).client.token,
                    final(self).client.interest,
                )
            },
            token.0 != CLIENT ==> {
                &&& r == rearm_result(
                    old(event_loop).registry@,
                    old(self).server.conns@[token.0 as int].sock,
                )
                &&& final(self).client == old(self).client
                &&& final(self).server.conns@ == old(self).server.conns@.insert(
                    token.0 as int,
                    old(self).server.conns@[token.0 as int].after_write(write),
                )
                &&& final(event_loop).registry@ == rearmed(
                    old(event_loop).registry@,
                    old(self).server.conns@[token.0 as int].sock,
                    old(self).server.conns@[token.0 as int].token,
                    old(self).server.conns@[token.0 as int].after_write(write).interest,
                )
            },
    {
        if token.0 == CLIENT {
            self.client.writable(event_loop, write)
        } else {
            self.server.conn_writable(event_loop, token, write)
        }
    }
}

} // verus!
