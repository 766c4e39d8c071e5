//! The per-connection handler: binds the protocol holder to one
//! socket, implements the readiness callbacks, and keeps the idle and
//! keep-alive timestamps.

use vstd::prelude::*;

use crate::bridge::{
    spec_arm_reader, spec_disarm_reader, spec_disarm_writer, spec_schedule_close, BridgeModel,
    PreSetEventLoop,
};
use crate::channel::RecvStatus;
use crate::command::Command;
use crate::h1::{spec_data_received, H1Fault};
use crate::net::{ConnectionHandle, SocketStatus};
use crate::response::{pairs_view, spec_send_body, spec_send_start, AppSendError};
use crate::selector::AutoProtocol;
use crate::transport::Transport;

verus! {

/// One connection's handler.
pub struct ClientHandler {
    /// The protocol holder, which owns buffers, channels and the
    /// transport.
    pub protocol: AutoProtocol,
    /// The sweep has observed this handler idle and released it.
    pub is_free: bool,
    /// The connection is closed or half-closed and will not produce
    /// further reads; sticky once set.
    pub is_idle: bool,
    /// When bytes last arrived, in the host's clock (milliseconds).
    pub last_time: u64,
    /// When the handler became idle.
    pub idle_for: u64,
}

/// The exact bridge effect of one teardown: schedule the close, then
/// disarm the reader, then disarm the writer.  Each step is a no-op
/// when already done, so a second teardown queues no further host
/// calls.
pub open spec fn spec_teardown_bridge(m: BridgeModel) -> BridgeModel {
    spec_disarm_writer(spec_disarm_reader(spec_schedule_close(m)))
}

/// Tearing down twice is one set of host calls: on a state already
/// torn down, the close is scheduled and both directions are
/// disarmed, so every step of the second pass is a no-op.
pub proof fn law_teardown_idempotent(m: BridgeModel)
    ensures
        spec_teardown_bridge(spec_teardown_bridge(m)) == spec_teardown_bridge(m),
{
}

/// A handler after teardown: idle, channels closed, buffers empty,
/// readiness disarmed and the socket's close scheduled; the command
/// queue grows by exactly one teardown pass.
pub open spec fn spec_torn_down(pre: ClientHandler, post: ClientHandler, now: u64) -> bool {
    &&& post.is_idle
    &&& post.idle_for == now
    &&& post.is_free == pre.is_free
    &&& post.last_time == pre.last_time
    &&& post.protocol.reader_buffer@ == Seq::<u8>::empty()
    &&& post.protocol.writer_buffer@ == Seq::<u8>::empty()
    &&& post.protocol.h1.sender@.closed
    &&& post.protocol.h1.receiver@.closed
    &&& (pre.protocol.h1.transport is Some ==> {
        let t1 = pre.protocol.h1.transport->Some_0;
        let t2 = post.protocol.h1.transport->Some_0;
        &&& post.protocol.h1.transport is Some
        &&& t2.client == t1.client
        &&& t2.server == t1.server
        &&& t2.tls == t1.tls
        &&& !t2.bridge@.reading
        &&& !t2.bridge@.writing
        &&& t2.bridge@.close_scheduled
        &&& t2.bridge@.fd == t1.bridge@.fd
        &&& t2.bridge@.index == t1.bridge@.index
        &&& t2.bridge@ == spec_teardown_bridge(t1.bridge@)
    })
}

/// The full read-event transition of a handler.
pub open spec fn spec_handler_read(
    pre: ClientHandler,
    post: ClientHandler,
    status: SocketStatus,
    datav: Seq<u8>,
    now: u64,
    r: Result<(), H1Fault>,
) -> bool {
    &&& (status is WouldBlock ==> r is Ok && post == pre)
    &&& ((status is Disconnect || status == SocketStatus::Complete(0usize)) ==> r is Ok
        && spec_torn_down(pre, post, now))
    &&& ((status matches SocketStatus::Complete(n) && n > 0) ==> {
        &&& post.is_idle == pre.is_idle
        &&& post.is_free == pre.is_free
        &&& post.idle_for == pre.idle_for
        &&& (r is Ok ==> post.last_time == now)
        &&& spec_data_received(
            pre.protocol.h1,
            pre.protocol.reader_buffer@ + datav,
            post.protocol.h1,
            post.protocol.reader_buffer@,
            r,
        )
    })
}

/// The full write-report transition of a handler.
pub open spec fn spec_handler_write(
    pre: ClientHandler,
    post: ClientHandler,
    status: SocketStatus,
    now: u64,
    r: Result<(), H1Fault>,
) -> bool {
    &&& (status is WouldBlock ==> r is Ok && post == pre)
    &&& (status is Disconnect ==> r is Ok && spec_torn_down(pre, post, now))
    &&& (status matches SocketStatus::Complete(n) ==> {
        &&& post.is_idle == pre.is_idle
        &&& post.is_free == pre.is_free
        &&& post.last_time == pre.last_time
        &&& (pre.protocol.h1.transport is None ==> (r matches Err(e) && e is TransportUnset)
            && post == pre)
        &&& (pre.protocol.h1.transport is Some ==> r is Ok && post.protocol.writer_buffer@
            == pre.protocol.writer_buffer@.subrange(
            (if n <= pre.protocol.writer_buffer@.len() {
                n as int
            } else {
                pre.protocol.writer_buffer@.len() as int
            }),
            pre.protocol.writer_buffer@.len() as int,
        ))
    })
}

impl ClientHandler {
    /// A handler for a freshly accepted connection: the reader is
    /// armed and the protocol bound to the connection's transport.
    pub fn new(conn: ConnectionHandle, bridge: PreSetEventLoop, now: u64) -> (r: ClientHandler)
        ensures
            !r.is_free,
            !r.is_idle,
            r.last_time == now,
            r.idle_for == now,
            crate::h1::h1_fresh(r.protocol.h1),
            r.protocol.reader_buffer@ == Seq::<u8>::empty(),
            r.protocol.writer_buffer@ == Seq::<u8>::empty(),
            ({
                let t = r.protocol.h1.transport->Some_0;
                &&& t.client == conn.addr
                &&& t.server == conn.server
                &&& t.tls == conn.tls
                &&& t.bridge@ == spec_arm_reader(bridge@)
            }),
    {
        let mut bridge = bridge;
        bridge.arm_reader();
        let transport = Transport::new(conn.addr, conn.server, conn.tls, bridge);
        let protocol = AutoProtocol::new(transport);
        ClientHandler { protocol, is_free: false, is_idle: false, last_time: now, idle_for: now }
    }

    /// Rebinds a recycled handler slot to a new connection: the bridge
    /// is pointed at the new socket, all protocol state is reset, and
    /// the reader armed.
    pub fn set_connection(&mut self, conn: ConnectionHandle, now: u64) -> (r: Result<
        (),
        H1Fault,
    >)
        ensures
            old(self).protocol.h1.transport is None ==> (r matches Err(e)
                && e is TransportUnset) && *final(self) == *old(self),
            old(self).protocol.h1.transport is Some ==> {
                let t = final(self).protocol.h1.transport->Some_0;
                &&& r is Ok
                &&& !final(self).is_free
                &&& !final(self).is_idle
                &&& final(self).last_time == now
                &&& crate::h1::h1_fresh(final(self).protocol.h1)
                &&& t.client == conn.addr
                &&& t.server == conn.server
                &&& t.tls == conn.tls
                &&& t.bridge@.fd == conn.fd
                &&& t.bridge@.reading
                &&& !t.bridge@.writing
                &&& !t.bridge@.close_scheduled
            },
    {
        let mut taken: Option<Transport> = None;
        core::mem::swap(&mut taken, &mut self.protocol.h1.transport);
        match taken {
            None => Err(H1Fault::TransportUnset),
            Some(t) => {
                let Transport { client: _, server: _, tls: _, bridge } = t;
                let mut bridge = bridge;
                bridge.rebind(conn.fd);
                bridge.arm_reader();
                let transport = Transport::new(conn.addr, conn.server, conn.tls, bridge);
                self.protocol.new_connection(transport);
                self.is_idle = false;
                self.is_free = false;
                self.last_time = now;
                Ok(())
            },
        }
    }

    /// Tears the connection down: the host is asked to close the
    /// socket, readiness stops, buffers clear, and the channels close.
    pub fn shutdown(&mut self, now: u64)
        ensures
            spec_torn_down(*old(self), *final(self), now),
            final(self).is_idle,
            final(self).idle_for == now,
    {
        match &mut self.protocol.h1.transport {
            Some(t) => {
                t.close();
            },
            None => {},
        }
        self.protocol.connection_lost();
        self.is_idle = true;
        self.idle_for = now;
    }

    /// One read-readiness event.  The host hands over what the read
    /// returned: the bytes on progress, EOF as a zero-length read, or
    /// the disconnect.
    pub fn poll_read(&mut self, status: SocketStatus, data: Vec<u8>, now: u64) -> (r: Result<
        (),
        H1Fault,
    >)
        ensures
            spec_handler_read(*old(self), *final(self), status, data@, now, r),
    {
        match status {
            SocketStatus::WouldBlock => Ok(()),
            SocketStatus::Disconnect => {
                self.shutdown(now);
                Ok(())
            },
            SocketStatus::Complete(n) => {
                if n == 0 {
                    self.shutdown(now);
                    return Ok(());
                }
                self.protocol.read_buffer_append(data.as_slice());
                match self.protocol.read_buffer_filled(n) {
                    Err(e) => Err(e),
                    Ok(()) => {
                        self.last_time = now;
                        let _ = self.protocol.maybe_switch();
                        Ok(())
                    },
                }
            },
        }
    }

    /// One write-readiness event, first half: fill the write buffer
    /// from the response channel and hand the host what to write.
    pub fn poll_write_acquire(&mut self) -> (r: Result<Vec<u8>, H1Fault>)
        ensures
            old(self).protocol.h1.transport is None ==> (r matches Err(e)
                && e is TransportUnset) && *final(self) == *old(self),
            old(self).protocol.h1.transport is Some ==> {
                &&& crate::h1::spec_fill_write(
                    old(self).protocol.h1,
                    final(self).protocol.h1,
                    old(self).protocol.writer_buffer@,
                    final(self).protocol.writer_buffer@,
                )
                &&& (r matches Ok(v) && v@ == final(self).protocol.writer_buffer@)
                &&& final(self).is_idle == old(self).is_idle
                &&& final(self).is_free == old(self).is_free
                &&& final(self).last_time == old(self).last_time
            },
    {
        self.protocol.write_buffer_acquire()
    }

    /// One write-readiness event, second half: the host reports what
    /// the write returned.
    pub fn poll_write(&mut self, status: SocketStatus, now: u64) -> (r: Result<(), H1Fault>)
        ensures
            spec_handler_write(*old(self), *final(self), status, now, r),
    {
        match status {
            SocketStatus::WouldBlock => Ok(()),
            SocketStatus::Disconnect => {
                self.shutdown(now);
                Ok(())
            },
            SocketStatus::Complete(n) => self.protocol.write_buffer_drained(n),
        }
    }

    /// The host says the socket is being closed.
    pub fn poll_close(&mut self, now: u64)
        ensures
            final(self).is_idle,
            final(self).idle_for == now,
            final(self).protocol.h1.sender@.closed,
            final(self).protocol.h1.receiver@.closed,
            final(self).protocol.reader_buffer@ == Seq::<u8>::empty(),
            final(self).protocol.writer_buffer@ == Seq::<u8>::empty(),
    {
        self.protocol.connection_lost();
        self.is_idle = true;
        self.idle_for = now;
    }

    /// The periodic sweep: a connection idle for at least `limit`
    /// milliseconds is torn down unconditionally.
    pub fn poll_keep_alive(&mut self, now: u64, limit: u64)
        ensures
            (now >= old(self).last_time && now - old(self).last_time >= limit)
                ==> spec_torn_down(*old(self), *final(self), now),
            !(now >= old(self).last_time && now - old(self).last_time >= limit) ==> *final(self)
                == *old(self),
    {
        if now >= self.last_time && now - self.last_time >= limit {
            self.shutdown(now);
        }
    }

    /// Whether the connection will produce no further reads; sticky.
    pub fn is_idle(&self) -> (r: bool)
        ensures
            r == self.is_idle,
    {
        self.is_idle
    }

    /// Whether the sweep has already released this handler.
    pub fn is_free(&self) -> (r: bool)
        ensures
            r == self.is_free,
    {
        self.is_free
    }

    /// The sweep releases the handler.
    pub fn set_free(&mut self)
        ensures
            *final(self) == (ClientHandler { is_free: true, ..*old(self) }),
    {
        self.is_free = true;
    }

    /// Hands the host the commands this connection has queued.
    pub fn take_commands(&mut self) -> (r: Vec<Command>)
        ensures
            old(self).protocol.h1.transport is None ==> r@ == Seq::<Command>::empty()
                && *final(self) == *old(self),
            old(self).protocol.h1.transport is Some ==> {
                let t1 = old(self).protocol.h1.transport->Some_0;
                let t2 = final(self).protocol.h1.transport->Some_0;
                &&& r@ == t1.bridge@.out
                &&& final(self).protocol.h1.transport is Some
                &&& t2.bridge@ == (crate::bridge::BridgeModel {
                    out: Seq::<Command>::empty(),
                    ..t1.bridge@
                })
                &&& t2.client == t1.client
                &&& t2.server == t1.server
                &&& t2.tls == t1.tls
                &&& final(self).protocol.h1 == (crate::h1::H1Protocol {
                    transport: final(self).protocol.h1.transport,
                    ..old(self).protocol.h1
                })
                &&& final(self).protocol.reader_buffer == old(self).protocol.reader_buffer
                &&& final(self).protocol.writer_buffer == old(self).protocol.writer_buffer
                &&& final(self).is_idle == old(self).is_idle
                &&& final(self).is_free == old(self).is_free
                &&& final(self).last_time == old(self).last_time
            },
    {
        match &mut self.protocol.h1.transport {
            Some(t) => t.bridge.take_commands(),
            None => Vec::new(),
        }
    }

    /// The application submits the response start for this connection.
    pub fn send_start(&mut self, status: u16, headers: &Vec<(Vec<u8>, Vec<u8>)>) -> (r: Result<
        (),
        AppSendError,
    >)
        ensures
            spec_send_start(
                old(self).protocol.h1.app_sender,
                final(self).protocol.h1.app_sender,
                old(self).protocol.h1.sender@,
                final(self).protocol.h1.sender@,
                status,
                pairs_view(headers@),
                r,
            ),
    {
        self.protocol.h1.app_sender.send_start(&mut self.protocol.h1.sender, status, headers)
    }

    /// The application submits a response body chunk.
    pub fn send_body(&mut self, more_body: bool, body: Vec<u8>) -> (r: Result<(), AppSendError>)
        ensures
            spec_send_body(
                old(self).protocol.h1.app_sender,
                old(self).protocol.h1.sender@,
                final(self).protocol.h1.sender@,
                more_body,
                body@,
                r,
            ),
            final(self).protocol.h1.app_sender == old(self).protocol.h1.app_sender,
    {
        self.protocol.h1.app_sender.send_body(&mut self.protocol.h1.sender, more_body, body)
    }

    /// The application receives the oldest request body chunk.
    pub fn recv_body(&mut self) -> (r: RecvStatus)
        ensures
            old(self).protocol.h1.receiver@.msgs.len() > 0 ==> {
                &&& r == RecvStatus::Received(old(self).protocol.h1.receiver@.msgs[0])
                &&& final(self).protocol.h1.receiver@ == (crate::channel::RequestChannelModel {
                    msgs: old(self).protocol.h1.receiver@.msgs.drop_first(),
                    ..old(self).protocol.h1.receiver@
                })
            },
            old(self).protocol.h1.receiver@.msgs.len() == 0 ==> {
                &&& final(self).protocol.h1.receiver@ == old(self).protocol.h1.receiver@
                &&& (old(self).protocol.h1.receiver@.closed ==> r is Closed)
                &&& (!old(self).protocol.h1.receiver@.closed ==> r is Empty)
            },
    {
        self.protocol.h1.receiver.try_recv()
    }

    /// The application registers a waker for the response channel.
    pub fn subscribe_send(&mut self, waker: u64)
        ensures
            final(self).protocol.h1.sender@.wakers
                == old(self).protocol.h1.sender@.wakers.push(waker),
    {
        self.protocol.h1.sender.subscribe(waker);
    }

    /// The application registers a waker for the request channel.
    pub fn subscribe_recv(&mut self, waker: u64)
        ensures
            final(self).protocol.h1.receiver@.wakers
                == old(self).protocol.h1.receiver@.wakers.push(waker),
    {
        self.protocol.h1.receiver.subscribe(waker);
    }
}

} // verus!
