//! The connection manager: a dense table of handlers keyed by stable
//! indices.  Readiness events are routed to the handler their index
//! names; the periodic sweep tears down timed-out connections and
//! releases finished slots for reuse.

use vstd::prelude::*;

use crate::bridge::PreSetEventLoop;
use crate::command::Command;
use crate::h1::H1Fault;
use crate::handler::{spec_handler_read, spec_handler_write, spec_torn_down, ClientHandler};
use crate::net::{ConnectionHandle, SocketStatus};
use crate::channel::RecvStatus;
use crate::response::{pairs_view, spec_send_body, spec_send_start, AppSendError};
use crate::settings::ServerSettings;

verus! {

/// Faults the engine surfaces to the host.
#[derive(Debug)]
pub enum EngineError {
    /// The server verbs were called before `init`.
    NotInitialized,
    /// No handler lives at the index a readiness event named.
    NoSuchClient,
    /// The handler's protocol raised a fault.
    Fault(H1Fault),
}

/// Faults an application call through the engine can raise.
#[derive(Debug)]
pub enum AppCallError {
    /// No handler lives at that index; the connection is gone.
    NoSuchClient,
    /// The send itself failed.
    Send(AppSendError),
}

/// The manager: a dense table of optional handlers and the settings
/// the sweep applies.
pub struct ClientManager {
    /// The handler table; `None` marks a free slot awaiting reuse.
    pub clients: Vec<Option<ClientHandler>>,
    /// The server configuration.
    pub settings: ServerSettings,
}

/// All slots except `index` are unchanged.
pub open spec fn spec_others_same(pre: ClientManager, post: ClientManager, index: int) -> bool {
    &&& post.clients@.len() == pre.clients@.len()
    &&& forall|j: int|
        0 <= j < pre.clients@.len() && j != index ==> #[trigger] post.clients@[j]
            == pre.clients@[j]
}

/// The routed read-event transition of the manager.
pub open spec fn spec_mgr_read(
    pre: ClientManager,
    post: ClientManager,
    index: int,
    status: SocketStatus,
    datav: Seq<u8>,
    now: u64,
    r: Result<(), EngineError>,
) -> bool {
    &&& post.settings == pre.settings
    &&& ((index >= pre.clients@.len() || pre.clients@[index] is None) ==> (r matches Err(e)
        && e is NoSuchClient) && post == pre)
    &&& ((index < pre.clients@.len() && pre.clients@[index] is Some) ==> {
        &&& spec_others_same(pre, post, index)
        &&& post.clients@[index] is Some
        &&& exists|rr: Result<(), H1Fault>|
            #[trigger] spec_handler_read(
                pre.clients@[index]->Some_0,
                post.clients@[index]->Some_0,
                status,
                datav,
                now,
                rr,
            ) && (rr matches Err(f) ==> r == Err::<(), EngineError>(EngineError::Fault(f))) && (
            rr is Ok ==> r is Ok)
    })
}

/// The routed write-report transition of the manager.
pub open spec fn spec_mgr_write(
    pre: ClientManager,
    post: ClientManager,
    index: int,
    status: SocketStatus,
    now: u64,
    r: Result<(), EngineError>,
) -> bool {
    &&& post.settings == pre.settings
    &&& ((index >= pre.clients@.len() || pre.clients@[index] is None) ==> (r matches Err(e)
        && e is NoSuchClient) && post == pre)
    &&& ((index < pre.clients@.len() && pre.clients@[index] is Some) ==> {
        &&& spec_others_same(pre, post, index)
        &&& post.clients@[index] is Some
        &&& exists|rr: Result<(), H1Fault>|
            #[trigger] spec_handler_write(
                pre.clients@[index]->Some_0,
                post.clients@[index]->Some_0,
                status,
                now,
                rr,
            ) && (rr matches Err(f) ==> r == Err::<(), EngineError>(EngineError::Fault(f))) && (
            rr is Ok ==> r is Ok)
    })
}

/// The write-acquire transition of the manager: the handler's write
/// buffer is filled from its response channel and copied out.
pub open spec fn spec_mgr_write_acquire(
    pre: ClientManager,
    post: ClientManager,
    index: int,
    r: Result<Vec<u8>, EngineError>,
) -> bool {
    &&& post.settings == pre.settings
    &&& ((index >= pre.clients@.len() || pre.clients@[index] is None) ==> (r matches Err(e)
        && e is NoSuchClient) && post == pre)
    &&& ((index < pre.clients@.len() && pre.clients@[index] is Some) ==> {
        let h1 = pre.clients@[index]->Some_0;
        let h2 = post.clients@[index]->Some_0;
        &&& spec_others_same(pre, post, index)
        &&& post.clients@[index] is Some
        &&& (h1.protocol.h1.transport is Some ==> {
            &&& crate::h1::spec_fill_write(
                h1.protocol.h1,
                h2.protocol.h1,
                h1.protocol.writer_buffer@,
                h2.protocol.writer_buffer@,
            )
            &&& (r matches Ok(v) && v@ == h2.protocol.writer_buffer@)
        })
    })
}

/// The routed close transition of the manager.
pub open spec fn spec_mgr_close(
    pre: ClientManager,
    post: ClientManager,
    index: int,
    now: u64,
    r: Result<(), EngineError>,
) -> bool {
    &&& post.settings == pre.settings
    &&& ((index >= pre.clients@.len() || pre.clients@[index] is None) ==> (r matches Err(e)
        && e is NoSuchClient) && post == pre)
    &&& ((index < pre.clients@.len() && pre.clients@[index] is Some) ==> {
        let h2 = post.clients@[index]->Some_0;
        &&& r is Ok
        &&& spec_others_same(pre, post, index)
        &&& post.clients@[index] is Some
        &&& h2.is_idle
        &&& h2.idle_for == now
        &&& h2.protocol.h1.sender@.closed
        &&& h2.protocol.h1.receiver@.closed
    })
}

/// The command-drain transition of the manager.
pub open spec fn spec_mgr_take(
    pre: ClientManager,
    post: ClientManager,
    index: int,
    r: Seq<Command>,
) -> bool {
    &&& post.settings == pre.settings
    &&& ((index >= pre.clients@.len() || pre.clients@[index] is None) ==> r
        == Seq::<Command>::empty() && post == pre)
    &&& ((index < pre.clients@.len() && pre.clients@[index] is Some) ==> {
        let h1 = pre.clients@[index]->Some_0;
        &&& spec_others_same(pre, post, index)
        &&& post.clients@[index] is Some
        &&& (h1.protocol.h1.transport is Some ==> r
            == h1.protocol.h1.transport->Some_0.bridge@.out)
        &&& (h1.protocol.h1.transport is None ==> r == Seq::<Command>::empty())
    })
}

/// The sweep transition of the manager: free slots stay free, idle
/// handlers are released, and every live handler is held to the
/// keep-alive timeout.
pub open spec fn spec_mgr_sweep(pre: ClientManager, post: ClientManager, now: u64) -> bool {
    &&& post.settings == pre.settings
    &&& post.clients@.len() == pre.clients@.len()
    &&& forall|i: int|
        0 <= i < pre.clients@.len() ==> {
            let before = pre.clients@[i];
            let after = #[trigger] post.clients@[i];
            &&& (before is None ==> after is None)
            &&& (before matches Some(h) ==> {
                &&& (h.is_idle ==> after is None)
                &&& (!h.is_idle ==> {
                    &&& after is Some
                    &&& ((now >= h.last_time && now - h.last_time >= pre.settings.keep_alive)
                        ==> spec_torn_down(h, after->Some_0, now))
                    &&& (!(now >= h.last_time && now - h.last_time >= pre.settings.keep_alive)
                        ==> after == Some(h))
                })
            })
        }
}

/// The shutdown transition of the manager: every live handler torn
/// down.
pub open spec fn spec_mgr_shutdown(pre: ClientManager, post: ClientManager, now: u64) -> bool {
    &&& post.settings == pre.settings
    &&& post.clients@.len() == pre.clients@.len()
    &&& forall|i: int|
        0 <= i < pre.clients@.len() ==> {
            let before = pre.clients@[i];
            let after = #[trigger] post.clients@[i];
            &&& (before is None ==> after is None)
            &&& (before matches Some(h) ==> after is Some && spec_torn_down(
                h,
                after->Some_0,
                now,
            ))
        }
}

impl ClientManager {
    /// A manager with an empty table.
    pub fn new(settings: ServerSettings) -> (r: ClientManager)
        ensures
            r.clients@.len() == 0,
            r.settings == settings,
    {
        ClientManager { clients: Vec::new(), settings }
    }

    /// The table size: occupied handlers plus free placeholders.
    pub fn len_clients(&self) -> (r: usize)
        ensures
            r == self.clients@.len(),
    {
        self.clients.len()
    }

    /// Takes in an accepted connection: a free slot is reused or a
    /// fresh one appended, and a handler is built whose bridge names
    /// exactly that slot and the connection's descriptor.
    pub fn handle_connection(&mut self, conn: ConnectionHandle, now: u64) -> (index: usize)
        ensures
            final(self).settings == old(self).settings,
            index < final(self).clients@.len(),
            spec_others_same(*old(self), *final(self), index as int)
                || (final(self).clients@.len() == old(self).clients@.len() + 1
                && index == old(self).clients@.len()
                && final(self).clients@.drop_last() == old(self).clients@),
            (index < old(self).clients@.len() ==> old(self).clients@[index as int] is None),
            ({
                let h = final(self).clients@[index as int]->Some_0;
                &&& final(self).clients@[index as int] is Some
                &&& !h.is_free
                &&& !h.is_idle
                &&& h.last_time == now
                &&& crate::h1::h1_fresh(h.protocol.h1)
                &&& ({
                    let t = h.protocol.h1.transport->Some_0;
                    &&& t.client == conn.addr
                    &&& t.server == conn.server
                    &&& t.tls == conn.tls
                    &&& t.bridge@.index == index
                    &&& t.bridge@.fd == conn.fd
                    &&& t.bridge@.reading
                    &&& t.bridge@.out == seq![Command::AddReader(conn.fd, index)]
                })
            }),
    {
        let mut index: usize = 0;
        let mut found = false;
        let n = self.clients.len();
        let mut i: usize = 0;
        while i < n
            invariant
                n == self.clients@.len(),
                i <= n,
                found ==> index < n && self.clients@[index as int] is None,
                !found ==> index == 0,
            decreases n - i,
        {
            if !found {
                let is_empty = match &self.clients[i] {
                    None => true,
                    Some(_) => false,
                };
                if is_empty {
                    index = i;
                    found = true;
                }
            }
            i = i + 1;
        }
        if !found {
            index = self.clients.len();
            self.clients.push(None);
        }
        let bridge = PreSetEventLoop::new(conn.fd, index);
        let handler = ClientHandler::new(conn, bridge, now);
        self.clients.set(index, Some(handler));
        proof {
            assert(self.clients@[index as int]->Some_0.protocol.h1.transport->Some_0.bridge@.out
                =~= seq![Command::AddReader(conn.fd, index)]);
        }
        index
    }

    /// Routes a read-readiness event to the handler at `index`.
    pub fn poll_read(
        &mut self,
        index: usize,
        status: SocketStatus,
        data: Vec<u8>,
        now: u64,
    ) -> (r: Result<(), EngineError>)
        ensures
            spec_mgr_read(*old(self), *final(self), index as int, status, data@, now, r),
    {
        if index >= self.clients.len() {
            return Err(EngineError::NoSuchClient);
        }
        let vacant = match &self.clients[index] {
            None => true,
            Some(_) => false,
        };
        if vacant {
            return Err(EngineError::NoSuchClient);
        }
        match &mut self.clients[index] {
            None => Err(EngineError::NoSuchClient),
            Some(h) => {
                let rr = h.poll_read(status, data, now);
                proof {
                    assert(spec_handler_read(
                        old(self).clients@[index as int]->Some_0,
                        self.clients@[index as int]->Some_0,
                        status,
                        data@,
                        now,
                        rr,
                    ));
                }
                match rr {
                    Ok(()) => Ok(()),
                    Err(f) => Err(EngineError::Fault(f)),
                }
            },
        }
    }

    /// Routes the first half of a write event: what to write.
    pub fn poll_write_acquire(&mut self, index: usize) -> (r: Result<Vec<u8>, EngineError>)
        ensures
            spec_mgr_write_acquire(*old(self), *final(self), index as int, r),
    {
        if index >= self.clients.len() {
            return Err(EngineError::NoSuchClient);
        }
        let vacant = match &self.clients[index] {
            None => true,
            Some(_) => false,
        };
        if vacant {
            return Err(EngineError::NoSuchClient);
        }
        match &mut self.clients[index] {
            None => Err(EngineError::NoSuchClient),
            Some(h) => {
                match h.poll_write_acquire() {
                    Ok(v) => Ok(v),
                    Err(f) => Err(EngineError::Fault(f)),
                }
            },
        }
    }

    /// Routes the second half of a write event: what the write did.
    pub fn poll_write(&mut self, index: usize, status: SocketStatus, now: u64) -> (r: Result<
        (),
        EngineError,
    >)
        ensures
            spec_mgr_write(*old(self), *final(self), index as int, status, now, r),
    {
        if index >= self.clients.len() {
            return Err(EngineError::NoSuchClient);
        }
        let vacant = match &self.clients[index] {
            None => true,
            Some(_) => false,
        };
        if vacant {
            return Err(EngineError::NoSuchClient);
        }
        match &mut self.clients[index] {
            None => Err(EngineError::NoSuchClient),
            Some(h) => {
                let rr = h.poll_write(status, now);
                proof {
                    assert(spec_handler_write(
                        old(self).clients@[index as int]->Some_0,
                        self.clients@[index as int]->Some_0,
                        status,
                        now,
                        rr,
                    ));
                }
                match rr {
                    Ok(()) => Ok(()),
                    Err(f) => Err(EngineError::Fault(f)),
                }
            },
        }
    }

    /// Routes a close event.
    pub fn poll_close(&mut self, index: usize, now: u64) -> (r: Result<(), EngineError>)
        ensures
            spec_mgr_close(*old(self), *final(self), index as int, now, r),
    {
        if index >= self.clients.len() {
            return Err(EngineError::NoSuchClient);
        }
        let vacant = match &self.clients[index] {
            None => true,
            Some(_) => false,
        };
        if vacant {
            return Err(EngineError::NoSuchClient);
        }
        match &mut self.clients[index] {
            None => Err(EngineError::NoSuchClient),
            Some(h) => {
                h.poll_close(now);
                Ok(())
            },
        }
    }

    /// Drains the commands the handler at `index` has queued.
    pub fn take_commands(&mut self, index: usize) -> (r: Vec<Command>)
        ensures
            spec_mgr_take(*old(self), *final(self), index as int, r@),
    {
        if index >= self.clients.len() {
            return Vec::new();
        }
        let vacant = match &self.clients[index] {
            None => true,
            Some(_) => false,
        };
        if vacant {
            return Vec::new();
        }
        match &mut self.clients[index] {
            None => Vec::new(),
            Some(h) => h.take_commands(),
        }
    }

    /// The periodic sweep.
    pub fn poll_keep_alive(&mut self, now: u64)
        ensures
            spec_mgr_sweep(*old(self), *final(self), now),
    {
        let n = self.clients.len();
        let limit = self.settings.keep_alive;
        let mut i: usize = 0;
        while i < n
            invariant
                n == self.clients@.len(),
                i <= n,
                limit == self.settings.keep_alive,
                self.settings == old(self).settings,
                forall|j: int|
                    i <= j < n ==> #[trigger] self.clients@[j] == old(self).clients@[j],
                forall|j: int|
                    0 <= j < i ==> {
                        let before = old(self).clients@[j];
                        let after = #[trigger] self.clients@[j];
                        &&& (before is None ==> after is None)
                        &&& (before matches Some(h) ==> {
                            &&& (h.is_idle ==> after is None)
                            &&& (!h.is_idle ==> {
                                &&& after is Some
                                &&& ((now >= h.last_time && now - h.last_time >= limit)
                                    ==> spec_torn_down(h, after->Some_0, now))
                                &&& (!(now >= h.last_time && now - h.last_time >= limit)
                                    ==> after == Some(h))
                            })
                        })
                    },
            decreases n - i,
        {
            let mut release = false;
            match &mut self.clients[i] {
                None => {},
                Some(h) => {
                    if h.is_idle() {
                        if !h.is_free() {
                            h.set_free();
                        }
                        release = true;
                    } else {
                        h.poll_keep_alive(now, limit);
                    }
                },
            }
            if release {
                self.clients.set(i, None);
            }
            i = i + 1;
        }
    }

    /// Shuts every live handler down.
    pub fn shutdown(&mut self, now: u64)
        ensures
            spec_mgr_shutdown(*old(self), *final(self), now),
    {
        let n = self.clients.len();
        let mut i: usize = 0;
        while i < n
            invariant
                n == self.clients@.len(),
                i <= n,
                self.settings == old(self).settings,
                forall|j: int|
                    i <= j < n ==> #[trigger] self.clients@[j] == old(self).clients@[j],
                forall|j: int|
                    0 <= j < i ==> {
                        let before = old(self).clients@[j];
                        let after = #[trigger] self.clients@[j];
                        &&& (before is None ==> after is None)
                        &&& (before matches Some(h) ==> after is Some && spec_torn_down(
                            h,
                            after->Some_0,
                            now,
                        ))
                    },
            decreases n - i,
        {
            match &mut self.clients[i] {
                None => {},
                Some(h) => {
                    h.shutdown(now);
                },
            }
            i = i + 1;
        }
    }
}



/// The routed response-start transition of the manager.
pub open spec fn spec_mgr_send_start(
    pre: ClientManager,
    post: ClientManager,
    index: int,
    status: u16,
    hv: Seq<(Seq<u8>, Seq<u8>)>,
    r: Result<(), AppCallError>,
) -> bool {
    &&& post.settings == pre.settings
    &&& ((index >= pre.clients@.len() || pre.clients@[index] is None) ==> (r matches Err(e)
        && e is NoSuchClient) && post == pre)
    &&& ((index < pre.clients@.len() && pre.clients@[index] is Some) ==> {
        let h1 = pre.clients@[index]->Some_0;
        let h2 = post.clients@[index]->Some_0;
        &&& spec_others_same(pre, post, index)
        &&& post.clients@[index] is Some
        &&& exists|rr: Result<(), AppSendError>|
            #[trigger] spec_send_start(
                h1.protocol.h1.app_sender,
                h2.protocol.h1.app_sender,
                h1.protocol.h1.sender@,
                h2.protocol.h1.sender@,
                status,
                hv,
                rr,
            ) && (rr matches Err(f) ==> r == Err::<(), AppCallError>(AppCallError::Send(f))) && (
            rr is Ok ==> r is Ok)
    })
}

/// The routed body-send transition of the manager.
pub open spec fn spec_mgr_send_body(
    pre: ClientManager,
    post: ClientManager,
    index: int,
    more_body: bool,
    body: Seq<u8>,
    r: Result<(), AppCallError>,
) -> bool {
    &&& post.settings == pre.settings
    &&& ((index >= pre.clients@.len() || pre.clients@[index] is None) ==> (r matches Err(e)
        && e is NoSuchClient) && post == pre)
    &&& ((index < pre.clients@.len() && pre.clients@[index] is Some) ==> {
        let h1 = pre.clients@[index]->Some_0;
        let h2 = post.clients@[index]->Some_0;
        &&& spec_others_same(pre, post, index)
        &&& post.clients@[index] is Some
        &&& exists|rr: Result<(), AppSendError>|
            #[trigger] spec_send_body(
                h1.protocol.h1.app_sender,
                h1.protocol.h1.sender@,
                h2.protocol.h1.sender@,
                more_body,
                body,
                rr,
            ) && (rr matches Err(f) ==> r == Err::<(), AppCallError>(AppCallError::Send(f))) && (
            rr is Ok ==> r is Ok)
    })
}

/// The routed body-receive transition of the manager.
pub open spec fn spec_mgr_recv_body(
    pre: ClientManager,
    post: ClientManager,
    index: int,
    r: Result<RecvStatus, AppCallError>,
) -> bool {
    &&& post.settings == pre.settings
    &&& ((index >= pre.clients@.len() || pre.clients@[index] is None) ==> (r matches Err(e)
        && e is NoSuchClient) && post == pre)
    &&& ((index < pre.clients@.len() && pre.clients@[index] is Some) ==> {
        let c1 = pre.clients@[index]->Some_0.protocol.h1.receiver@;
        let c2 = post.clients@[index]->Some_0.protocol.h1.receiver@;
        &&& spec_others_same(pre, post, index)
        &&& post.clients@[index] is Some
        &&& (c1.msgs.len() > 0 ==> r == Ok::<RecvStatus, AppCallError>(RecvStatus::Received(
            c1.msgs[0],
        )) && c2 == (crate::channel::RequestChannelModel { msgs: c1.msgs.drop_first(), ..c1 }))
        &&& (c1.msgs.len() == 0 ==> c2 == c1 && (c1.closed ==> (r matches Ok(s) && s is Closed))
            && (!c1.closed ==> (r matches Ok(s) && s is Empty)))
    })
}

impl ClientManager {
    /// The application submits the response start for connection
    /// `index`.
    pub fn send_start(
        &mut self,
        index: usize,
        status: u16,
        headers: &Vec<(Vec<u8>, Vec<u8>)>,
    ) -> (r: Result<(), AppCallError>)
        ensures
            spec_mgr_send_start(
                *old(self),
                *final(self),
                index as int,
                status,
                pairs_view(headers@),
                r,
            ),
    {
        if index >= self.clients.len() {
            return Err(AppCallError::NoSuchClient);
        }
        let vacant = match &self.clients[index] {
            None => true,
            Some(_) => false,
        };
        if vacant {
            return Err(AppCallError::NoSuchClient);
        }
        match &mut self.clients[index] {
            None => Err(AppCallError::NoSuchClient),
            Some(h) => {
                let rr = h.send_start(status, headers);
                proof {
                    assert(spec_send_start(
                        old(self).clients@[index as int]->Some_0.protocol.h1.app_sender,
                        self.clients@[index as int]->Some_0.protocol.h1.app_sender,
                        old(self).clients@[index as int]->Some_0.protocol.h1.sender@,
                        self.clients@[index as int]->Some_0.protocol.h1.sender@,
                        status,
                        pairs_view(headers@),
                        rr,
                    ));
                }
                match rr {
                    Ok(()) => Ok(()),
                    Err(f) => Err(AppCallError::Send(f)),
                }
            },
        }
    }

    /// The application submits a response body chunk for connection
    /// `index`.
    pub fn send_body(&mut self, index: usize, more_body: bool, body: Vec<u8>) -> (r: Result<
        (),
        AppCallError,
    >)
        ensures
            spec_mgr_send_body(*old(self), *final(self), index as int, more_body, body@, r),
    {
        if index >= self.clients.len() {
            return Err(AppCallError::NoSuchClient);
        }
        let vacant = match &self.clients[index] {
            None => true,
            Some(_) => false,
        };
        if vacant {
            return Err(AppCallError::NoSuchClient);
        }
        match &mut self.clients[index] {
            None => Err(AppCallError::NoSuchClient),
            Some(h) => {
                let rr = h.send_body(more_body, body);
                proof {
                    assert(spec_send_body(
                        old(self).clients@[index as int]->Some_0.protocol.h1.app_sender,
                        old(self).clients@[index as int]->Some_0.protocol.h1.sender@,
                        self.clients@[index as int]->Some_0.protocol.h1.sender@,
                        more_body,
                        body@,
                        rr,
                    ));
                }
                match rr {
                    Ok(()) => Ok(()),
                    Err(f) => Err(AppCallError::Send(f)),
                }
            },
        }
    }

    /// The application receives the oldest request body chunk of
    /// connection `index`.
    pub fn recv_body(&mut self, index: usize) -> (r: Result<RecvStatus, AppCallError>)
        ensures
            spec_mgr_recv_body(*old(self), *final(self), index as int, r),
    {
        if index >= self.clients.len() {
            return Err(AppCallError::NoSuchClient);
        }
        let vacant = match &self.clients[index] {
            None => true,
            Some(_) => false,
        };
        if vacant {
            return Err(AppCallError::NoSuchClient);
        }
        match &mut self.clients[index] {
            None => Err(AppCallError::NoSuchClient),
            Some(h) => Ok(h.recv_body()),
        }
    }

    /// The application registers a response-channel waker.
    pub fn subscribe_send(&mut self, index: usize, waker: u64) -> (r: Result<(), AppCallError>)
        ensures
            final(self).settings == old(self).settings,
            ((index >= old(self).clients@.len() || old(self).clients@[index as int] is None)
                ==> (r matches Err(e) && e is NoSuchClient) && *final(self) == *old(self)),
            ((index < old(self).clients@.len() && old(self).clients@[index as int] is Some)
                ==> {
                &&& r is Ok
                &&& spec_others_same(*old(self), *final(self), index as int)
                &&& final(self).clients@[index as int] is Some
                &&& final(self).clients@[index as int]->Some_0.protocol.h1.sender@.wakers == old(
                    self,
                ).clients@[index as int]->Some_0.protocol.h1.sender@.wakers.push(waker)
            }),
    {
        if index >= self.clients.len() {
            return Err(AppCallError::NoSuchClient);
        }
        let vacant = match &self.clients[index] {
            None => true,
            Some(_) => false,
        };
        if vacant {
            return Err(AppCallError::NoSuchClient);
        }
        match &mut self.clients[index] {
            None => Err(AppCallError::NoSuchClient),
            Some(h) => {
                h.subscribe_send(waker);
                Ok(())
            },
        }
    }

    /// The application registers a request-channel waker.
    pub fn subscribe_recv(&mut self, index: usize, waker: u64) -> (r: Result<(), AppCallError>)
        ensures
            final(self).settings == old(self).settings,
            ((index >= old(self).clients@.len() || old(self).clients@[index as int] is None)
                ==> (r matches Err(e) && e is NoSuchClient) && *final(self) == *old(self)),
            ((index < old(self).clients@.len() && old(self).clients@[index as int] is Some)
                ==> {
                &&& r is Ok
                &&& spec_others_same(*old(self), *final(self), index as int)
                &&& final(self).clients@[index as int] is Some
                &&& final(self).clients@[index as int]->Some_0.protocol.h1.receiver@.wakers
                    == old(
                    self,
                ).clients@[index as int]->Some_0.protocol.h1.receiver@.wakers.push(waker)
            }),
    {
        if index >= self.clients.len() {
            return Err(AppCallError::NoSuchClient);
        }
        let vacant = match &self.clients[index] {
            None => true,
            Some(_) => false,
        };
        if vacant {
            return Err(AppCallError::NoSuchClient);
        }
        match &mut self.clients[index] {
            None => Err(AppCallError::NoSuchClient),
            Some(h) => {
                h.subscribe_recv(waker);
                Ok(())
            },
        }
    }
}

} // verus!
