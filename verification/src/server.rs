//! The public verbs the host loop drives: accept, the per-connection
//! readiness polls, the keep-alive sweep, and shutdown.  The server
//! owns the listener descriptions and the connection manager; every
//! verb answers with commands the host must perform.

use vstd::prelude::*;

use crate::command::Command;
use crate::channel::RecvStatus;
use crate::manager::{
    spec_mgr_close, spec_mgr_read, spec_mgr_recv_body, spec_mgr_send_body, spec_mgr_send_start,
    spec_mgr_shutdown, spec_mgr_sweep, spec_mgr_take, spec_mgr_write, spec_mgr_write_acquire,
    AppCallError, ClientManager, EngineError,
};
use crate::response::pairs_view;
use crate::net::{Addr, ConnectionHandle, SocketStatus};
use crate::settings::ServerSettings;

verus! {

/// One bound listener, as the host reports it: its descriptor and
/// the address it listens on.
pub struct ListenerInfo {
    pub fd: i32,
    pub addr: Addr,
}

/// The engine's front door.
pub struct Server {
    /// The server configuration.
    pub settings: ServerSettings,
    /// The listeners the host has bound.
    pub listeners: Vec<ListenerInfo>,
    /// The connection manager; present once `init` has run.
    pub manager: Option<ClientManager>,
}

impl Server {
    /// A server around bound listeners; `init` must run before the
    /// poll verbs.
    pub fn new(settings: ServerSettings, listeners: Vec<ListenerInfo>) -> (r: Server)
        ensures
            r.settings == settings,
            r.listeners == listeners,
            r.manager is None,
    {
        Server { settings, listeners, manager: None }
    }

    /// Creates the manager; the host loop may then deliver events.
    pub fn init(&mut self)
        ensures
            final(self).settings == old(self).settings,
            final(self).listeners == old(self).listeners,
            final(self).manager matches Some(m) && m.clients@.len() == 0
                && m.settings == old(self).settings,
    {
        self.manager = Some(ClientManager::new(self.settings));
    }

    /// Lists each listener's descriptor with its index, for the host
    /// to register accept readiness.
    pub fn ignite(&self) -> (r: Vec<(i32, usize)>)
        ensures
            r@.len() == self.listeners@.len(),
            forall|k: int|
                0 <= k < r@.len() ==> #[trigger] r@[k] == (self.listeners@[k].fd, k as usize),
    {
        let mut out: Vec<(i32, usize)> = Vec::new();
        let mut i: usize = 0;
        while i < self.listeners.len()
            invariant
                i <= self.listeners@.len(),
                out@.len() == i,
                forall|k: int|
                    0 <= k < i ==> #[trigger] out@[k] == (self.listeners@[k].fd, k as usize),
            decreases self.listeners@.len() - i,
        {
            out.push((self.listeners[i].fd, i));
            i = i + 1;
        }
        out
    }

    /// The table size: occupied handlers plus free placeholders.
    pub fn len_clients(&self) -> (r: Result<usize, EngineError>)
        ensures
            self.manager is None ==> (r matches Err(e) && e is NotInitialized),
            self.manager matches Some(m) ==> r == Ok::<usize, EngineError>(
                m.clients@.len() as usize,
            ),
    {
        match &self.manager {
            None => Err(EngineError::NotInitialized),
            Some(m) => Ok(m.len_clients()),
        }
    }

    /// Takes in one accepted connection and answers with the handler
    /// index the host must use for its readiness events.
    pub fn handle_connection(&mut self, conn: ConnectionHandle, now: u64) -> (r: Result<
        usize,
        EngineError,
    >)
        ensures
            final(self).settings == old(self).settings,
            final(self).listeners == old(self).listeners,
            old(self).manager is None ==> (r matches Err(e) && e is NotInitialized)
                && final(self).manager is None,
            old(self).manager is Some ==> {
                let m1 = old(self).manager->Some_0;
                let m2 = final(self).manager->Some_0;
                &&& final(self).manager is Some
                &&& (r matches Ok(index) && {
                    let h = m2.clients@[index as int]->Some_0;
                    &&& index < m2.clients@.len()
                    &&& m2.clients@[index as int] is Some
                    &&& !h.is_free
                    &&& !h.is_idle
                    &&& h.last_time == now
                    &&& crate::h1::h1_fresh(h.protocol.h1)
                    &&& h.protocol.h1.transport->Some_0.bridge@.fd == conn.fd
                    &&& h.protocol.h1.transport->Some_0.bridge@.index == index
                    &&& h.protocol.h1.transport->Some_0.bridge@.out == seq![
                        Command::AddReader(conn.fd, index),
                    ]
                })
            },
    {
        match &mut self.manager {
            None => Err(EngineError::NotInitialized),
            Some(m) => Ok(m.handle_connection(conn, now)),
        }
    }

    /// Routes a read-readiness event.
    pub fn poll_read(
        &mut self,
        index: usize,
        status: SocketStatus,
        data: Vec<u8>,
        now: u64,
    ) -> (r: Result<(), EngineError>)
        ensures
            final(self).settings == old(self).settings,
            final(self).listeners == old(self).listeners,
            old(self).manager is None ==> (r matches Err(e) && e is NotInitialized)
                && final(self).manager is None,
            old(self).manager is Some ==> final(self).manager is Some && spec_mgr_read(
                old(self).manager->Some_0,
                final(self).manager->Some_0,
                index as int,
                status,
                data@,
                now,
                r,
            ),
    {
        match &mut self.manager {
            None => Err(EngineError::NotInitialized),
            Some(m) => m.poll_read(index, status, data, now),
        }
    }

    /// Routes the first half of a write event: what to write.
    pub fn poll_write_acquire(&mut self, index: usize) -> (r: Result<Vec<u8>, EngineError>)
        ensures
            final(self).settings == old(self).settings,
            final(self).listeners == old(self).listeners,
            old(self).manager is None ==> (r matches Err(e) && e is NotInitialized)
                && final(self).manager is None,
            old(self).manager is Some ==> final(self).manager is Some && spec_mgr_write_acquire(
                old(self).manager->Some_0,
                final(self).manager->Some_0,
                index as int,
                r,
            ),
    {
        match &mut self.manager {
            None => Err(EngineError::NotInitialized),
            Some(m) => m.poll_write_acquire(index),
        }
    }

    /// Routes the second half of a write event: what the write did.
    pub fn poll_write(&mut self, index: usize, status: SocketStatus, now: u64) -> (r: Result<
        (),
        EngineError,
    >)
        ensures
            final(self).settings == old(self).settings,
            final(self).listeners == old(self).listeners,
            old(self).manager is None ==> (r matches Err(e) && e is NotInitialized)
                && final(self).manager is None,
            old(self).manager is Some ==> final(self).manager is Some && spec_mgr_write(
                old(self).manager->Some_0,
                final(self).manager->Some_0,
                index as int,
                status,
                now,
                r,
            ),
    {
        match &mut self.manager {
            None => Err(EngineError::NotInitialized),
            Some(m) => m.poll_write(index, status, now),
        }
    }

    /// Routes a close event.
    pub fn poll_close(&mut self, index: usize, now: u64) -> (r: Result<(), EngineError>)
        ensures
            final(self).settings == old(self).settings,
            final(self).listeners == old(self).listeners,
            old(self).manager is None ==> (r matches Err(e) && e is NotInitialized)
                && final(self).manager is None,
            old(self).manager is Some ==> final(self).manager is Some && spec_mgr_close(
                old(self).manager->Some_0,
                final(self).manager->Some_0,
                index as int,
                now,
                r,
            ),
    {
        match &mut self.manager {
            None => Err(EngineError::NotInitialized),
            Some(m) => m.poll_close(index, now),
        }
    }

    /// Drains the commands the handler at `index` has queued; the
    /// host performs them in order.
    pub fn take_commands(&mut self, index: usize) -> (r: Vec<Command>)
        ensures
            final(self).settings == old(self).settings,
            final(self).listeners == old(self).listeners,
            old(self).manager is None ==> r@ == Seq::<Command>::empty()
                && final(self).manager is None,
            old(self).manager is Some ==> final(self).manager is Some && spec_mgr_take(
                old(self).manager->Some_0,
                final(self).manager->Some_0,
                index as int,
                r@,
            ),
    {
        match &mut self.manager {
            None => Vec::new(),
            Some(m) => m.take_commands(index),
        }
    }

    /// The periodic keep-alive sweep.
    pub fn poll_keep_alive(&mut self, now: u64) -> (r: Result<(), EngineError>)
        ensures
            final(self).settings == old(self).settings,
            final(self).listeners == old(self).listeners,
            old(self).manager is None ==> (r matches Err(e) && e is NotInitialized)
                && final(self).manager is None,
            old(self).manager is Some ==> r is Ok && final(self).manager is Some
                && spec_mgr_sweep(
                old(self).manager->Some_0,
                final(self).manager->Some_0,
                now,
            ),
    {
        match &mut self.manager {
            None => Err(EngineError::NotInitialized),
            Some(m) => {
                m.poll_keep_alive(now);
                Ok(())
            },
        }
    }

    /// Shuts every live connection down.
    pub fn shutdown(&mut self, now: u64) -> (r: Result<(), EngineError>)
        ensures
            final(self).settings == old(self).settings,
            final(self).listeners == old(self).listeners,
            old(self).manager is None ==> (r matches Err(e) && e is NotInitialized)
                && final(self).manager is None,
            old(self).manager is Some ==> r is Ok && final(self).manager is Some
                && spec_mgr_shutdown(
                old(self).manager->Some_0,
                final(self).manager->Some_0,
                now,
            ),
    {
        match &mut self.manager {
            None => Err(EngineError::NotInitialized),
            Some(m) => {
                m.shutdown(now);
                Ok(())
            },
        }
    }
}


impl Server {
    /// The application submits the response start for a connection.
    pub fn send_start(
        &mut self,
        index: usize,
        status: u16,
        headers: &Vec<(Vec<u8>, Vec<u8>)>,
    ) -> (r: Result<(), AppCallError>)
        ensures
            old(self).manager is None ==> (r matches Err(e) && e is NoSuchClient)
                && final(self).manager is None,
            old(self).manager is Some ==> final(self).manager is Some && spec_mgr_send_start(
                old(self).manager->Some_0,
                final(self).manager->Some_0,
                index as int,
                status,
                pairs_view(headers@),
                r,
            ),
    {
        match &mut self.manager {
            None => Err(AppCallError::NoSuchClient),
            Some(m) => m.send_start(index, status, headers),
        }
    }

    /// The application submits a response body chunk.
    pub fn send_body(&mut self, index: usize, more_body: bool, body: Vec<u8>) -> (r: Result<
        (),
        AppCallError,
    >)
        ensures
            old(self).manager is None ==> (r matches Err(e) && e is NoSuchClient)
                && final(self).manager is None,
            old(self).manager is Some ==> final(self).manager is Some && spec_mgr_send_body(
                old(self).manager->Some_0,
                final(self).manager->Some_0,
                index as int,
                more_body,
                body@,
                r,
            ),
    {
        match &mut self.manager {
            None => Err(AppCallError::NoSuchClient),
            Some(m) => m.send_body(index, more_body, body),
        }
    }

    /// The application receives the oldest request body chunk.
    pub fn recv_body(&mut self, index: usize) -> (r: Result<RecvStatus, AppCallError>)
        ensures
            old(self).manager is None ==> (r matches Err(e) && e is NoSuchClient)
                && final(self).manager is None,
            old(self).manager is Some ==> final(self).manager is Some && spec_mgr_recv_body(
                old(self).manager->Some_0,
                final(self).manager->Some_0,
                index as int,
                r,
            ),
    {
        match &mut self.manager {
            None => Err(AppCallError::NoSuchClient),
            Some(m) => m.recv_body(index),
        }
    }

    /// The application registers a response-channel waker.
    pub fn subscribe_send(&mut self, index: usize, waker: u64) -> (r: Result<(), AppCallError>)
        ensures
            old(self).manager is None ==> (r matches Err(e) && e is NoSuchClient)
                && final(self).manager is None,
            old(self).manager is Some ==> {
                let m1 = old(self).manager->Some_0;
                let m2 = final(self).manager->Some_0;
                &&& final(self).manager is Some
                &&& ((index < m1.clients@.len() && m1.clients@[index as int] is Some) ==> r is Ok
                    && m2.clients@[index as int] is Some
                    && m2.clients@[index as int]->Some_0.protocol.h1.sender@.wakers
                    == m1.clients@[index as int]->Some_0.protocol.h1.sender@.wakers.push(waker))
            },
    {
        match &mut self.manager {
            None => Err(AppCallError::NoSuchClient),
            Some(m) => m.subscribe_send(index, waker),
        }
    }

    /// The application registers a request-channel waker.
    pub fn subscribe_recv(&mut self, index: usize, waker: u64) -> (r: Result<(), AppCallError>)
        ensures
            old(self).manager is None ==> (r matches Err(e) && e is NoSuchClient)
                && final(self).manager is None,
            old(self).manager is Some ==> {
                let m1 = old(self).manager->Some_0;
                let m2 = final(self).manager->Some_0;
                &&& final(self).manager is Some
                &&& ((index < m1.clients@.len() && m1.clients@[index as int] is Some) ==> r is Ok
                    && m2.clients@[index as int] is Some
                    && m2.clients@[index as int]->Some_0.protocol.h1.receiver@.wakers
                    == m1.clients@[index as int]->Some_0.protocol.h1.receiver@.wakers.push(waker))
            },
    {
        match &mut self.manager {
            None => Err(AppCallError::NoSuchClient),
            Some(m) => m.subscribe_recv(index, waker),
        }
    }
}

} // verus!
