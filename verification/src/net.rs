//! Plain-value descriptions of sockets and socket operations.
//!
//! The engine never touches a socket itself: the host performs every
//! read, write and accept, and reports what happened with the types
//! here.  A connection is described by its addresses, its TLS flag and
//! its file descriptor.

use vstd::prelude::*;

verus! {

/// Outcome of one non-blocking accept attempt on a listener.
pub enum Status<T> {
    /// A connection was accepted and is ready to be handled.
    Successful(T),
    /// The listener would block; wait for the next readiness wakeup.
    ShouldPause,
}

/// Outcome of one non-blocking read or write on a byte stream.
pub enum SocketStatus {
    /// `n` bytes were transferred; `n == 0` on a read signals peer EOF.
    Complete(usize),
    /// No progress; wait for the next readiness wakeup.
    WouldBlock,
    /// The counterpart closed or reset; the connection must be torn down.
    Disconnect,
}

/// A socket address as the request scope reports it: host text and port.
pub struct Addr {
    pub host: String,
    pub port: u16,
}

impl Addr {
    /// Builds an address from its parts.
    pub fn new(host: String, port: u16) -> (r: Addr)
        ensures
            r.host@ == host@,
            r.port == port,
    {
        Addr { host, port }
    }

    /// A field-for-field copy of the address.
    pub fn duplicate(&self) -> (r: Addr)
        ensures
            r.host@ == self.host@,
            r.port == self.port,
    {
        Addr { host: self.host.clone(), port: self.port }
    }
}

/// What the engine keeps of an accepted connection: the peer and local
/// addresses, the TLS flag, and the file descriptor the host uses to
/// name the socket.  The byte stream itself stays with the host.
pub struct ConnectionHandle {
    /// Address of the remote peer.
    pub addr: Addr,
    /// Address the listener is bound to.
    pub server: Addr,
    /// Whether the connection arrived over TLS; recorded only, the
    /// engine handles plaintext.
    pub tls: bool,
    /// The socket's file descriptor.
    pub fd: i32,
}

} // verus!
