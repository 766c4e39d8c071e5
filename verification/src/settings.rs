//! Server configuration and the URL scheme derived from the TLS flag.

use vstd::prelude::*;

verus! {

/// Constant server configuration.
#[derive(Clone, Copy)]
pub struct ServerSettings {
    /// Maximum number of accept attempts per readiness wakeup.
    pub backlog: usize,
    /// Keep-alive timeout in milliseconds: a connection idle at least
    /// this long is closed by the next sweep.
    pub keep_alive: u64,
}

impl ServerSettings {
    /// Builds a settings value.
    pub fn new(backlog: usize, keep_alive: u64) -> (r: ServerSettings)
        ensures
            r.backlog == backlog,
            r.keep_alive == keep_alive,
    {
        ServerSettings { backlog, keep_alive }
    }
}

/// The URL scheme of a request, decided by the socket the connection
/// arrived on.
#[derive(Clone, Copy, PartialEq, Eq, Structural)]
pub enum Schema {
    HTTP,
    HTTPS,
}

impl Schema {
    /// The scheme text used in the request scope.
    pub fn as_str(&self) -> (r: &'static str)
        ensures
            *self is HTTP ==> r@ == "http"@,
            *self is HTTPS ==> r@ == "https"@,
    {
        match self {
            Schema::HTTP => "http",
            Schema::HTTPS => "https",
        }
    }

    /// The scheme for a connection: HTTPS exactly when the connection
    /// arrived over TLS.
    pub fn from_tls(tls: bool) -> (r: Schema)
        ensures
            r is HTTPS <==> tls,
    {
        if tls {
            Schema::HTTPS
        } else {
            Schema::HTTP
        }
    }
}

} // verus!
