//! The immutable request metadata handed to the application callback.

use vstd::prelude::*;

use crate::net::Addr;

verus! {

/// Scope tag of an HTTP request scope.
pub const SCOPE_TYPE: &'static str = "http";

/// Root path the application is mounted at.
pub const TEMP_ROOT_PATH: &'static str = "";

/// Version text for an HTTP/1.0 request.
pub const HTTP_10: &'static str = "1.0";

/// Version text for an HTTP/1.1 request.
pub const HTTP_11: &'static str = "1.1";

/// The interface specification the engine implements, as reported in
/// the scope.
pub struct ASGISpec {
    /// Version of the interface specification.
    pub version: &'static str,
    /// Version of its HTTP part.
    pub spec_version: &'static str,
}

/// The tuple of request metadata delivered to the application: one
/// value per request, built when the head is parsed and never mutated.
pub struct RequestScope {
    /// Always the scope tag `"http"`.
    pub scope_tag: &'static str,
    /// `"1.0"` or `"1.1"`.
    pub http_version: &'static str,
    /// The request method, as it appeared on the wire.
    pub method: String,
    /// `"http"` or `"https"`, from the connection's TLS flag.
    pub scheme: &'static str,
    /// The request target up to the first `?`.
    pub path: String,
    /// The request target after the first `?`, or empty.
    pub raw_query: String,
    /// The root path the application is mounted at; empty.
    pub root_path: &'static str,
    /// Header names and values in wire order.
    pub headers: Vec<(String, Vec<u8>)>,
    /// The listening address.
    pub server: Addr,
    /// The peer address.
    pub client: Addr,
}

} // verus!
