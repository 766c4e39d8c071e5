//! Commands the engine hands back to the host loop.
//!
//! The engine decides; the host acts.  Every poll verb appends the
//! commands it wants performed to a per-connection queue, and the host
//! drains that queue after the verb returns and performs each command
//! in order.

use vstd::prelude::*;

use crate::scope::RequestScope;

verus! {

/// One action the host must perform on the engine's behalf.
pub enum Command {
    /// Start monitoring `fd` for read readiness; on readiness the host
    /// calls the read poll verb with the handler index.
    AddReader(i32, usize),
    /// Stop monitoring `fd` for read readiness.
    RemoveReader(i32),
    /// Start monitoring `fd` for write readiness; on readiness the host
    /// calls the write poll verb with the handler index.
    AddWriter(i32, usize),
    /// Stop monitoring `fd` for write readiness.
    RemoveWriter(i32),
    /// Eventually call the close poll verb with the handler index.
    CloseSocket(usize),
    /// Invoke the application callback with the parsed request scope;
    /// the handler index names the connection whose response and
    /// request channels the callback may use.
    InvokeApp(usize, RequestScope),
    /// Invoke one response-side waker: the application may send again.
    WakeSender(u64),
    /// Invoke one request-side waker, handing it a body chunk directly:
    /// the flag says whether more body follows.
    HandoffBody(u64, bool, Vec<u8>),
}

} // verus!
