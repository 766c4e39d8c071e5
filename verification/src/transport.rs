//! The per-connection capability handed to the protocol.
//!
//! A transport carries the connection's addresses and TLS flag and
//! forwards pause/resume/close requests to the bridge it owns.

use vstd::prelude::*;

use crate::bridge::{
    spec_arm_reader, spec_arm_writer, spec_disarm_reader, spec_disarm_writer,
    spec_schedule_close, PreSetEventLoop,
};
use crate::net::Addr;

verus! {

/// The capability the protocol uses to steer one connection.
pub struct Transport {
    /// The peer address.
    pub client: Addr,
    /// The listening address.
    pub server: Addr,
    /// Whether the connection arrived over TLS.
    pub tls: bool,
    /// The bridge to the host loop for this connection's socket.
    pub bridge: PreSetEventLoop,
}

impl Transport {
    /// Builds a transport around a bridge.
    pub fn new(client: Addr, server: Addr, tls: bool, bridge: PreSetEventLoop) -> (r: Transport)
        ensures
            r.client == client,
            r.server == server,
            r.tls == tls,
            r.bridge@ == bridge@,
    {
        Transport { client, server, tls, bridge }
    }

    /// Asks the host to close the connection's socket.
    pub fn close(&mut self)
        ensures
            final(self).bridge@ == spec_schedule_close(old(self).bridge@),
            final(self).client == old(self).client,
            final(self).server == old(self).server,
            final(self).tls == old(self).tls,
    {
        self.bridge.schedule_close();
    }

    /// Stops read readiness callbacks for this connection.
    pub fn pause_reading(&mut self)
        ensures
            final(self).bridge@ == spec_disarm_reader(old(self).bridge@),
            final(self).client == old(self).client,
            final(self).server == old(self).server,
            final(self).tls == old(self).tls,
    {
        self.bridge.disarm_reader();
    }

    /// Resumes read readiness callbacks for this connection.
    pub fn resume_reading(&mut self)
        ensures
            final(self).bridge@ == spec_arm_reader(old(self).bridge@),
            final(self).client == old(self).client,
            final(self).server == old(self).server,
            final(self).tls == old(self).tls,
    {
        self.bridge.arm_reader();
    }

    /// Stops write readiness callbacks for this connection.
    pub fn pause_writing(&mut self)
        ensures
            final(self).bridge@ == spec_disarm_writer(old(self).bridge@),
            final(self).client == old(self).client,
            final(self).server == old(self).server,
            final(self).tls == old(self).tls,
    {
        self.bridge.disarm_writer();
    }

    /// Resumes write readiness callbacks for this connection.
    pub fn resume_writing(&mut self)
        ensures
            final(self).bridge@ == spec_arm_writer(old(self).bridge@),
            final(self).client == old(self).client,
            final(self).server == old(self).server,
            final(self).tls == old(self).tls,
    {
        self.bridge.arm_writer();
    }
}

} // verus!
