//! The per-connection protocol holder: owns the read and write
//! buffers and dispatches to the selected protocol.  A reserved
//! extension point: only HTTP/1.x exists in this revision, and the
//! switch hook never switches.

use vstd::prelude::*;

use crate::bytes_util::append_bytes;
use crate::h1::{spec_data_received, spec_fill_write, H1Fault, H1Protocol};
use crate::transport::Transport;

verus! {

/// The protocols the holder can dispatch to.
pub enum SelectedProtocol {
    /// HTTP/1.x.
    H1,
}

/// Whether the holder should switch protocol after a read.
pub enum SwitchStatus {
    /// Switch to the named protocol.
    SwitchTo(SelectedProtocol),
    /// Stay as is.
    NoSwitch,
}

/// The protocol holder for one connection.
pub struct AutoProtocol {
    /// Which protocol is driving the connection.
    pub selected: SelectedProtocol,
    /// The HTTP/1.x protocol state.
    pub h1: H1Protocol,
    /// Bytes read from the socket, not yet consumed by the parser.
    pub reader_buffer: Vec<u8>,
    /// Bytes ready to be written to the socket.
    pub writer_buffer: Vec<u8>,
}

impl AutoProtocol {
    /// A holder bound to a new connection.
    pub fn new(transport: Transport) -> (r: AutoProtocol)
        ensures
            crate::h1::h1_fresh(r.h1),
            r.h1.transport == Some(transport),
            r.reader_buffer@ == Seq::<u8>::empty(),
            r.writer_buffer@ == Seq::<u8>::empty(),
            r.selected is H1,
    {
        let mut h1 = H1Protocol::new();
        h1.new_connection(transport);
        AutoProtocol {
            selected: SelectedProtocol::H1,
            h1,
            reader_buffer: Vec::new(),
            writer_buffer: Vec::new(),
        }
    }

    /// Rebinds the holder to a new connection on a recycled slot.
    pub fn new_connection(&mut self, transport: Transport)
        ensures
            crate::h1::h1_fresh(final(self).h1),
            final(self).h1.transport == Some(transport),
            final(self).reader_buffer == old(self).reader_buffer,
            final(self).writer_buffer == old(self).writer_buffer,
            final(self).selected == old(self).selected,
    {
        self.h1.new_connection(transport);
    }

    /// The switch hook: reserved, never switches in this revision.
    pub fn maybe_switch(&mut self) -> (r: SwitchStatus)
        ensures
            r is NoSwitch,
            *final(self) == *old(self),
    {
        match self.selected {
            SelectedProtocol::H1 => SwitchStatus::NoSwitch,
        }
    }

    /// Appends bytes the host read from the socket to the read buffer.
    pub fn read_buffer_append(&mut self, data: &[u8])
        ensures
            final(self).reader_buffer@ == old(self).reader_buffer@ + data@,
            final(self).h1 == old(self).h1,
            final(self).writer_buffer == old(self).writer_buffer,
            final(self).selected == old(self).selected,
    {
        append_bytes(&mut self.reader_buffer, data);
    }

    /// The read buffer was filled: run the protocol over it.
    pub fn read_buffer_filled(&mut self, _amount: usize) -> (r: Result<(), H1Fault>)
        ensures
            spec_data_received(
                old(self).h1,
                old(self).reader_buffer@,
                final(self).h1,
                final(self).reader_buffer@,
                r,
            ),
            final(self).writer_buffer == old(self).writer_buffer,
            final(self).selected == old(self).selected,
    {
        match self.selected {
            SelectedProtocol::H1 => self.h1.data_received(&mut self.reader_buffer),
        }
    }

    /// Fills the write buffer from the response channel and hands the
    /// host a copy of what is ready to write.
    pub fn write_buffer_acquire(&mut self) -> (r: Result<Vec<u8>, H1Fault>)
        ensures
            old(self).h1.transport is None ==> (r matches Err(e) && e is TransportUnset)
                && *final(self) == *old(self),
            old(self).h1.transport is Some ==> {
                &&& spec_fill_write(
                    old(self).h1,
                    final(self).h1,
                    old(self).writer_buffer@,
                    final(self).writer_buffer@,
                )
                &&& (r matches Ok(v) && v@ == final(self).writer_buffer@)
                &&& final(self).reader_buffer == old(self).reader_buffer
                &&& final(self).selected == old(self).selected
            },
    {
        if self.h1.transport.is_none() {
            return Err(H1Fault::TransportUnset);
        }
        match self.selected {
            SelectedProtocol::H1 => {
                self.h1.fill_write_buffer(&mut self.writer_buffer);
            },
        }
        let copy = clone_bytes(&self.writer_buffer);
        Ok(copy)
    }

    /// The host wrote `amount` bytes: remove them from the front of
    /// the write buffer, and pause writing once nothing was written
    /// or nothing is left.
    pub fn write_buffer_drained(&mut self, amount: usize) -> (r: Result<(), H1Fault>)
        ensures
            old(self).h1.transport is None ==> (r matches Err(e) && e is TransportUnset)
                && *final(self) == *old(self),
            old(self).h1.transport is Some ==> {
                let consumed = if amount <= old(self).writer_buffer@.len() {
                    amount as int
                } else {
                    old(self).writer_buffer@.len() as int
                };
                &&& r is Ok
                &&& final(self).writer_buffer@ == old(self).writer_buffer@.subrange(
                    consumed,
                    old(self).writer_buffer@.len() as int,
                )
                &&& final(self).reader_buffer == old(self).reader_buffer
                &&& final(self).selected == old(self).selected
                &&& ({
                    let t1 = old(self).h1.transport->Some_0;
                    let t2 = final(self).h1.transport->Some_0;
                    &&& final(self).h1.transport is Some
                    &&& t2.client == t1.client
                    &&& t2.server == t1.server
                    &&& t2.tls == t1.tls
                    &&& ((amount == 0 || final(self).writer_buffer@.len() == 0) ==> t2.bridge@
                        == crate::bridge::spec_disarm_writer(t1.bridge@))
                    &&& (!(amount == 0 || final(self).writer_buffer@.len() == 0) ==> t2.bridge@
                        == t1.bridge@)
                })
                &&& final(self).h1 == (H1Protocol {
                    transport: final(self).h1.transport,
                    ..old(self).h1
                })
            },
    {
        if self.h1.transport.is_none() {
            return Err(H1Fault::TransportUnset);
        }
        let n = if amount <= self.writer_buffer.len() {
            amount
        } else {
            self.writer_buffer.len()
        };
        crate::bytes_util::drop_front(&mut self.writer_buffer, n);
        if amount == 0 || self.writer_buffer.len() == 0 {
            match &mut self.h1.transport {
                Some(t) => {
                    t.pause_writing();
                },
                None => {
                    proof {
                        assert(false);
                    }
                },
            }
        }
        Ok(())
    }

    /// The connection is gone: stop readiness callbacks, clear both
    /// buffers, and tell the protocol, which drops its channel ends.
    pub fn connection_lost(&mut self)
        ensures
            final(self).reader_buffer@ == Seq::<u8>::empty(),
            final(self).writer_buffer@ == Seq::<u8>::empty(),
            final(self).h1.sender@.closed,
            final(self).h1.receiver@.closed,
            final(self).h1.sender@.msgs == old(self).h1.sender@.msgs,
            final(self).h1.receiver@.msgs == old(self).h1.receiver@.msgs,
            final(self).selected == old(self).selected,
            old(self).h1.transport is Some ==> {
                let t1 = old(self).h1.transport->Some_0;
                let t2 = final(self).h1.transport->Some_0;
                &&& final(self).h1.transport is Some
                &&& t2.client == t1.client
                &&& t2.server == t1.server
                &&& t2.tls == t1.tls
                &&& t2.bridge@ == crate::bridge::spec_disarm_writer(
                    crate::bridge::spec_disarm_reader(t1.bridge@),
                )
            },
            old(self).h1.transport is None ==> final(self).h1.transport is None,
    {
        match &mut self.h1.transport {
            Some(t) => {
                t.pause_reading();
                t.pause_writing();
            },
            None => {},
        }
        self.reader_buffer.clear();
        self.writer_buffer.clear();
        match self.selected {
            SelectedProtocol::H1 => {
                self.h1.lost_connection();
            },
        }
    }

    /// EOF from the peer is treated as a lost connection: the effect
    /// is identical, readiness disarming included.
    pub fn eof_received(&mut self)
        ensures
            final(self).reader_buffer@ == Seq::<u8>::empty(),
            final(self).writer_buffer@ == Seq::<u8>::empty(),
            final(self).h1.sender@.closed,
            final(self).h1.receiver@.closed,
            final(self).h1.sender@.msgs == old(self).h1.sender@.msgs,
            final(self).h1.receiver@.msgs == old(self).h1.receiver@.msgs,
            final(self).selected == old(self).selected,
            old(self).h1.transport is Some ==> {
                let t1 = old(self).h1.transport->Some_0;
                let t2 = final(self).h1.transport->Some_0;
                &&& final(self).h1.transport is Some
                &&& t2.client == t1.client
                &&& t2.server == t1.server
                &&& t2.tls == t1.tls
                &&& t2.bridge@ == crate::bridge::spec_disarm_writer(
                    crate::bridge::spec_disarm_reader(t1.bridge@),
                )
            },
            old(self).h1.transport is None ==> final(self).h1.transport is None,
    {
        self.connection_lost();
    }
}

/// A byte-for-byte copy of a buffer.
fn clone_bytes(v: &Vec<u8>) -> (r: Vec<u8>)
    ensures
        r@ == v@,
{
    let mut out: Vec<u8> = Vec::new();
    append_bytes(&mut out, v.as_slice());
    proof {
        assert(out@ =~= v@);
    }
    out
}

} // verus!
