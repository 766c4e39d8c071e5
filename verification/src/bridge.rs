//! The per-connection bridge to the host multiplexer.
//!
//! The bridge remembers the socket's file descriptor and the handler
//! index, and turns arm/disarm/close requests into [`Command`] values
//! on a queue the host drains.  Arming when already armed and
//! disarming when not armed are no-ops, enforced by the booleans; so
//! is scheduling a close twice.

use vstd::prelude::*;

use crate::command::Command;

verus! {

/// Ghost state of a bridge: the socket it names, the idempotency
/// booleans, and the commands queued so far.
#[verifier::ext_equal]
pub ghost struct BridgeModel {
    pub fd: i32,
    pub index: usize,
    pub reading: bool,
    pub writing: bool,
    pub close_scheduled: bool,
    pub out: Seq<Command>,
}

/// Effect of arming the reader: a no-op when already armed, otherwise
/// one `AddReader` command for the bridge's own socket.
pub open spec fn spec_arm_reader(m: BridgeModel) -> BridgeModel {
    if m.reading {
        m
    } else {
        BridgeModel { reading: true, out: m.out.push(Command::AddReader(m.fd, m.index)), ..m }
    }
}

/// Effect of disarming the reader: a no-op when not armed.
pub open spec fn spec_disarm_reader(m: BridgeModel) -> BridgeModel {
    if m.reading {
        BridgeModel { reading: false, out: m.out.push(Command::RemoveReader(m.fd)), ..m }
    } else {
        m
    }
}

/// Effect of arming the writer: a no-op when already armed.
pub open spec fn spec_arm_writer(m: BridgeModel) -> BridgeModel {
    if m.writing {
        m
    } else {
        BridgeModel { writing: true, out: m.out.push(Command::AddWriter(m.fd, m.index)), ..m }
    }
}

/// Effect of disarming the writer: a no-op when not armed.
pub open spec fn spec_disarm_writer(m: BridgeModel) -> BridgeModel {
    if m.writing {
        BridgeModel { writing: false, out: m.out.push(Command::RemoveWriter(m.fd)), ..m }
    } else {
        m
    }
}

/// Effect of scheduling a close: a no-op when one is already pending.
pub open spec fn spec_schedule_close(m: BridgeModel) -> BridgeModel {
    if m.close_scheduled {
        m
    } else {
        BridgeModel {
            close_scheduled: true,
            out: m.out.push(Command::CloseSocket(m.index)),
            ..m
        }
    }
}

/// Effect of queueing an arbitrary command without touching the
/// readiness state.
pub open spec fn spec_emit(m: BridgeModel, c: Command) -> BridgeModel {
    BridgeModel { out: m.out.push(c), ..m }
}

/// Effect of rebinding the bridge to a new socket: the idempotency
/// state is cleared so the new connection starts fresh.
pub open spec fn spec_rebind(m: BridgeModel, fd: i32) -> BridgeModel {
    BridgeModel { fd, reading: false, writing: false, close_scheduled: false, ..m }
}

/// The bridge a handler uses to talk to the host loop about one socket.
pub struct PreSetEventLoop {
    fd: i32,
    index: usize,
    is_reading: bool,
    is_writing: bool,
    close_scheduled: bool,
    out: Vec<Command>,
}

impl View for PreSetEventLoop {
    type V = BridgeModel;

    closed spec fn view(&self) -> BridgeModel {
        BridgeModel {
            fd: self.fd,
            index: self.index,
            reading: self.is_reading,
            writing: self.is_writing,
            close_scheduled: self.close_scheduled,
            out: self.out@,
        }
    }
}

impl PreSetEventLoop {
    /// A fresh bridge for socket `fd` at handler slot `index`: nothing
    /// armed, nothing queued.
    pub fn new(fd: i32, index: usize) -> (r: PreSetEventLoop)
        ensures
            r@ == (BridgeModel {
                fd,
                index,
                reading: false,
                writing: false,
                close_scheduled: false,
                out: Seq::<Command>::empty(),
            }),
    {
        PreSetEventLoop {
            fd,
            index,
            is_reading: false,
            is_writing: false,
            close_scheduled: false,
            out: Vec::new(),
        }
    }

    /// The file descriptor this bridge names.
    pub fn fd(&self) -> (r: i32)
        ensures
            r == self@.fd,
    {
        self.fd
    }

    /// The handler index this bridge names.
    pub fn index(&self) -> (r: usize)
        ensures
            r == self@.index,
    {
        self.index
    }

    /// Start monitoring the socket for read readiness.
    pub fn arm_reader(&mut self)
        ensures
            final(self)@ == spec_arm_reader(old(self)@),
    {
        if !self.is_reading {
            self.out.push(Command::AddReader(self.fd, self.index));
            self.is_reading = true;
        }
    }

    /// Stop monitoring the socket for read readiness.
    pub fn disarm_reader(&mut self)
        ensures
            final(self)@ == spec_disarm_reader(old(self)@),
    {
        if self.is_reading {
            self.out.push(Command::RemoveReader(self.fd));
            self.is_reading = false;
        }
    }

    /// Start monitoring the socket for write readiness.
    pub fn arm_writer(&mut self)
        ensures
            final(self)@ == spec_arm_writer(old(self)@),
    {
        if !self.is_writing {
            self.out.push(Command::AddWriter(self.fd, self.index));
            self.is_writing = true;
        }
    }

    /// Stop monitoring the socket for write readiness.
    pub fn disarm_writer(&mut self)
        ensures
            final(self)@ == spec_disarm_writer(old(self)@),
    {
        if self.is_writing {
            self.out.push(Command::RemoveWriter(self.fd));
            self.is_writing = false;
        }
    }

    /// Ask the host to close the socket and eventually call the close
    /// poll verb.
    pub fn schedule_close(&mut self)
        ensures
            final(self)@ == spec_schedule_close(old(self)@),
    {
        if !self.close_scheduled {
            self.out.push(Command::CloseSocket(self.index));
            self.close_scheduled = true;
        }
    }

    /// Queue a command that does not touch the readiness state.
    pub fn emit(&mut self, c: Command)
        ensures
            final(self)@ == spec_emit(old(self)@, c),
    {
        self.out.push(c);
    }

    /// Point the bridge at a new socket; used when a handler slot is
    /// reused for a new connection.  Clears the idempotency state.
    pub fn rebind(&mut self, fd: i32)
        ensures
            final(self)@ == spec_rebind(old(self)@, fd),
    {
        self.fd = fd;
        self.is_reading = false;
        self.is_writing = false;
        self.close_scheduled = false;
    }

    /// Hands the queued commands to the host and empties the queue.
    pub fn take_commands(&mut self) -> (r: Vec<Command>)
        ensures
            r@ == old(self)@.out,
            final(self)@ == (BridgeModel { out: Seq::<Command>::empty(), ..old(self)@ }),
    {
        let mut drained: Vec<Command> = Vec::new();
        core::mem::swap(&mut drained, &mut self.out);
        drained
    }
}

/// Arming the reader twice is one host call: the second arming changes
/// nothing, and over both calls exactly one command is queued when the
/// reader started unarmed, none when it was already armed.
pub proof fn law_arm_reader_idempotent(m: BridgeModel)
    ensures
        spec_arm_reader(spec_arm_reader(m)) == spec_arm_reader(m),
        !m.reading ==> spec_arm_reader(m).out.len() == m.out.len() + 1,
        m.reading ==> spec_arm_reader(m).out.len() == m.out.len(),
{
}

/// Disarming the reader when it is not armed makes zero host calls.
pub proof fn law_disarm_reader_silent(m: BridgeModel)
    requires
        !m.reading,
    ensures
        spec_disarm_reader(m) == m,
{
}

/// Arming the writer twice is one host call, as for the reader.
pub proof fn law_arm_writer_idempotent(m: BridgeModel)
    ensures
        spec_arm_writer(spec_arm_writer(m)) == spec_arm_writer(m),
        !m.writing ==> spec_arm_writer(m).out.len() == m.out.len() + 1,
        m.writing ==> spec_arm_writer(m).out.len() == m.out.len(),
{
}

/// Disarming the writer when it is not armed makes zero host calls.
pub proof fn law_disarm_writer_silent(m: BridgeModel)
    requires
        !m.writing,
    ensures
        spec_disarm_writer(m) == m,
{
}

/// Scheduling a close twice asks the host once.
pub proof fn law_schedule_close_idempotent(m: BridgeModel)
    ensures
        spec_schedule_close(spec_schedule_close(m)) == spec_schedule_close(m),
{
}

/// Every readiness command a bridge queues names the bridge's own
/// socket and its own handler index: a handler never arms readiness
/// for a file descriptor it does not own.
pub proof fn law_commands_name_own_socket(m: BridgeModel)
    ensures
        !m.reading ==> spec_arm_reader(m).out.last() == Command::AddReader(m.fd, m.index),
        m.reading ==> spec_disarm_reader(m).out.last() == Command::RemoveReader(m.fd),
        !m.writing ==> spec_arm_writer(m).out.last() == Command::AddWriter(m.fd, m.index),
        m.writing ==> spec_disarm_writer(m).out.last() == Command::RemoveWriter(m.fd),
        !m.close_scheduled ==> spec_schedule_close(m).out.last() == Command::CloseSocket(m.index),
{
}

} // verus!
