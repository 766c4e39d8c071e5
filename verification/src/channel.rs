//! Bounded single-producer/single-consumer channels between the engine
//! and the application callback, each with a waker registry.
//!
//! The response channel carries what the application wants written to
//! the socket; the request channel carries body chunks read from it.
//! Both hold at most [`CHANNEL_CAPACITY`] messages.  A full channel
//! refuses the message and the sender registers a waker; a closed
//! channel absorbs sends silently and reports a closed fault on
//! receives.

use vstd::prelude::*;

verus! {

/// Capacity of each channel.
pub const CHANNEL_CAPACITY: usize = 2;

/// One message from the application to the engine: a piece of the
/// response, the keep-alive decision declared with it, and whether
/// more body follows.
pub struct ResponseMessage {
    pub more_body: bool,
    pub keep_alive: bool,
    pub data: Vec<u8>,
}

/// One message from the engine to the application: a body chunk and
/// whether more body follows.
pub struct RequestMessage {
    pub more_body: bool,
    pub data: Vec<u8>,
}

/// Outcome of a send on the response channel.
pub enum SendOutcome {
    /// The message was enqueued.
    Sent,
    /// The channel is full; register a waker and retry.
    Full,
    /// The peer is gone; the message was dropped silently.
    Closed,
}

/// Outcome of a send on the request channel.
pub enum RequestSendOutcome {
    /// The message was enqueued.
    Sent,
    /// Exactly one waker was registered: it was popped and must be
    /// invoked with the payload, which comes back to the caller,
    /// instead of enqueueing.
    HandedOff(u64, RequestMessage),
    /// The channel is full.
    Full,
    /// The peer is gone; the message was dropped silently.
    Closed,
}

/// Outcome of a receive on the request channel.
pub enum RecvStatus {
    /// The oldest message.
    Received(RequestMessage),
    /// Nothing queued; register a waker.
    Empty,
    /// The channel is closed and drained.
    Closed,
}

/// Ghost state of the response channel.
#[verifier::ext_equal]
pub ghost struct ResponseChannelModel {
    pub msgs: Seq<ResponseMessage>,
    pub closed: bool,
    pub wakers: Seq<u64>,
}

/// Ghost state of the request channel.
#[verifier::ext_equal]
pub ghost struct RequestChannelModel {
    pub msgs: Seq<RequestMessage>,
    pub closed: bool,
    pub wakers: Seq<u64>,
}

/// Effect of a send on the response channel: dropped when closed,
/// refused when full, enqueued otherwise.
pub open spec fn spec_resp_send(m: ResponseChannelModel, msg: ResponseMessage) -> (
    ResponseChannelModel,
    SendOutcome,
) {
    if m.closed {
        (m, SendOutcome::Closed)
    } else if m.msgs.len() >= CHANNEL_CAPACITY {
        (m, SendOutcome::Full)
    } else {
        (ResponseChannelModel { msgs: m.msgs.push(msg), ..m }, SendOutcome::Sent)
    }
}

/// The bytes of a run of response messages, in channel order: all
/// earlier messages' bytes, then the last message's bytes.
pub open spec fn concat_response_data(msgs: Seq<ResponseMessage>) -> Seq<u8>
    decreases msgs.len(),
{
    if msgs.len() == 0 {
        Seq::empty()
    } else {
        concat_response_data(msgs.drop_last()) + msgs.last().data@
    }
}

/// The engine's half of the response channel (application to engine),
/// with the registry of wakers to fire when the channel drains.
pub struct SenderFactory {
    queue: Vec<ResponseMessage>,
    closed: bool,
    wakers: Vec<u64>,
}

impl View for SenderFactory {
    type V = ResponseChannelModel;

    closed spec fn view(&self) -> ResponseChannelModel {
        ResponseChannelModel { msgs: self.queue@, closed: self.closed, wakers: self.wakers@ }
    }
}

impl SenderFactory {
    /// A fresh, open, empty channel with no wakers.
    pub fn new() -> (r: SenderFactory)
        ensures
            r@ == (ResponseChannelModel {
                msgs: Seq::<ResponseMessage>::empty(),
                closed: false,
                wakers: Seq::<u64>::empty(),
            }),
    {
        SenderFactory { queue: Vec::new(), closed: false, wakers: Vec::new() }
    }

    /// The application submits a piece of the response.
    pub fn try_send(&mut self, msg: ResponseMessage) -> (r: SendOutcome)
        ensures
            (final(self)@, r) == spec_resp_send(old(self)@, msg),
            final(self)@.wakers == old(self)@.wakers,
    {
        if self.closed {
            SendOutcome::Closed
        } else if self.queue.len() >= CHANNEL_CAPACITY {
            SendOutcome::Full
        } else {
            self.queue.push(msg);
            SendOutcome::Sent
        }
    }

    /// The engine drains the oldest message, if any; draining one pops
    /// every waker, and the caller must invoke each of them.
    pub fn recv(&mut self) -> (r: (Option<ResponseMessage>, Vec<u64>))
        ensures
            old(self)@.msgs.len() == 0 ==> {
                &&& r.0 is None
                &&& r.1@ == Seq::<u64>::empty()
                &&& final(self)@ == old(self)@
            },
            old(self)@.msgs.len() > 0 ==> {
                &&& r.0 == Some(old(self)@.msgs[0])
                &&& r.1@ == old(self)@.wakers
                &&& final(self)@ == (ResponseChannelModel {
                    msgs: old(self)@.msgs.drop_first(),
                    wakers: Seq::<u64>::empty(),
                    ..old(self)@
                })
            },
    {
        if self.queue.len() == 0 {
            (None, Vec::new())
        } else {
            let msg = self.queue.remove(0);
            let mut woken: Vec<u64> = Vec::new();
            core::mem::swap(&mut woken, &mut self.wakers);
            proof {
                assert(old(self)@.msgs.remove(0) =~= old(self)@.msgs.drop_first());
            }
            (Some(msg), woken)
        }
    }

    /// The application registers a waker to fire when sending becomes
    /// possible again.
    pub fn subscribe(&mut self, waker: u64)
        ensures
            final(self)@ == (ResponseChannelModel {
                wakers: old(self)@.wakers.push(waker),
                ..old(self)@
            }),
    {
        self.wakers.push(waker);
    }

    /// The engine drops its end: later sends are absorbed.
    pub fn close(&mut self)
        ensures
            final(self)@ == (ResponseChannelModel { closed: true, ..old(self)@ }),
    {
        self.closed = true;
    }
}

/// Effect of a send on the request channel: dropped when closed,
/// handed directly to the single registered waker when there is
/// exactly one, refused when full, enqueued otherwise.
pub open spec fn spec_req_send(m: RequestChannelModel, msg: RequestMessage) -> (
    RequestChannelModel,
    RequestSendOutcome,
) {
    if m.closed {
        (m, RequestSendOutcome::Closed)
    } else if m.wakers.len() == 1 {
        (
            RequestChannelModel { wakers: Seq::empty(), ..m },
            RequestSendOutcome::HandedOff(m.wakers[0], msg),
        )
    } else if m.msgs.len() >= CHANNEL_CAPACITY {
        (m, RequestSendOutcome::Full)
    } else {
        (RequestChannelModel { msgs: m.msgs.push(msg), ..m }, RequestSendOutcome::Sent)
    }
}

/// The engine's half of the request channel (engine to application),
/// with the registry of wakers to fire when a chunk arrives.
pub struct ReceiverFactory {
    queue: Vec<RequestMessage>,
    closed: bool,
    wakers: Vec<u64>,
}

impl View for ReceiverFactory {
    type V = RequestChannelModel;

    closed spec fn view(&self) -> RequestChannelModel {
        RequestChannelModel { msgs: self.queue@, closed: self.closed, wakers: self.wakers@ }
    }
}

impl ReceiverFactory {
    /// A fresh, open, empty channel with no wakers.
    pub fn new() -> (r: ReceiverFactory)
        ensures
            r@ == (RequestChannelModel {
                msgs: Seq::<RequestMessage>::empty(),
                closed: false,
                wakers: Seq::<u64>::empty(),
            }),
    {
        ReceiverFactory { queue: Vec::new(), closed: false, wakers: Vec::new() }
    }

    /// The engine submits a body chunk for the application.  On a
    /// hand-off the caller must invoke the returned waker with the
    /// payload it tried to send.
    pub fn send(&mut self, msg: RequestMessage) -> (r: RequestSendOutcome)
        ensures
            (final(self)@, r) == spec_req_send(old(self)@, msg),
    {
        if self.closed {
            RequestSendOutcome::Closed
        } else if self.wakers.len() == 1 {
            let w = self.wakers.remove(0);
            proof {
                assert(old(self)@.wakers.remove(0) =~= Seq::<u64>::empty());
            }
            RequestSendOutcome::HandedOff(w, msg)
        } else if self.queue.len() >= CHANNEL_CAPACITY {
            RequestSendOutcome::Full
        } else {
            self.queue.push(msg);
            RequestSendOutcome::Sent
        }
    }

    /// The application receives the oldest chunk; a closed fault is
    /// reported only once the queue is drained.
    pub fn try_recv(&mut self) -> (r: RecvStatus)
        ensures
            old(self)@.msgs.len() > 0 ==> {
                &&& r == RecvStatus::Received(old(self)@.msgs[0])
                &&& final(self)@ == (RequestChannelModel {
                    msgs: old(self)@.msgs.drop_first(),
                    ..old(self)@
                })
            },
            old(self)@.msgs.len() == 0 ==> {
                &&& final(self)@ == old(self)@
                &&& old(self)@.closed ==> r is Closed
                &&& !old(self)@.closed ==> r is Empty
            },
    {
        if self.queue.len() > 0 {
            let msg = self.queue.remove(0);
            proof {
                assert(old(self)@.msgs.remove(0) =~= old(self)@.msgs.drop_first());
            }
            RecvStatus::Received(msg)
        } else if self.closed {
            RecvStatus::Closed
        } else {
            RecvStatus::Empty
        }
    }

    /// The application registers a waker to fire when a chunk arrives.
    pub fn subscribe(&mut self, waker: u64)
        ensures
            final(self)@ == (RequestChannelModel {
                wakers: old(self)@.wakers.push(waker),
                ..old(self)@
            }),
    {
        self.wakers.push(waker);
    }

    /// The engine drops its end: later receives report a closed fault
    /// once the queue is drained.
    pub fn close(&mut self)
        ensures
            final(self)@ == (RequestChannelModel { closed: true, ..old(self)@ }),
    {
        self.closed = true;
    }
}

/// A refused send leaves the response channel exactly as it was, and
/// the retry after one message is drained enqueues the message exactly
/// once: over the failed attempt and the retry, one copy enters the
/// channel.
pub proof fn law_response_send_retry(m: ResponseChannelModel, msg: ResponseMessage)
    requires
        !m.closed,
    ensures
        spec_resp_send(m, msg).1 is Full ==> spec_resp_send(m, msg).0 == m,
        m.msgs.len() < CHANNEL_CAPACITY ==> spec_resp_send(m, msg).0.msgs == m.msgs.push(msg),
{
}

/// The request channel is first-in first-out: sending `a` then `b`
/// into a channel with room and no wakers queues `a` before `b`, and
/// receiving drains them in that order.
pub proof fn law_request_fifo(m: RequestChannelModel, a: RequestMessage, b: RequestMessage)
    requires
        !m.closed,
        m.wakers.len() == 0,
        m.msgs.len() == 0,
    ensures
        ({
            let m1 = spec_req_send(m, a).0;
            let m2 = spec_req_send(m1, b).0;
            &&& m2.msgs.len() == 2
            &&& m2.msgs[0] == a
            &&& m2.msgs[1] == b
        }),
{
}

} // verus!
