//! The HTTP/1.x protocol: request parsing, body framing, response
//! draining, and the keep-alive decision for one connection.

use vstd::prelude::*;

use crate::bridge::{spec_arm_writer, spec_emit, BridgeModel};
use crate::bytes_util::{
    all_dec_digits, append_bytes, contains_seq, dec_val, drop_front, eq_ignore_case, lower_seq,
    parse_usize_dec, spec_contains, str_bytes, take_front, to_lower,
};
use crate::channel::{
    concat_response_data, ReceiverFactory, RequestChannelModel, RequestMessage,
    ResponseChannelModel, ResponseMessage, SenderFactory,
};
use crate::command::Command;
use crate::net::Addr;
use crate::parse::{
    head_headers_of, head_is_complete, head_is_malformed, head_is_partial, head_len_of,
    head_method_of, head_path_of, head_version_of, parse_chunk_head, parse_request_head,
    spec_chunk_parse, ChunkStatus, HeadOutcome, RequestHead,
};

use crate::response::DataSender;
use crate::scope::{RequestScope, HTTP_10, HTTP_11, SCOPE_TYPE, TEMP_ROOT_PATH};
use crate::settings::Schema;
use crate::transport::Transport;

verus! {

/// The least staging fill before a body chunk is flushed onward.
pub const MIN_FLUSH: usize = 65536;

/// Capacity hint for the chunked-body staging buffer.
pub const BODY_STAGING_CAP: usize = 131072;

/// Faults the protocol can raise; each is fatal for its connection.
#[derive(Debug)]
pub enum H1Fault {
    /// No transport is bound; the protocol cannot steer the socket.
    TransportUnset,
    /// The bytes cannot start a valid request head.
    BadRequest,
    /// The bytes cannot continue a chunked body.
    BadChunk,
}

/// The view of a parsed header list: name text and value bytes.
pub open spec fn req_headers_view(h: Seq<(String, Vec<u8>)>) -> Seq<(Seq<char>, Seq<u8>)> {
    Seq::new(h.len(), |i: int| (h[i].0@, h[i].1@))
}

/// The value a request content-length header carries: the parsed
/// decimal, or zero when it does not parse.
pub open spec fn spec_cl_value(v: Seq<u8>) -> nat {
    if v.len() > 0 && all_dec_digits(v) && dec_val(v) <= usize::MAX {
        dec_val(v)
    } else {
        0
    }
}

/// The expected body length a request head declares: the value of the
/// last content-length header, or zero.
pub open spec fn spec_req_content_length(h: Seq<(Seq<char>, Seq<u8>)>) -> nat
    decreases h.len(),
{
    if h.len() == 0 {
        0
    } else if lower_seq(str_bytes(h.last().0)) == lower_seq(str_bytes("content-length"@)) {
        spec_cl_value(h.last().1)
    } else {
        spec_req_content_length(h.drop_last())
    }
}

/// Whether a request head declares a chunked body: what the last
/// transfer-encoding header says, after ASCII lower-casing, about
/// containing the token `chunked`.
pub open spec fn spec_req_chunked(h: Seq<(Seq<char>, Seq<u8>)>) -> bool
    decreases h.len(),
{
    if h.len() == 0 {
        false
    } else if lower_seq(str_bytes(h.last().0)) == lower_seq(str_bytes("transfer-encoding"@)) {
        spec_contains(lower_seq(h.last().1), str_bytes("chunked"@))
    } else {
        spec_req_chunked(h.drop_last())
    }
}

/// The first index of `?` in a request target, from position `i`; the
/// length when there is none.
pub open spec fn spec_query_pos_at(s: Seq<char>, i: int) -> int
    decreases s.len() - i,
{
    if i < 0 || i >= s.len() {
        s.len() as int
    } else if s[i] == '?' {
        i
    } else {
        spec_query_pos_at(s, i + 1)
    }
}

/// The first index of `?` in a request target; the length without one.
pub open spec fn spec_query_pos(s: Seq<char>) -> int {
    spec_query_pos_at(s, 0)
}

/// Scans for the absolute-form marker `://`: the index just past it,
/// or -1 when a slash or question mark (or the end) comes first.
pub open spec fn spec_authority_start_at(s: Seq<char>, i: int) -> int
    decreases s.len() - i,
{
    if i < 0 || i >= s.len() {
        -1
    } else if s[i] == '/' || s[i] == '?' {
        -1
    } else if s[i] == ':' && i + 2 < s.len() && s[i + 1] == '/' && s[i + 2] == '/' {
        i + 3
    } else {
        spec_authority_start_at(s, i + 1)
    }
}

/// The first slash or question mark at or after position `i`; the
/// length when there is none.
pub open spec fn spec_rest_start_at(s: Seq<char>, i: int) -> int
    decreases s.len() - i,
{
    if i < 0 || i >= s.len() {
        s.len() as int
    } else if s[i] == '/' || s[i] == '?' {
        i
    } else {
        spec_rest_start_at(s, i + 1)
    }
}

/// The path-and-query part of a request target.  A target that shows
/// the marker `://` before any slash or question mark is
/// absolute-form: its scheme and authority are skipped, and the part
/// begins at the first slash or question mark after the authority
/// (empty when there is none).  Any other target is taken whole.
pub open spec fn spec_target_rest(s: Seq<char>) -> Seq<char> {
    let a = spec_authority_start_at(s, 0);
    if a < 0 {
        s
    } else {
        s.subrange(spec_rest_start_at(s, a), s.len() as int)
    }
}

/// The path component of a request target: the path-and-query part up
/// to the first `?`.
pub open spec fn spec_path_of(s: Seq<char>) -> Seq<char> {
    spec_target_rest(s).subrange(0, spec_query_pos(spec_target_rest(s)))
}

/// The raw query of a request target: the path-and-query part after
/// the first `?`, empty without one.
pub open spec fn spec_query_of(s: Seq<char>) -> Seq<char> {
    if spec_query_pos(spec_target_rest(s)) < spec_target_rest(s).len() {
        spec_target_rest(s).subrange(
            spec_query_pos(spec_target_rest(s)) + 1,
            spec_target_rest(s).len() as int,
        )
    } else {
        Seq::empty()
    }
}

/// Skipping a prefix without `?` does not move the first `?`.
proof fn lemma_query_pos_skip(s: Seq<char>, i: int)
    requires
        0 <= i <= s.len(),
        forall|j: int| 0 <= j < i ==> s[j] != '?',
    ensures
        spec_query_pos(s) == spec_query_pos_at(s, i),
    decreases i,
{
    if i > 0 {
        lemma_query_pos_skip(s, i - 1);
        assert(spec_query_pos_at(s, i - 1) == spec_query_pos_at(s, i));
    }
}

/// Skipping a prefix without a marker hit or stop does not move the
/// absolute-form scan.
proof fn lemma_authority_start_skip(s: Seq<char>, i: int)
    requires
        0 <= i <= s.len(),
        forall|j: int|
            0 <= j < i ==> #[trigger] s[j] != '/' && s[j] != '?' && !(s[j] == ':' && j + 2
                < s.len() && s[j + 1] == '/' && s[j + 2] == '/'),
    ensures
        spec_authority_start_at(s, 0) == spec_authority_start_at(s, i),
    decreases i,
{
    if i > 0 {
        lemma_authority_start_skip(s, i - 1);
        assert(spec_authority_start_at(s, i - 1) == spec_authority_start_at(s, i));
    }
}

/// Skipping a prefix without a slash or question mark does not move
/// the start of the path-and-query part.
proof fn lemma_rest_start_skip(s: Seq<char>, a: int, i: int)
    requires
        0 <= a <= i <= s.len(),
        forall|j: int| a <= j < i ==> s[j] != '/' && s[j] != '?',
    ensures
        spec_rest_start_at(s, a) == spec_rest_start_at(s, i),
    decreases i - a,
{
    if a < i {
        assert(spec_rest_start_at(s, a) == spec_rest_start_at(s, a + 1));
        lemma_rest_start_skip(s, a + 1, i);
    }
}

/// Splits the path-and-query part of a string at the first `?`.
fn split_query(rest: &str) -> (r: (String, String))
    ensures
        r.0@ == rest@.subrange(0, spec_query_pos(rest@)),
        r.1@ == (if spec_query_pos(rest@) < rest@.len() {
            rest@.subrange(spec_query_pos(rest@) + 1, rest@.len() as int)
        } else {
            Seq::<char>::empty()
        }),
{
    let n = rest.unicode_len();
    let mut k: usize = 0;
    while k < n
        invariant
            n == rest@.len(),
            k <= n,
            forall|j: int| 0 <= j < k ==> rest@[j] != '?',
        decreases n - k,
    {
        if rest.get_char(k) == '?' {
            proof {
                lemma_query_pos_skip(rest@, k as int);
            }
            let path = rest.substring_char(0, k);
            let query = rest.substring_char(k + 1, n);
            return (String::from_str(path), String::from_str(query));
        }
        k = k + 1;
    }
    proof {
        lemma_query_pos_skip(rest@, n as int);
        assert(rest@.subrange(0, n as int) =~= rest@);
    }
    (String::from_str(rest), String::new())
}

/// Finds the absolute-form marker: the index just past `://` when it
/// comes before any slash or question mark, and nothing otherwise.
fn find_authority(target: &str) -> (r: Option<usize>)
    ensures
        r matches Some(a) ==> spec_authority_start_at(target@, 0) == a && a <= target@.len(),
        r is None ==> spec_authority_start_at(target@, 0) == -1,
{
    let n = target.unicode_len();
    let mut k: usize = 0;
    while k < n
        invariant
            n == target@.len(),
            k <= n,
            forall|j: int|
                0 <= j < k ==> #[trigger] target@[j] != '/' && target@[j] != '?' && !(target@[j]
                    == ':' && j + 2 < target@.len() && target@[j + 1] == '/' && target@[j + 2]
                    == '/'),
        decreases n - k,
    {
        let c = target.get_char(k);
        if c == '/' || c == '?' {
            proof {
                lemma_authority_start_skip(target@, k as int);
            }
            return None;
        }
        if c == ':' && n - k > 2 && target.get_char(k + 1) == '/' && target.get_char(k + 2)
            == '/' {
            proof {
                lemma_authority_start_skip(target@, k as int);
            }
            return Some(k + 3);
        }
        k = k + 1;
    }
    proof {
        lemma_authority_start_skip(target@, n as int);
    }
    None
}

/// Finds where the path-and-query part begins after the authority:
/// the first slash or question mark at or after `a`, or the end.
fn find_rest_start(target: &str, a: usize) -> (p: usize)
    requires
        a <= target@.len(),
    ensures
        p == spec_rest_start_at(target@, a as int),
        a <= p <= target@.len(),
{
    let n = target.unicode_len();
    let mut p: usize = a;
    while p < n
        invariant
            n == target@.len(),
            a <= p <= n,
            forall|j: int| a <= j < p ==> #[trigger] target@[j] != '/' && target@[j] != '?',
        decreases n - p,
    {
        let c = target.get_char(p);
        if c == '/' || c == '?' {
            proof {
                lemma_rest_start_skip(target@, a as int, p as int);
            }
            return p;
        }
        p = p + 1;
    }
    proof {
        lemma_rest_start_skip(target@, a as int, n as int);
    }
    p
}

/// Splits a request target into the path component and the raw
/// query: an absolute-form target's scheme and authority are skipped
/// first, then the part splits at the first `?`.
pub fn split_path(target: &str) -> (r: (String, String))
    ensures
        r.0@ == spec_path_of(target@),
        r.1@ == spec_query_of(target@),
{
    match find_authority(target) {
        None => {
            proof {
                assert(spec_target_rest(target@) == target@);
            }
            split_query(target)
        },
        Some(a) => {
            let n = target.unicode_len();
            let p = find_rest_start(target, a);
            let rest = target.substring_char(p, n);
            proof {
                assert(rest@ == spec_target_rest(target@));
            }
            split_query(rest)
        },
    }
}

/// The protocol state for one connection.
pub struct H1Protocol {
    /// The capability to steer the socket; bound on `new_connection`.
    pub transport: Option<Transport>,
    /// The response channel: what the application has submitted.
    pub sender: SenderFactory,
    /// The request channel: body chunks awaiting the application.
    pub receiver: ReceiverFactory,
    /// The application's sending handle for the request in flight.
    pub app_sender: DataSender,
    /// Remaining declared body bytes of the request in flight.
    pub expected_content_length: usize,
    /// Whether the request in flight carries a chunked body.
    pub chunked_encoding: bool,
    /// Whether the connection outlives the current exchange.
    pub keep_alive: bool,
    /// Staged chunked-body bytes not yet flushed to the channel.
    pub staging: Vec<u8>,
}

/// The protocol state that `new_connection` establishes: nothing in
/// flight, empty fresh channels, keep-alive on.
pub open spec fn h1_fresh(p: H1Protocol) -> bool {
    &&& p.transport is Some
    &&& p.expected_content_length == 0
    &&& p.chunked_encoding == false
    &&& p.keep_alive == true
    &&& p.staging@ == Seq::<u8>::empty()
    &&& p.sender@.msgs == Seq::<crate::channel::ResponseMessage>::empty()
    &&& !p.sender@.closed
    &&& p.sender@.wakers == Seq::<u64>::empty()
    &&& p.receiver@.msgs == Seq::<crate::channel::RequestMessage>::empty()
    &&& !p.receiver@.closed
    &&& p.receiver@.wakers == Seq::<u64>::empty()
    &&& p.app_sender.chunked_encoding is None
    &&& p.app_sender.expected_content_length == 0
    &&& p.app_sender.keep_alive == true
}

impl H1Protocol {
    /// A protocol with no connection bound yet.
    pub fn new() -> (r: H1Protocol)
        ensures
            r.transport is None,
            r.expected_content_length == 0,
            r.chunked_encoding == false,
            r.keep_alive == true,
            r.staging@ == Seq::<u8>::empty(),
            r.sender@.msgs.len() == 0 && !r.sender@.closed && r.sender@.wakers.len() == 0,
            r.receiver@.msgs.len() == 0 && !r.receiver@.closed && r.receiver@.wakers.len() == 0,
    {
        H1Protocol {
            transport: None,
            sender: SenderFactory::new(),
            receiver: ReceiverFactory::new(),
            app_sender: DataSender::new(),
            expected_content_length: 0,
            chunked_encoding: false,
            keep_alive: true,
            staging: Vec::new(),
        }
    }

    /// Binds the protocol to a new connection: all per-request state
    /// is reset and the transport is rebound.
    pub fn new_connection(&mut self, transport: Transport)
        ensures
            h1_fresh(*final(self)),
            final(self).transport == Some(transport),
    {
        self.expected_content_length = 0;
        self.chunked_encoding = false;
        self.keep_alive = true;
        self.staging = Vec::new();
        self.sender = SenderFactory::new();
        self.receiver = ReceiverFactory::new();
        self.app_sender = DataSender::new();
        self.transport = Some(transport);
    }

    /// The connection is gone: the engine drops its channel ends, so
    /// later application sends are absorbed and receives report the
    /// closed fault.
    pub fn lost_connection(&mut self)
        ensures
            final(self).sender@ == (crate::channel::ResponseChannelModel {
                closed: true,
                ..old(self).sender@
            }),
            final(self).receiver@ == (crate::channel::RequestChannelModel {
                closed: true,
                ..old(self).receiver@
            }),
            final(self).transport == old(self).transport,
            final(self).expected_content_length == old(self).expected_content_length,
            final(self).chunked_encoding == old(self).chunked_encoding,
            final(self).keep_alive == old(self).keep_alive,
            final(self).staging == old(self).staging,
            final(self).app_sender == old(self).app_sender,
    {
        self.sender.close();
        self.receiver.close();
    }
}


/// How one submission to the request channel relates the channel and
/// the command queue before and after: absorbed when closed, handed
/// off to a single waker as a command, dropped when full, enqueued
/// otherwise.
pub open spec fn spec_emitted(
    r1: RequestChannelModel,
    r2: RequestChannelModel,
    b1: BridgeModel,
    b2: BridgeModel,
    mb: bool,
    data: Seq<u8>,
) -> bool {
    if r1.closed {
        r2 == r1 && b2 == b1
    } else if r1.wakers.len() == 1 {
        &&& r2 == (RequestChannelModel { wakers: Seq::<u64>::empty(), ..r1 })
        &&& b2.fd == b1.fd
        &&& b2.index == b1.index
        &&& b2.reading == b1.reading
        &&& b2.writing == b1.writing
        &&& b2.close_scheduled == b1.close_scheduled
        &&& b2.out.len() == b1.out.len() + 1
        &&& b2.out.drop_last() == b1.out
        &&& (b2.out.last() matches Command::HandoffBody(w, m, d) && w == r1.wakers[0] && m == mb
            && d@ == data)
    } else if r1.msgs.len() >= 2 {
        r2 == r1 && b2 == b1
    } else {
        &&& b2 == b1
        &&& r2.closed == r1.closed
        &&& r2.wakers == r1.wakers
        &&& r2.msgs.len() == r1.msgs.len() + 1
        &&& r2.msgs.drop_last() == r1.msgs
        &&& r2.msgs.last().more_body == mb
        &&& r2.msgs.last().data@ == data
    }
}

/// A run of submissions to the request channel, composed in order.
pub open spec fn spec_emitted_all(
    r1: RequestChannelModel,
    r2: RequestChannelModel,
    b1: BridgeModel,
    b2: BridgeModel,
    emits: Seq<(bool, Seq<u8>)>,
) -> bool
    decreases emits.len(),
{
    if emits.len() == 0 {
        r2 == r1 && b2 == b1
    } else {
        exists|rm: RequestChannelModel, bm: BridgeModel|
            spec_emitted_all(r1, rm, b1, bm, emits.drop_last()) && #[trigger] spec_emitted(
                rm,
                r2,
                bm,
                b2,
                emits.last().0,
                emits.last().1,
            )
    }
}

/// Extending a run of submissions by one more, at the end.
pub proof fn lemma_emitted_all_snoc(
    r1: RequestChannelModel,
    rm: RequestChannelModel,
    r2: RequestChannelModel,
    b1: BridgeModel,
    bm: BridgeModel,
    b2: BridgeModel,
    emits: Seq<(bool, Seq<u8>)>,
    e: (bool, Seq<u8>),
)
    requires
        spec_emitted_all(r1, rm, b1, bm, emits),
        spec_emitted(rm, r2, bm, b2, e.0, e.1),
    ensures
        spec_emitted_all(r1, r2, b1, b2, emits.push(e)),
{
    assert(emits.push(e).drop_last() =~= emits);
    assert(emits.push(e).last() == e);
    assert(spec_emitted_all(r1, rm, b1, bm, emits.push(e).drop_last()));
    assert(spec_emitted(rm, r2, bm, b2, emits.push(e).last().0, emits.push(e).last().1));
}

/// What one call of the chunked framer does to a buffer and the
/// staging: which bytes stay, what is staged, what is emitted, and
/// whether the terminal chunk was seen.
#[verifier::ext_equal]
pub ghost struct ChunkDrain {
    /// False when the bytes cannot continue a chunked body.
    pub ok: bool,
    /// The bytes left in the read buffer.
    pub rest: Seq<u8>,
    /// The bytes left in the staging buffer.
    pub staged: Seq<u8>,
    /// Whether the terminal zero-size chunk was consumed.
    pub done: bool,
    /// The messages emitted to the request channel, in order.
    pub emits: Seq<(bool, Seq<u8>)>,
}

/// The chunked framer: parse a size line at the front; on a partial
/// line wait (flushing oversized staging); on the zero chunk consume
/// its trailing line break and emit the final message; otherwise move
/// the chunk body into staging, flush at [`MIN_FLUSH`], and repeat.
/// A chunk whose body has not fully arrived is left untouched, so no
/// emission ever splits a chunk boundary.
pub open spec fn spec_drain_chunks(b: Seq<u8>, staged: Seq<u8>) -> ChunkDrain
    decreases b.len(),
{
    match spec_chunk_parse(b) {
        ChunkStatus::Invalid => ChunkDrain {
            ok: false,
            rest: b,
            staged,
            done: false,
            emits: Seq::empty(),
        },
        ChunkStatus::Partial => spec_drain_wait(b, staged),
        ChunkStatus::Complete(pos, size) => {
            if size == 0 {
                if pos + 2 > b.len() {
                    spec_drain_wait(b, staged)
                } else {
                    ChunkDrain {
                        ok: true,
                        rest: b.subrange(pos + 2, b.len() as int),
                        staged: Seq::empty(),
                        done: true,
                        emits: seq![(false, staged)],
                    }
                }
            } else {
                if pos + size + 2 > b.len() {
                    spec_drain_wait(b, staged)
                } else {
                    let st2 = staged + b.subrange(pos as int, pos + size);
                    let rest2 = b.subrange(pos + size + 2, b.len() as int);
                    if st2.len() >= MIN_FLUSH {
                        let d = spec_drain_chunks(rest2, Seq::empty());
                        ChunkDrain { emits: seq![(true, st2)] + d.emits, ..d }
                    } else {
                        spec_drain_chunks(rest2, st2)
                    }
                }
            }
        },
    }
}

/// Waiting for more bytes: nothing is consumed, and staging is
/// flushed only when it exceeds [`MIN_FLUSH`].
pub open spec fn spec_drain_wait(b: Seq<u8>, staged: Seq<u8>) -> ChunkDrain {
    if staged.len() <= MIN_FLUSH {
        ChunkDrain { ok: true, rest: b, staged, done: false, emits: Seq::empty() }
    } else {
        ChunkDrain {
            ok: true,
            rest: b,
            staged: Seq::empty(),
            done: false,
            emits: seq![(true, staged)],
        }
    }
}

/// The keep-alive flag after draining these response messages: the
/// last message's declaration, or the default with none.
pub open spec fn spec_last_ka(msgs: Seq<ResponseMessage>, dflt: bool) -> bool {
    if msgs.len() == 0 {
        dflt
    } else {
        msgs.last().keep_alive
    }
}

/// Whether some drained message ends the response and declines
/// keep-alive, which schedules the connection close.
pub open spec fn spec_any_close(msgs: Seq<ResponseMessage>) -> bool
    decreases msgs.len(),
{
    if msgs.len() == 0 {
        false
    } else {
        (!msgs.last().more_body && !msgs.last().keep_alive) || spec_any_close(msgs.drop_last())
    }
}

/// One wake command per registered response waker, in queue order.
pub open spec fn spec_wake_cmds(wk: Seq<u64>) -> Seq<Command> {
    Seq::new(wk.len(), |i: int| Command::WakeSender(wk[i]))
}

/// How a parsed head is reflected in the scope the application gets.
pub open spec fn scope_matches(
    sc: RequestScope,
    version: int,
    method: Seq<char>,
    target: Seq<char>,
    headers: Seq<(Seq<char>, Seq<u8>)>,
    client: Addr,
    server: Addr,
    tls: bool,
) -> bool {
    &&& sc.scope_tag@ == "http"@
    &&& (version == 1 ==> sc.http_version@ == "1.1"@)
    &&& (version != 1 ==> sc.http_version@ == "1.0"@)
    &&& sc.method@ == method
    &&& (tls ==> sc.scheme@ == "https"@)
    &&& (!tls ==> sc.scheme@ == "http"@)
    &&& sc.path@ == spec_path_of(target)
    &&& sc.raw_query@ == spec_query_of(target)
    &&& sc.root_path@ == ""@
    &&& req_headers_view(sc.headers@) == headers
    &&& sc.server.host@ == server.host@ && sc.server.port == server.port
    &&& sc.client.host@ == client.host@ && sc.client.port == client.port
}

impl H1Protocol {
    /// Submits one body chunk to the request channel, turning a
    /// hand-off into a command for the host.
    pub fn emit_request_msg(&mut self, more_body: bool, data: Vec<u8>)
        requires
            old(self).transport is Some,
        ensures
            final(self).transport is Some,
            ({
                let t1 = old(self).transport->Some_0;
                let t2 = final(self).transport->Some_0;
                &&& t2.client == t1.client
                &&& t2.server == t1.server
                &&& t2.tls == t1.tls
                &&& spec_emitted(
                    old(self).receiver@,
                    final(self).receiver@,
                    t1.bridge@,
                    t2.bridge@,
                    more_body,
                    data@,
                )
            }),
            final(self).sender@ == old(self).sender@,
            final(self).app_sender == old(self).app_sender,
            final(self).expected_content_length == old(self).expected_content_length,
            final(self).chunked_encoding == old(self).chunked_encoding,
            final(self).keep_alive == old(self).keep_alive,
            final(self).staging == old(self).staging,
    {
        match self.receiver.send(RequestMessage { more_body, data }) {
            crate::channel::RequestSendOutcome::HandedOff(w, msg) => {
                match &mut self.transport {
                    Some(t) => {
                        let RequestMessage { more_body: m2, data: d2 } = msg;
                        let ghost b1 = t.bridge@;
                        t.bridge.emit(Command::HandoffBody(w, m2, d2));
                        proof {
                            assert(t.bridge@.out.drop_last() =~= b1.out);
                        }
                    },
                    None => {
                        proof {
                            assert(false);
                        }
                    },
                }
            },
            crate::channel::RequestSendOutcome::Sent => {
                proof {
                    assert(self.receiver@.msgs.drop_last() =~= old(self).receiver@.msgs);
                }
            },
            _ => {},
        }
    }

    /// Interprets a complete request head: derives the version and the
    /// keep-alive default, the declared body length and framing, hands
    /// the application a fresh sending handle, and queues the scope
    /// for delivery.
    pub fn process_head(&mut self, head: RequestHead)
        requires
            old(self).transport is Some,
        ensures
            final(self).transport is Some,
            ({
                let hv = req_headers_view(head.headers@);
                let t1 = old(self).transport->Some_0;
                let t2 = final(self).transport->Some_0;
                &&& final(self).expected_content_length == spec_req_content_length(hv)
                &&& final(self).chunked_encoding == spec_req_chunked(hv)
                &&& final(self).keep_alive == (head.version == 1)
                &&& final(self).app_sender.chunked_encoding is None
                &&& final(self).app_sender.expected_content_length == 0
                &&& final(self).sender@ == old(self).sender@
                &&& final(self).receiver@ == old(self).receiver@
                &&& final(self).staging == old(self).staging
                &&& t2.client == t1.client
                &&& t2.server == t1.server
                &&& t2.tls == t1.tls
                &&& t2.bridge@.fd == t1.bridge@.fd
                &&& t2.bridge@.index == t1.bridge@.index
                &&& t2.bridge@.reading == t1.bridge@.reading
                &&& t2.bridge@.writing == t1.bridge@.writing
                &&& t2.bridge@.close_scheduled == t1.bridge@.close_scheduled
                &&& t2.bridge@.out.len() == t1.bridge@.out.len() + 1
                &&& t2.bridge@.out.drop_last() == t1.bridge@.out
                &&& (t2.bridge@.out.last() matches Command::InvokeApp(ix, sc) && ix
                    == t1.bridge@.index && scope_matches(
                    sc,
                    head.version as int,
                    head.method@,
                    head.path@,
                    hv,
                    t1.client,
                    t1.server,
                    t1.tls,
                ))
            }),
    {
        let ghost hv = req_headers_view(head.headers@);
        let RequestHead { method, path: target, version, head_len: _, headers } = head;
        let mut ecl: usize = 0;
        let mut chunked = false;
        let mut i: usize = 0;
        while i < headers.len()
            invariant
                hv == req_headers_view(headers@),
                hv.len() == headers@.len(),
                i <= headers@.len(),
                ecl == spec_req_content_length(hv.subrange(0, i as int)),
                chunked == spec_req_chunked(hv.subrange(0, i as int)),
            decreases headers@.len() - i,
        {
            let name: &String = &headers[i].0;
            let value: &Vec<u8> = &headers[i].1;
            proof {
                assert(hv[i as int] == (name@, value@));
            }
            if eq_ignore_case(name.as_str().as_bytes(), "content-length".as_bytes()) {
                ecl = match parse_usize_dec(value.as_slice()) {
                    Some(n) => n,
                    None => 0,
                };
            }
            if eq_ignore_case(name.as_str().as_bytes(), "transfer-encoding".as_bytes()) {
                let lowered = to_lower(value.as_slice());
                chunked = contains_seq(lowered.as_slice(), "chunked".as_bytes());
            }
            i = i + 1;
            proof {
                let pre = hv.subrange(0, i as int);
                assert(pre.drop_last() =~= hv.subrange(0, i - 1));
                assert(pre.last() == hv[i - 1]);
            }
        }
        proof {
            assert(hv.subrange(0, hv.len() as int) =~= hv);
        }
        self.expected_content_length = ecl;
        self.chunked_encoding = chunked;
        self.keep_alive = version == 1;
        self.app_sender = DataSender::new();
        let version_str = if version == 1 {
            HTTP_11
        } else {
            HTTP_10
        };
        let (path, raw_query) = split_path(target.as_str());
        match &mut self.transport {
            Some(t) => {
                let scheme = Schema::from_tls(t.tls).as_str();
                let scope = RequestScope {
                    scope_tag: SCOPE_TYPE,
                    http_version: version_str,
                    method,
                    scheme,
                    path,
                    raw_query,
                    root_path: TEMP_ROOT_PATH,
                    headers,
                    server: t.server.duplicate(),
                    client: t.client.duplicate(),
                };
                let ix = t.bridge.index();
                t.bridge.emit(Command::InvokeApp(ix, scope));
            },
            None => {
                proof {
                    assert(false);
                }
            },
        }
    }
}



/// Queues one wake command per popped response waker, in order.
fn emit_wakes(t: &mut Transport, wakers: &Vec<u64>)
    ensures
        final(t).client == old(t).client,
        final(t).server == old(t).server,
        final(t).tls == old(t).tls,
        final(t).bridge@.fd == old(t).bridge@.fd,
        final(t).bridge@.index == old(t).bridge@.index,
        final(t).bridge@.reading == old(t).bridge@.reading,
        final(t).bridge@.writing == old(t).bridge@.writing,
        final(t).bridge@.close_scheduled == old(t).bridge@.close_scheduled,
        final(t).bridge@.out == old(t).bridge@.out + spec_wake_cmds(wakers@),
{
    let mut j: usize = 0;
    while j < wakers.len()
        invariant
            j <= wakers@.len(),
            t.client == old(t).client,
            t.server == old(t).server,
            t.tls == old(t).tls,
            t.bridge@.fd == old(t).bridge@.fd,
            t.bridge@.index == old(t).bridge@.index,
            t.bridge@.reading == old(t).bridge@.reading,
            t.bridge@.writing == old(t).bridge@.writing,
            t.bridge@.close_scheduled == old(t).bridge@.close_scheduled,
            t.bridge@.out == old(t).bridge@.out + spec_wake_cmds(wakers@).subrange(0, j as int),
        decreases wakers@.len() - j,
    {
        t.bridge.emit(Command::WakeSender(wakers[j]));
        j = j + 1;
        proof {
            assert(t.bridge@.out =~= old(t).bridge@.out + spec_wake_cmds(wakers@).subrange(
                0,
                j as int,
            ));
        }
    }
    proof {
        assert(spec_wake_cmds(wakers@).subrange(0, wakers@.len() as int) =~= spec_wake_cmds(
            wakers@,
        ));
    }
}

impl H1Protocol {
    /// Forwards fixed-length body bytes.  With the whole remainder at
    /// hand the final message goes out and the count resets; with at
    /// least [`MIN_FLUSH`] buffered an intermediate message goes out;
    /// otherwise the bytes wait.
    pub fn parse_body(&mut self, buffer: &mut Vec<u8>)
        requires
            old(self).transport is Some,
            old(self).expected_content_length > 0,
        ensures
            final(self).transport is Some,
            final(self).sender@ == old(self).sender@,
            final(self).app_sender == old(self).app_sender,
            final(self).chunked_encoding == old(self).chunked_encoding,
            final(self).keep_alive == old(self).keep_alive,
            final(self).staging == old(self).staging,
            ({
                let t1 = old(self).transport->Some_0;
                let t2 = final(self).transport->Some_0;
                let b = old(buffer)@;
                let ecl = old(self).expected_content_length;
                &&& t2.client == t1.client
                &&& t2.server == t1.server
                &&& t2.tls == t1.tls
                &&& (b.len() >= ecl ==> {
                    &&& final(buffer)@ == b.subrange(ecl as int, b.len() as int)
                    &&& final(self).expected_content_length == 0
                    &&& spec_emitted(
                        old(self).receiver@,
                        final(self).receiver@,
                        t1.bridge@,
                        t2.bridge@,
                        false,
                        b.subrange(0, ecl as int),
                    )
                })
                &&& (b.len() < ecl && b.len() >= MIN_FLUSH ==> {
                    &&& final(buffer)@ == Seq::<u8>::empty()
                    &&& final(self).expected_content_length == ecl - b.len()
                    &&& spec_emitted(
                        old(self).receiver@,
                        final(self).receiver@,
                        t1.bridge@,
                        t2.bridge@,
                        true,
                        b,
                    )
                })
                &&& (b.len() < ecl && b.len() < MIN_FLUSH ==> {
                    &&& final(buffer)@ == b
                    &&& *final(self) == *old(self)
                })
            }),
    {
        let ecl = self.expected_content_length;
        if buffer.len() >= ecl {
            let data = take_front(buffer, ecl);
            self.expected_content_length = 0;
            self.emit_request_msg(false, data);
        } else if buffer.len() >= MIN_FLUSH {
            let n = buffer.len();
            let data = take_front(buffer, n);
            proof {
                assert(data@ =~= old(buffer)@);
            }
            self.expected_content_length = ecl - n;
            self.emit_request_msg(true, data);
        }
    }

}

/// The full write-side drain transition: what `fill_write_buffer`
/// does to the protocol state and the write buffer, when a transport
/// is bound.
pub open spec fn spec_fill_write(
    pre: H1Protocol,
    post: H1Protocol,
    out1: Seq<u8>,
    out2: Seq<u8>,
) -> bool {
    &&& (post.transport is Some)
    &&&             (post.receiver@ == pre.receiver@)
    &&&             (post.app_sender == pre.app_sender)
    &&&             (post.expected_content_length == pre.expected_content_length)
    &&&             (post.chunked_encoding == pre.chunked_encoding)
    &&&             (post.staging == pre.staging)
    &&&             ({
                let t1 = pre.transport->Some_0;
                let t2 = post.transport->Some_0;
                let msgs = pre.sender@.msgs;
                let wk = pre.sender@.wakers;
                &&& t2.client == t1.client
                &&& t2.server == t1.server
                &&& t2.tls == t1.tls
                &&& out2 == out1 + concat_response_data(msgs)
                &&& post.keep_alive == spec_last_ka(msgs, pre.keep_alive)
                &&& post.sender@.msgs == Seq::<ResponseMessage>::empty()
                &&& post.sender@.closed == pre.sender@.closed
                &&& post.sender@.wakers == (if msgs.len() > 0 {
                    Seq::<u64>::empty()
                } else {
                    wk
                })
                &&& t2.bridge@.fd == t1.bridge@.fd
                &&& t2.bridge@.index == t1.bridge@.index
                &&& t2.bridge@.reading == t1.bridge@.reading
                &&& t2.bridge@.writing == t1.bridge@.writing
                &&& t2.bridge@.close_scheduled == (t1.bridge@.close_scheduled || spec_any_close(
                    msgs,
                ))
                &&& t2.bridge@.out == t1.bridge@.out + (if msgs.len() > 0 {
                    spec_wake_cmds(wk)
                } else {
                    Seq::<Command>::empty()
                }) + (if spec_any_close(msgs) && !t1.bridge@.close_scheduled {
                    seq![Command::CloseSocket(t1.bridge@.index)]
                } else {
                    Seq::<Command>::empty()
                })
            })
}

impl H1Protocol {
    /// Drains the response channel into the write buffer: the drained
    /// bytes are appended in submission order, each message's
    /// keep-alive declaration replaces the connection's, every
    /// registered waker is handed to the host once something drains,
    /// and a final message that declines keep-alive schedules the
    /// close.
    pub fn fill_write_buffer(&mut self, out: &mut Vec<u8>)
        requires
            old(self).transport is Some,
        ensures
            spec_fill_write(*old(self), *final(self), old(out)@, final(out)@),
    {
        let ghost msgs0 = self.sender@.msgs;
        let ghost wk0 = self.sender@.wakers;
        let ghost b0 = self.transport->Some_0.bridge@;
        let ghost ka0 = self.keep_alive;
        let ghost mut k: int = 0;
        let mut more = true;
        while more
            invariant
                0 <= k <= msgs0.len(),
                !more ==> k == msgs0.len(),
                self.transport is Some,
                self.transport->Some_0.client == old(self).transport->Some_0.client,
                self.transport->Some_0.server == old(self).transport->Some_0.server,
                self.transport->Some_0.tls == old(self).transport->Some_0.tls,
                msgs0 == old(self).sender@.msgs,
                wk0 == old(self).sender@.wakers,
                b0 == old(self).transport->Some_0.bridge@,
                ka0 == old(self).keep_alive,
                self.receiver@ == old(self).receiver@,
                self.app_sender == old(self).app_sender,
                self.expected_content_length == old(self).expected_content_length,
                self.chunked_encoding == old(self).chunked_encoding,
                self.staging == old(self).staging,
                self.sender@.msgs == msgs0.subrange(k, msgs0.len() as int),
                self.sender@.closed == old(self).sender@.closed,
                self.sender@.wakers == (if k > 0 {
                    Seq::<u64>::empty()
                } else {
                    wk0
                }),
                out@ == old(out)@ + concat_response_data(msgs0.subrange(0, k)),
                self.keep_alive == spec_last_ka(msgs0.subrange(0, k), ka0),
                self.transport->Some_0.bridge@.fd == b0.fd,
                self.transport->Some_0.bridge@.index == b0.index,
                self.transport->Some_0.bridge@.reading == b0.reading,
                self.transport->Some_0.bridge@.writing == b0.writing,
                self.transport->Some_0.bridge@.close_scheduled == (b0.close_scheduled
                    || spec_any_close(msgs0.subrange(0, k))),
                self.transport->Some_0.bridge@.out == b0.out + (if k > 0 {
                    spec_wake_cmds(wk0)
                } else {
                    Seq::<Command>::empty()
                }) + (if spec_any_close(msgs0.subrange(0, k)) && !b0.close_scheduled {
                    seq![Command::CloseSocket(b0.index)]
                } else {
                    Seq::<Command>::empty()
                }),
            decreases msgs0.len() - k, (if more {
                1int
            } else {
                0int
            }),
        {
            let (m, wakers) = self.sender.recv();
            match m {
                None => {
                    proof {
                        assert(msgs0.subrange(k, msgs0.len() as int).len() == 0);
                        assert(k == msgs0.len());
                    }
                    more = false;
                },
                Some(msg) => {
                    proof {
                        assert(msgs0.subrange(k, msgs0.len() as int)[0] == msgs0[k]);
                        assert(msgs0.subrange(k, msgs0.len() as int).drop_first()
                            =~= msgs0.subrange(k + 1, msgs0.len() as int));
                    }
                    match &mut self.transport {
                        Some(t) => {
                            emit_wakes(t, &wakers);
                        },
                        None => {
                            proof {
                                assert(false);
                            }
                        },
                    }
                    self.keep_alive = msg.keep_alive;
                    append_bytes(out, msg.data.as_slice());
                    if !msg.more_body && !self.keep_alive {
                        match &mut self.transport {
                            Some(t) => {
                                t.close();
                            },
                            None => {
                                proof {
                                    assert(false);
                                }
                            },
                        }
                    }
                    proof {
                        k = k + 1;
                        assert(msgs0.subrange(0, k).drop_last() =~= msgs0.subrange(0, k - 1));
                        assert(msgs0.subrange(0, k).last() == msgs0[k - 1]);
                        assert(out@ =~= old(out)@ + concat_response_data(msgs0.subrange(0, k)));
                    }
                },
            }
        }
        proof {
            assert(msgs0.subrange(0, k) =~= msgs0);
            assert(self.sender@.msgs =~= Seq::<ResponseMessage>::empty());
        }
    }
}


impl H1Protocol {
    /// Takes the staging buffer, leaving it empty.
    fn take_staging(&mut self) -> (st: Vec<u8>)
        ensures
            st == old(self).staging,
            *final(self) == (H1Protocol { staging: final(self).staging, ..*old(self) }),
            final(self).staging@ == Seq::<u8>::empty(),
    {
        let mut st: Vec<u8> = Vec::with_capacity(BODY_STAGING_CAP);
        core::mem::swap(&mut st, &mut self.staging);
        st
    }

    /// Runs the chunked framer over the buffer: exactly the transition
    /// [`spec_drain_chunks`] describes, with every emitted message
    /// submitted to the request channel in order.
    pub fn drain_body_chunks(&mut self, buffer: &mut Vec<u8>) -> (r: Result<(), H1Fault>)
        requires
            old(self).transport is Some,
        ensures
            final(self).transport is Some,
            final(self).sender@ == old(self).sender@,
            final(self).app_sender == old(self).app_sender,
            final(self).expected_content_length == old(self).expected_content_length,
            final(self).keep_alive == old(self).keep_alive,
            ({
                let t1 = old(self).transport->Some_0;
                let t2 = final(self).transport->Some_0;
                let d = spec_drain_chunks(old(buffer)@, old(self).staging@);
                &&& t2.client == t1.client
                &&& t2.server == t1.server
                &&& t2.tls == t1.tls
                &&& (r is Ok <==> d.ok)
                &&& (r matches Err(e) ==> e is BadChunk)
                &&& final(buffer)@ == d.rest
                &&& final(self).staging@ == d.staged
                &&& final(self).chunked_encoding == (old(self).chunked_encoding && !d.done)
                &&& spec_emitted_all(
                    old(self).receiver@,
                    final(self).receiver@,
                    t1.bridge@,
                    t2.bridge@,
                    d.emits,
                )
            }),
    {
        let ghost r0 = old(self).receiver@;
        let ghost b0 = old(self).transport->Some_0.bridge@;
        let ghost d = spec_drain_chunks(old(buffer)@, old(self).staging@);
        let ghost mut done_emits: Seq<(bool, Seq<u8>)> = Seq::empty();
        proof {
            assert(spec_emitted_all(r0, self.receiver@, b0, self.transport->Some_0.bridge@,
                done_emits));
        }
        loop
            invariant
                self.transport is Some,
                self.transport->Some_0.client == old(self).transport->Some_0.client,
                self.transport->Some_0.server == old(self).transport->Some_0.server,
                self.transport->Some_0.tls == old(self).transport->Some_0.tls,
                self.sender@ == old(self).sender@,
                self.app_sender == old(self).app_sender,
                self.expected_content_length == old(self).expected_content_length,
                self.keep_alive == old(self).keep_alive,
                self.chunked_encoding == old(self).chunked_encoding,
                r0 == old(self).receiver@,
                b0 == old(self).transport->Some_0.bridge@,
                d == spec_drain_chunks(old(buffer)@, old(self).staging@),
                spec_emitted_all(r0, self.receiver@, b0, self.transport->Some_0.bridge@,
                    done_emits),
                ({
                    let dc = spec_drain_chunks(buffer@, self.staging@);
                    &&& d.ok == dc.ok
                    &&& d.rest == dc.rest
                    &&& d.staged == dc.staged
                    &&& d.done == dc.done
                    &&& d.emits == done_emits + dc.emits
                }),
            decreases buffer@.len(),
        {
            let ghost ib = buffer@;
            let ghost istaging = self.staging@;
            match parse_chunk_head(buffer) {
                ChunkStatus::Invalid => {
                    proof {
                        assert(done_emits + Seq::<(bool, Seq<u8>)>::empty() =~= done_emits);
                    }
                    return Err(H1Fault::BadChunk);
                },
                ChunkStatus::Partial => {
                    return Ok(self.drain_wait(Ghost(done_emits), Ghost(r0), Ghost(b0), Ghost(d)));
                },
                ChunkStatus::Complete(pos, size) => {
                    if size == 0 {
                        if buffer.len() - pos < 2 {
                            return Ok(self.drain_wait(Ghost(done_emits), Ghost(r0), Ghost(b0), Ghost(d)));
                        }
                        drop_front(buffer, pos + 2);
                        self.chunked_encoding = false;
                        let ghost pre_r = self.receiver@;
                        let ghost pre_b = self.transport->Some_0.bridge@;
                        let st = self.take_staging();
                        self.emit_request_msg(false, st);
                        proof {
                            let e = (false, istaging);
                            lemma_emitted_all_snoc(r0, pre_r, self.receiver@, b0, pre_b,
                                self.transport->Some_0.bridge@, done_emits, e);
                            assert(done_emits + seq![e] =~= done_emits.push(e));
                        }
                        return Ok(());
                    }
                    let n = buffer.len();
                    let avail = n - pos;
                    if (avail as u64) < size || ((avail as u64) - size) < 2 {
                        return Ok(self.drain_wait(Ghost(done_emits), Ghost(r0), Ghost(b0), Ghost(d)));
                    }
                    let size_us = size as usize;
                    drop_front(buffer, pos);
                    let body = take_front(buffer, size_us);
                    drop_front(buffer, 2);
                    proof {
                        assert(body@ =~= ib.subrange(pos as int, pos + size));
                        assert(buffer@ =~= ib.subrange(pos + size + 2, ib.len() as int));
                    }
                    append_bytes(&mut self.staging, body.as_slice());
                    proof {
                        assert(self.staging@ == istaging + ib.subrange(pos as int, pos + size));
                    }
                    if self.staging.len() >= MIN_FLUSH {
                        let ghost pre_r = self.receiver@;
                        let ghost pre_b = self.transport->Some_0.bridge@;
                        let ghost st2 = self.staging@;
                        let st = self.take_staging();
                        self.emit_request_msg(true, st);
                        proof {
                            let e = (true, st2);
                            lemma_emitted_all_snoc(r0, pre_r, self.receiver@, b0, pre_b,
                                self.transport->Some_0.bridge@, done_emits, e);
                            let d2 = spec_drain_chunks(buffer@, self.staging@);
                            assert(done_emits + (seq![e] + d2.emits) =~= done_emits.push(e)
                                + d2.emits);
                            done_emits = done_emits.push(e);
                        }
                    }
                },
            }
        }
    }

    /// The framer needs more bytes: staging above [`MIN_FLUSH`] is
    /// flushed onward, anything else is kept for the next read.
    fn drain_wait(
        &mut self,
        Ghost(done_emits): Ghost<Seq<(bool, Seq<u8>)>>,
        Ghost(r0): Ghost<RequestChannelModel>,
        Ghost(b0): Ghost<BridgeModel>,
        Ghost(d): Ghost<ChunkDrain>,
    )
        requires
            old(self).transport is Some,
            spec_emitted_all(r0, old(self).receiver@, b0, old(self).transport->Some_0.bridge@,
                done_emits),
            ({
                let dc = spec_drain_wait(Seq::<u8>::empty(), old(self).staging@);
                &&& d.staged == dc.staged
                &&& d.emits == done_emits + dc.emits
            }),
        ensures
            final(self).transport is Some,
            final(self).sender@ == old(self).sender@,
            final(self).app_sender == old(self).app_sender,
            final(self).expected_content_length == old(self).expected_content_length,
            final(self).keep_alive == old(self).keep_alive,
            final(self).chunked_encoding == old(self).chunked_encoding,
            final(self).transport->Some_0.client == old(self).transport->Some_0.client,
            final(self).transport->Some_0.server == old(self).transport->Some_0.server,
            final(self).transport->Some_0.tls == old(self).transport->Some_0.tls,
            final(self).staging@ == d.staged,
            spec_emitted_all(r0, final(self).receiver@, b0,
                final(self).transport->Some_0.bridge@, d.emits),
    {
        if self.staging.len() <= MIN_FLUSH {
            proof {
                assert(done_emits + Seq::<(bool, Seq<u8>)>::empty() =~= done_emits);
            }
        } else {
            let ghost istaging = self.staging@;
            let ghost pre_r = self.receiver@;
            let ghost pre_b = self.transport->Some_0.bridge@;
            let st = self.take_staging();
            self.emit_request_msg(true, st);
            proof {
                let e = (true, istaging);
                lemma_emitted_all_snoc(r0, pre_r, self.receiver@, b0, pre_b,
                    self.transport->Some_0.bridge@, done_emits, e);
                assert(done_emits + seq![e] =~= done_emits.push(e));
            }
        }
    }
}


/// What one body-phase step does, given the framing state at its
/// start: drain chunks when chunked, forward fixed-length bytes when
/// a length remains, and otherwise emit the single empty final
/// message of a bodiless request.
pub open spec fn spec_body_phase(
    ecl: nat,
    chunked: bool,
    b: Seq<u8>,
    staging: Seq<u8>,
    ecl2: nat,
    chunked2: bool,
    b2: Seq<u8>,
    staging2: Seq<u8>,
    r1: RequestChannelModel,
    r2: RequestChannelModel,
    bm1: BridgeModel,
    bm2: BridgeModel,
    ok: bool,
) -> bool {
    if chunked {
        let d = spec_drain_chunks(b, staging);
        &&& ok == d.ok
        &&& b2 == d.rest
        &&& staging2 == d.staged
        &&& chunked2 == !d.done
        &&& ecl2 == ecl
        &&& spec_emitted_all(r1, r2, bm1, bm2, d.emits)
    } else if ecl > 0 {
        &&& ok
        &&& chunked2 == chunked
        &&& staging2 == staging
        &&& (b.len() >= ecl ==> b2 == b.subrange(ecl as int, b.len() as int) && ecl2 == 0
            && spec_emitted(r1, r2, bm1, bm2, false, b.subrange(0, ecl as int)))
        &&& (b.len() < ecl && b.len() >= MIN_FLUSH ==> b2 == Seq::<u8>::empty() && ecl2 == ecl
            - b.len() && spec_emitted(r1, r2, bm1, bm2, true, b))
        &&& (b.len() < ecl && b.len() < MIN_FLUSH ==> b2 == b && ecl2 == ecl && r2 == r1 && bm2
            == bm1)
    } else {
        &&& ok
        &&& chunked2 == chunked
        &&& staging2 == staging
        &&& ecl2 == 0
        &&& b2 == b
        &&& spec_emitted(r1, r2, bm1, bm2, false, Seq::<u8>::empty())
    }
}

/// The full read-event transition: what `data_received` does to the
/// protocol state and the read buffer, for every starting state.
pub open spec fn spec_data_received(
    pre: H1Protocol,
    b0: Seq<u8>,
    post: H1Protocol,
    b2: Seq<u8>,
    r: Result<(), H1Fault>,
) -> bool {
    &&& (pre.transport is None ==> (r matches Err(e) && e is TransportUnset)
                && post == pre && b2 == b0)
    &&& (pre.transport is Some ==> ({
                let t1 = pre.transport->Some_0;
                let t2 = post.transport->Some_0;
                let b = b0;
                let phase = pre.expected_content_length == 0
                    && !pre.chunked_encoding;
                &&& post.transport is Some
                &&& t2.client == t1.client
                &&& t2.server == t1.server
                &&& t2.tls == t1.tls
                &&& post.sender@ == pre.sender@
                &&& (phase && head_is_partial(b) ==> r is Ok && post == pre
                    && b2 == b)
                &&& (phase && head_is_malformed(b) ==> (r matches Err(e) && e is BadRequest)
                    && post == pre && b2 == b)
                &&& (phase && head_is_complete(b) ==> ({
                    let hl = head_len_of(b);
                    let rest = b.subrange(hl, b.len() as int);
                    let hv = head_headers_of(b);
                    let ecl1 = spec_req_content_length(hv);
                    let ch1 = spec_req_chunked(hv);
                    &&& post.keep_alive == (head_version_of(b) == 1)
                    &&& post.app_sender.chunked_encoding is None
                    &&& post.app_sender.expected_content_length == 0
                    &&& (r is Ok <==> (ch1 ==> spec_drain_chunks(rest, pre.staging@).ok))
                    &&& (r matches Err(e) ==> e is BadChunk)
                    &&& exists|sc: RequestScope|
                        #[trigger] scope_matches(
                            sc,
                            head_version_of(b),
                            head_method_of(b),
                            head_path_of(b),
                            hv,
                            t1.client,
                            t1.server,
                            t1.tls,
                        ) && ({
                            let bm1 = spec_emit(
                                t1.bridge@,
                                Command::InvokeApp(t1.bridge@.index, sc),
                            );
                            &&& (r is Ok ==> exists|bm: BridgeModel|
                                #[trigger] spec_body_phase(
                                    ecl1,
                                    ch1,
                                    rest,
                                    pre.staging@,
                                    post.expected_content_length as nat,
                                    post.chunked_encoding,
                                    b2,
                                    post.staging@,
                                    pre.receiver@,
                                    post.receiver@,
                                    bm1,
                                    bm,
                                    true,
                                ) && t2.bridge@ == spec_arm_writer(bm))
                            &&& (r is Err ==> spec_body_phase(
                                ecl1,
                                ch1,
                                rest,
                                pre.staging@,
                                post.expected_content_length as nat,
                                post.chunked_encoding,
                                b2,
                                post.staging@,
                                pre.receiver@,
                                post.receiver@,
                                bm1,
                                t2.bridge@,
                                false,
                            ))
                        })
                }))
                &&& (!phase ==> ({
                    &&& post.keep_alive == pre.keep_alive
                    &&& post.app_sender == pre.app_sender
                    &&& (r is Ok <==> (pre.chunked_encoding ==> spec_drain_chunks(
                        b,
                        pre.staging@,
                    ).ok))
                    &&& (r matches Err(e) ==> e is BadChunk)
                    &&& (r is Ok ==> exists|bm: BridgeModel|
                        #[trigger] spec_body_phase(
                            pre.expected_content_length as nat,
                            pre.chunked_encoding,
                            b,
                            pre.staging@,
                            post.expected_content_length as nat,
                            post.chunked_encoding,
                            b2,
                            post.staging@,
                            pre.receiver@,
                            post.receiver@,
                            t1.bridge@,
                            bm,
                            true,
                        ) && t2.bridge@ == spec_arm_writer(bm))
                    &&& (r is Err ==> spec_body_phase(
                        pre.expected_content_length as nat,
                        pre.chunked_encoding,
                        b,
                        pre.staging@,
                        post.expected_content_length as nat,
                        post.chunked_encoding,
                        b2,
                        post.staging@,
                        pre.receiver@,
                        post.receiver@,
                        t1.bridge@,
                        t2.bridge@,
                        false,
                    ))
                }))
            }))
}

impl H1Protocol {
    /// One read event: parse a head if none is in flight, frame body
    /// bytes onto the request channel, and resume writing so the
    /// response path can run.  A partial head waits for more bytes; a
    /// malformed head or chunk is fatal for the connection.
    pub fn data_received(&mut self, buffer: &mut Vec<u8>) -> (r: Result<(), H1Fault>)
        ensures
            spec_data_received(*old(self), old(buffer)@, *final(self), final(buffer)@, r),
    {
        if self.transport.is_none() {
            return Err(H1Fault::TransportUnset);
        }
        let ghost b = buffer@;
        let ghost t1 = self.transport->Some_0;
        let ghost phase = self.expected_content_length == 0 && !self.chunked_encoding;
        let ghost mut sc_witness: RequestScope;
        if self.expected_content_length == 0 && !self.chunked_encoding {
            match parse_request_head(buffer) {
                HeadOutcome::Partial => {
                    return Ok(());
                },
                HeadOutcome::Malformed => {
                    return Err(H1Fault::BadRequest);
                },
                HeadOutcome::Complete(head) => {
                    let ghost headv = head;
                    let hl = head.head_len;
                    drop_front(buffer, hl);
                    self.process_head(head);
                    proof {
                        let hv = head_headers_of(b);
                        assert(req_headers_view(headv.headers@) =~= hv);
                        let cmd = self.transport->Some_0.bridge@.out.last();
                        sc_witness = cmd->InvokeApp_1;
                        assert(scope_matches(
                            sc_witness,
                            head_version_of(b),
                            head_method_of(b),
                            head_path_of(b),
                            hv,
                            t1.client,
                            t1.server,
                            t1.tls,
                        ));
                        assert(self.transport->Some_0.bridge@ =~= spec_emit(
                            t1.bridge@,
                            Command::InvokeApp(t1.bridge@.index, sc_witness),
                        ));
                    }
                },
            }
        }
        let ghost mid = *self;
        let ghost midbuf = buffer@;
        if self.chunked_encoding {
            match self.drain_body_chunks(buffer) {
                Err(e) => {
                    proof {
                        assert(spec_body_phase(
                            mid.expected_content_length as nat,
                            mid.chunked_encoding,
                            midbuf,
                            mid.staging@,
                            self.expected_content_length as nat,
                            self.chunked_encoding,
                            buffer@,
                            self.staging@,
                            mid.receiver@,
                            self.receiver@,
                            mid.transport->Some_0.bridge@,
                            self.transport->Some_0.bridge@,
                            false,
                        ));
                    }
                    return Err(e);
                },
                Ok(()) => {},
            }
        } else if self.expected_content_length > 0 {
            self.parse_body(buffer);
        } else {
            self.emit_request_msg(false, Vec::new());
        }
        let ghost prearm = self.transport->Some_0.bridge@;
        match &mut self.transport {
            Some(t) => {
                t.resume_writing();
            },
            None => {
                proof {
                    assert(false);
                }
            },
        }
        proof {
            assert(spec_body_phase(
                mid.expected_content_length as nat,
                mid.chunked_encoding,
                midbuf,
                mid.staging@,
                self.expected_content_length as nat,
                self.chunked_encoding,
                buffer@,
                self.staging@,
                mid.receiver@,
                self.receiver@,
                mid.transport->Some_0.bridge@,
                prearm,
                true,
            ));
        }
        Ok(())
    }
}


/// No emission ever splits a chunk boundary: while the size line of
/// the next chunk is still incomplete and the staging has not grown
/// past the flush floor, the framer consumes nothing, emits nothing,
/// and keeps the staging intact for the next read.
pub proof fn law_chunk_boundary_keeps_bytes(b: Seq<u8>, staged: Seq<u8>)
    requires
        spec_chunk_parse(b) is Partial,
        staged.len() <= MIN_FLUSH,
    ensures
        spec_drain_chunks(b, staged).ok,
        spec_drain_chunks(b, staged).rest == b,
        spec_drain_chunks(b, staged).staged == staged,
        spec_drain_chunks(b, staged).emits == Seq::<(bool, Seq<u8>)>::empty(),
{
}


/// The terminal chunk flushes the staging exactly once: when the
/// zero-size line and its trailing break are at hand, the framer
/// consumes them, emits the staged body as the single final message,
/// and leaves chunked framing.
pub proof fn law_terminal_chunk_flushes_staging(b: Seq<u8>, staged: Seq<u8>, pos: usize)
    requires
        spec_chunk_parse(b) == ChunkStatus::Complete(pos, 0u64),
        pos + 2 <= b.len(),
    ensures
        spec_drain_chunks(b, staged).ok,
        spec_drain_chunks(b, staged).done,
        spec_drain_chunks(b, staged).rest == b.subrange(pos + 2, b.len() as int),
        spec_drain_chunks(b, staged).staged == Seq::<u8>::empty(),
        spec_drain_chunks(b, staged).emits == seq![(false, staged)],
{
}


/// Fixed-length framing forwards body bytes exactly once and in wire
/// order: the oversized chunk emitted for one read, followed by the
/// final chunk cut from the next read, is exactly the declared prefix
/// of the concatenated wire bytes.  The two emissions are the ones
/// `parse_body` makes for a first read below the declared length but
/// at the flush floor, and for a second read that completes it.
pub proof fn law_fixed_body_in_wire_order(ecl: nat, b1: Seq<u8>, b2: Seq<u8>)
    requires
        b1.len() < ecl,
        ecl - b1.len() <= b2.len(),
    ensures
        b1 + b2.subrange(0, ecl - b1.len()) == (b1 + b2).subrange(0, ecl as int),
{
    assert(b1 + b2.subrange(0, ecl - b1.len()) =~= (b1 + b2).subrange(0, ecl as int));
}


/// Grounds the chunk-size automaton: a minimal well-formed size line,
/// one hexadecimal digit followed by a line break, parses to that
/// digit's value whatever follows.
pub proof fn law_single_digit_chunk_parses(d: u8, rest: Seq<u8>)
    requires
        crate::parse::is_hex_digit(d),
    ensures
        spec_chunk_parse(seq![d, 13u8, 10u8] + rest) == ChunkStatus::Complete(
            3usize,
            crate::parse::hex_val(d) as u64,
        ),
{
    reveal_with_fuel(crate::parse::spec_chunk_parse_at, 4);
    let b = seq![d, 13u8, 10u8] + rest;
    assert(b[0] == d && b[1] == 13 && b[2] == 10);
    assert(b.len() >= 3);
}


/// A complete chunk moves into staging without loss: when a chunk's
/// size line, body and trailing break are all at hand and the staging
/// stays under the flush floor, the framer continues on the remaining
/// bytes with exactly the old staging plus that body appended.
pub proof fn law_chunk_body_staged(b: Seq<u8>, staged: Seq<u8>, pos: usize, size: u64)
    requires
        spec_chunk_parse(b) == ChunkStatus::Complete(pos, size),
        0 < size,
        pos + size + 2 <= b.len(),
        staged.len() + size < MIN_FLUSH,
    ensures
        spec_drain_chunks(b, staged) == spec_drain_chunks(
            b.subrange(pos + size + 2, b.len() as int),
            staged + b.subrange(pos as int, pos + size),
        ),
{
}

} // verus!
