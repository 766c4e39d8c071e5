//! Response-start serialization and the application's sending handle.
//!
//! `send_start` turns a status code and headers into the bytes of the
//! status line and header block, synthesizes the date and server
//! headers, and enqueues the block as the first message on the
//! response channel.  Header names and values are held to the token
//! and printable-byte tables; anything else is a programmer error in
//! the application and surfaces as a fault.

use vstd::prelude::*;

use crate::bytes_util::{
    all_dec_digits, append_bytes, append_str, dec_digits_u64, dec_val, eq_bytes, eq_ignore_case,
    lemma_str_bytes_empty, lower_seq, parse_usize_dec, spec_dec_digits, str_bytes, to_lower,
};
use crate::channel::{ResponseChannelModel, ResponseMessage, SendOutcome, SenderFactory};
use crate::parse::http_date_now;
use crate::status::{get_status_from_u16, spec_reason};

verus! {

/// Faults an application send can raise.
#[derive(Debug)]
pub enum AppSendError {
    /// The channel is full; register a waker and retry.
    WouldBlock,
    /// The status code is outside 100..=999.
    InvalidStatus,
    /// A header name is not a token, a value holds a forbidden byte,
    /// or a content-length value does not parse as a decimal integer.
    InvalidHeader,
}

/// A header name byte: the token characters RFC 7230 allows.
pub open spec fn is_token_byte(b: u8) -> bool {
    (48 <= b <= 57)  // 0-9
     || (97 <= b <= 122)  // a-z
     || (65 <= b <= 90)  // A-Z
     || b == 33  // !
     || (35 <= b <= 39)  // # $ % & '
     || b == 42  // *
     || b == 43  // +
     || b == 45  // -
     || b == 46  // .
     || b == 94  // ^
     || b == 95  // _
     || b == 96  // `
     || b == 124  // |
     || b == 126  // ~

}

/// A valid header name: non-empty, token bytes only.
pub open spec fn spec_valid_name(n: Seq<u8>) -> bool {
    n.len() > 0 && forall|i: int| 0 <= i < n.len() ==> is_token_byte(#[trigger] n[i])
}

/// A header value byte: horizontal tab or any byte from space up,
/// except delete.
pub open spec fn is_value_byte(b: u8) -> bool {
    b == 9 || (32 <= b && b != 127)
}

/// A valid header value: value bytes only.
pub open spec fn spec_valid_value(v: Seq<u8>) -> bool {
    forall|i: int| 0 <= i < v.len() ==> is_value_byte(#[trigger] v[i])
}

/// Case-insensitive equality of two header names.
pub open spec fn is_name(n: Seq<u8>, t: Seq<u8>) -> bool {
    lower_seq(n) == lower_seq(t)
}

/// A content-length value that parses: non-empty decimal digits whose
/// value fits the machine.
pub open spec fn cl_parses(v: Seq<u8>) -> bool {
    v.len() > 0 && all_dec_digits(v) && dec_val(v) <= usize::MAX
}

/// Every header is well-formed, and every content-length parses.
pub open spec fn spec_resp_headers_ok(h: Seq<(Seq<u8>, Seq<u8>)>) -> bool {
    forall|i: int|
        0 <= i < h.len() ==> {
            &&& spec_valid_name((#[trigger] h[i]).0)
            &&& spec_valid_value(h[i].1)
            &&& (is_name(h[i].0, str_bytes("content-length"@)) ==> cl_parses(h[i].1))
        }
}

/// The keep-alive decision a header list declares: false as soon as a
/// `connection: close` header appears, byte-exact on the value.
pub open spec fn spec_resp_keep_alive(h: Seq<(Seq<u8>, Seq<u8>)>) -> bool
    decreases h.len(),
{
    if h.len() == 0 {
        true
    } else {
        !(is_name(h.last().0, str_bytes("connection"@)) && h.last().1 == str_bytes("close"@))
            && spec_resp_keep_alive(h.drop_last())
    }
}

/// Whether a header list declares a chunked response, byte-exact on
/// the value.
pub open spec fn spec_resp_chunked(h: Seq<(Seq<u8>, Seq<u8>)>) -> bool
    decreases h.len(),
{
    if h.len() == 0 {
        false
    } else {
        (is_name(h.last().0, str_bytes("transfer-encoding"@)) && h.last().1 == str_bytes(
            "chunked"@,
        )) || spec_resp_chunked(h.drop_last())
    }
}

/// The declared response body length: the value of the last
/// content-length header, or zero without one.
pub open spec fn spec_resp_content_length(h: Seq<(Seq<u8>, Seq<u8>)>) -> nat
    decreases h.len(),
{
    if h.len() == 0 {
        0
    } else if is_name(h.last().0, str_bytes("content-length"@)) {
        dec_val(h.last().1)
    } else {
        spec_resp_content_length(h.drop_last())
    }
}

/// The status line: `HTTP/1.1 ` then the table entry for a known code,
/// or the bare code and an empty reason for an unknown one.
pub open spec fn spec_status_line(code: u16) -> Seq<u8> {
    if spec_reason(code).len() > 0 {
        str_bytes("HTTP/1.1 "@) + str_bytes(spec_reason(code)) + str_bytes("\r\n"@)
    } else {
        str_bytes("HTTP/1.1 "@) + spec_dec_digits(code as nat) + str_bytes(" \r\n"@)
    }
}

/// The serialized header block: each name lower-cased, `: `, the value
/// untouched, and a line break, in list order.
pub open spec fn spec_header_lines(h: Seq<(Seq<u8>, Seq<u8>)>) -> Seq<u8>
    decreases h.len(),
{
    if h.len() == 0 {
        Seq::empty()
    } else {
        spec_header_lines(h.drop_last()) + lower_seq(h.last().0) + str_bytes(": "@)
            + h.last().1 + str_bytes("\r\n"@)
    }
}

/// The whole response start: status line, caller headers, synthesized
/// date and server headers, and the closing line break, in that order.
pub open spec fn spec_start_bytes(code: u16, h: Seq<(Seq<u8>, Seq<u8>)>, date: Seq<char>) -> Seq<
    u8,
> {
    spec_status_line(code) + spec_header_lines(h) + str_bytes("date: "@) + str_bytes(date)
        + str_bytes("\r\n"@) + str_bytes("server: Litmus\r\n"@) + str_bytes("\r\n"@)
}

/// The byte-sequence views of a header list.
pub open spec fn pairs_view(h: Seq<(Vec<u8>, Vec<u8>)>) -> Seq<(Seq<u8>, Seq<u8>)> {
    Seq::new(h.len(), |i: int| (h[i].0@, h[i].1@))
}

/// Whether one header name holds token bytes only and is non-empty.
pub fn valid_header_name(n: &[u8]) -> (r: bool)
    ensures
        r == spec_valid_name(n@),
{
    if n.len() == 0 {
        return false;
    }
    let mut i: usize = 0;
    while i < n.len()
        invariant
            i <= n@.len(),
            forall|j: int| 0 <= j < i ==> is_token_byte(#[trigger] n@[j]),
        decreases n@.len() - i,
    {
        let b = n[i];
        let ok = (48 <= b && b <= 57) || (97 <= b && b <= 122) || (65 <= b && b <= 90) || b == 33
            || (35 <= b && b <= 39) || b == 42 || b == 43 || b == 45 || b == 46 || b == 94 || b
            == 95 || b == 96 || b == 124 || b == 126;
        if !ok {
            return false;
        }
        i = i + 1;
    }
    true
}

/// Whether one header value holds value bytes only.
pub fn valid_header_value(v: &[u8]) -> (r: bool)
    ensures
        r == spec_valid_value(v@),
{
    let mut i: usize = 0;
    while i < v.len()
        invariant
            i <= v@.len(),
            forall|j: int| 0 <= j < i ==> is_value_byte(#[trigger] v@[j]),
        decreases v@.len() - i,
    {
        let b = v[i];
        if !(b == 9 || (32 <= b && b != 127)) {
            return false;
        }
        i = i + 1;
    }
    true
}

/// A rendered response start and what its headers declared.
pub struct StartRender {
    /// The serialized status line and header block.
    pub bytes: Vec<u8>,
    /// False exactly when a `connection: close` header appeared.
    pub keep_alive: bool,
    /// True exactly when a `transfer-encoding: chunked` header appeared.
    pub chunked: bool,
    /// The value of the last content-length header, or zero.
    pub content_length: usize,
}

/// Serializes a response start against a given date text.  Defined
/// exactly: it succeeds on status codes 100..=999 with well-formed
/// headers, and the bytes, the keep-alive decision, the chunked flag
/// and the body length are all functions of the inputs.
pub fn render_response_start(status: u16, headers: &Vec<(Vec<u8>, Vec<u8>)>, date: &str) -> (r:
    Result<StartRender, AppSendError>)
    ensures
        r is Ok <==> (100 <= status <= 999 && spec_resp_headers_ok(pairs_view(headers@))),
        r matches Ok(s) ==> {
            &&& s.bytes@ == spec_start_bytes(status, pairs_view(headers@), date@)
            &&& s.keep_alive == spec_resp_keep_alive(pairs_view(headers@))
            &&& s.chunked == spec_resp_chunked(pairs_view(headers@))
            &&& s.content_length == spec_resp_content_length(pairs_view(headers@))
        },
        r matches Err(e) ==> {
            &&& (e is InvalidStatus <==> !(100 <= status <= 999))
            &&& (e is InvalidHeader <==> (100 <= status <= 999 && !spec_resp_headers_ok(
                pairs_view(headers@),
            )))
        },
{
    let ghost hv = pairs_view(headers@);
    if status < 100 || status > 999 {
        return Err(AppSendError::InvalidStatus);
    }
    let mut out: Vec<u8> = Vec::new();
    append_str(&mut out, "HTTP/1.1 ");
    let reason = get_status_from_u16(status);
    proof {
        lemma_str_bytes_empty(reason@);
    }
    if !reason.is_empty() {
        append_str(&mut out, reason);
        append_str(&mut out, "\r\n");
        proof {
            assert(spec_reason(status).len() > 0);
            assert(out@ =~= spec_status_line(status));
        }
    } else {
        let mut digits = dec_digits_u64(status as u64);
        out.append(&mut digits);
        append_str(&mut out, " \r\n");
        proof {
            assert(spec_reason(status).len() == 0);
            assert(out@ =~= spec_status_line(status));
        }
    }
    let ghost status_line = out@;
    let mut keep_alive = true;
    let mut chunked = false;
    let mut content_length: usize = 0;
    let mut i: usize = 0;
    while i < headers.len()
        invariant
            100 <= status <= 999,
            hv == pairs_view(headers@),
            hv.len() == headers@.len(),
            i <= headers@.len(),
            out@ == status_line + spec_header_lines(hv.subrange(0, i as int)),
            keep_alive == spec_resp_keep_alive(hv.subrange(0, i as int)),
            chunked == spec_resp_chunked(hv.subrange(0, i as int)),
            content_length == spec_resp_content_length(hv.subrange(0, i as int)),
            spec_resp_headers_ok(hv.subrange(0, i as int)),
        decreases headers@.len() - i,
    {
        let name: &Vec<u8> = &headers[i].0;
        let value: &Vec<u8> = &headers[i].1;
        proof {
            assert(hv[i as int] == (name@, value@));
        }
        if !valid_header_name(name.as_slice()) {
            proof {
                assert(!spec_resp_headers_ok(hv)) by {
                    assert(0 <= i < hv.len() && !spec_valid_name(hv[i as int].0));
                }
            }
            return Err(AppSendError::InvalidHeader);
        }
        if !valid_header_value(value.as_slice()) {
            proof {
                assert(!spec_resp_headers_ok(hv)) by {
                    assert(0 <= i < hv.len() && !spec_valid_value(hv[i as int].1));
                }
            }
            return Err(AppSendError::InvalidHeader);
        }
        if eq_ignore_case(name.as_slice(), "content-length".as_bytes()) {
            match parse_usize_dec(value.as_slice()) {
                Some(n) => {
                    content_length = n;
                },
                None => {
                    proof {
                        assert(!spec_resp_headers_ok(hv)) by {
                            assert(0 <= i < hv.len() && is_name(
                                hv[i as int].0,
                                str_bytes("content-length"@),
                            ) && !cl_parses(hv[i as int].1));
                        }
                    }
                    return Err(AppSendError::InvalidHeader);
                },
            }
        }
        if eq_ignore_case(name.as_slice(), "transfer-encoding".as_bytes()) && eq_bytes(
            value.as_slice(),
            "chunked".as_bytes(),
        ) {
            chunked = true;
        }
        if eq_ignore_case(name.as_slice(), "connection".as_bytes()) && eq_bytes(
            value.as_slice(),
            "close".as_bytes(),
        ) {
            keep_alive = false;
        }
        let lower_name = to_lower(name.as_slice());
        append_bytes(&mut out, lower_name.as_slice());
        append_str(&mut out, ": ");
        append_bytes(&mut out, value.as_slice());
        append_str(&mut out, "\r\n");
        i = i + 1;
        proof {
            let pre = hv.subrange(0, i as int);
            assert(pre.drop_last() =~= hv.subrange(0, i - 1));
            assert(pre.last() == hv[i - 1]);
            assert(out@ =~= status_line + spec_header_lines(pre));
        }
    }
    proof {
        assert(hv.subrange(0, hv.len() as int) =~= hv);
    }
    append_str(&mut out, "date: ");
    append_str(&mut out, date);
    append_str(&mut out, "\r\n");
    append_str(&mut out, "server: Litmus\r\n");
    append_str(&mut out, "\r\n");
    proof {
        assert(out@ =~= spec_start_bytes(status, hv, date@));
    }
    Ok(StartRender { bytes: out, keep_alive, chunked, content_length })
}

/// The application's handle for submitting the response: remembers
/// what the response start declared so body sends can be policed.
pub struct DataSender {
    /// Whether the response declared chunked encoding; unset until a
    /// start declares it.
    pub chunked_encoding: Option<bool>,
    /// The declared response body length; zero until a start declares
    /// one, and body sends while it is zero are dropped.
    pub expected_content_length: usize,
    /// The keep-alive decision the response start declared; body
    /// messages carry it so the engine can close after the final one.
    pub keep_alive: bool,
}

/// The full `send_start` transition: how the sending handle and the
/// response channel change for a status code and header list, with
/// the date text existentially bound.
pub open spec fn spec_send_start(
    pre: DataSender,
    post: DataSender,
    ch1: ResponseChannelModel,
    ch2: ResponseChannelModel,
    status: u16,
    hv: Seq<(Seq<u8>, Seq<u8>)>,
    r: Result<(), AppSendError>,
) -> bool {
    ({
                
                let ok_inputs = 100 <= status <= 999 && spec_resp_headers_ok(hv);
                &&& ((r matches Err(e) && !(e is WouldBlock)) <==> !ok_inputs)
                &&& (!ok_inputs ==> post == pre && ch2 == ch1
                    && (r matches Err(e) ==> (e is InvalidStatus <==> !(100 <= status <= 999))))
                &&& (ok_inputs && ch1.closed ==> r is Ok && ch2 == ch1 && sender_updated(pre, post, hv))
                &&& (ok_inputs && !ch1.closed && ch1.msgs.len() >= 2 ==> (
                r matches Err(e)
                    && e is WouldBlock) && ch2 == ch1 && post == pre)
                &&& (ok_inputs && !ch1.closed && ch1.msgs.len() < 2 ==> {
                    &&& r is Ok
                    &&& sender_updated(pre, post, hv)
                    &&& ch2.closed == ch1.closed
                    &&& ch2.wakers == ch1.wakers
                    &&& ch2.msgs.len() == ch1.msgs.len() + 1
                    &&& (forall|j: int|
                        0 <= j < ch1.msgs.len() ==> ch2.msgs[j] == ch1.msgs[j])
                    &&& ch2.msgs.last().more_body == true
                    &&& ch2.msgs.last().keep_alive == spec_resp_keep_alive(hv)
                    &&& exists|d: Seq<char>|
                        d.len() == 29 && vstd::utf8::is_ascii_chars(d)
                            && #[trigger] spec_start_bytes(status, hv, d)
                            == ch2.msgs.last().data@
                })
            })
}

/// The full `send_body` transition: a no-op while no body length is
/// declared, otherwise one message enqueued, refused, or absorbed.
pub open spec fn spec_send_body(
    snd: DataSender,
    ch1: ResponseChannelModel,
    ch2: ResponseChannelModel,
    more_body: bool,
    body: Seq<u8>,
    r: Result<(), AppSendError>,
) -> bool {
    &&& (snd.expected_content_length == 0 ==> ch2 == ch1 && r is Ok)
    &&& (snd.expected_content_length > 0 ==> {
                &&& (ch1.closed ==> ch2 == ch1 && r is Ok)
                &&& (!ch1.closed && ch1.msgs.len() >= 2 ==> ch2
                    == ch1 && (r matches Err(e) && e is WouldBlock))
                &&& (!ch1.closed && ch1.msgs.len() < 2 ==> {
                    &&& r is Ok
                    &&& ch2.msgs.len() == ch1.msgs.len() + 1
                    &&& ch2.msgs.drop_last() == ch1.msgs
                    &&& ch2.msgs.last().more_body == more_body
                    &&& ch2.msgs.last().keep_alive == snd.keep_alive
                    &&& ch2.msgs.last().data@ == body
                    &&& ch2.closed == ch1.closed
                    &&& ch2.wakers == ch1.wakers
                })
            })
}

/// How a successful start updates the sending handle: the declared
/// body length is recorded, and the chunked mark is set once declared.
pub open spec fn sender_updated(pre: DataSender, post: DataSender, hv: Seq<(Seq<u8>, Seq<u8>)>) -> bool {
    &&& post.expected_content_length == spec_resp_content_length(hv)
    &&& post.keep_alive == spec_resp_keep_alive(hv)
    &&& post.chunked_encoding == (if spec_resp_chunked(hv) {
        Some(true)
    } else {
        pre.chunked_encoding
    })
}

impl DataSender {
    /// A fresh handle that has declared nothing.
    pub fn new() -> (r: DataSender)
        ensures
            r.chunked_encoding is None,
            r.expected_content_length == 0,
            r.keep_alive == true,
    {
        DataSender { chunked_encoding: None, expected_content_length: 0, keep_alive: true }
    }

    /// Serializes and enqueues the response start as the channel's
    /// first message.  A full channel reports `WouldBlock` and leaves
    /// everything unchanged; a closed channel absorbs the message.
    /// The date header comes from the system clock, so the exact bytes
    /// are stated up to the 29-character date text.
    pub fn send_start(
        &mut self,
        channel: &mut SenderFactory,
        status: u16,
        headers: &Vec<(Vec<u8>, Vec<u8>)>,
    ) -> (r: Result<(), AppSendError>)
        ensures
            spec_send_start(
                *old(self),
                *final(self),
                old(channel)@,
                final(channel)@,
                status,
                pairs_view(headers@),
                r,
            ),
    {
        let date = http_date_now();
        let rendered = match render_response_start(status, headers, date.as_str()) {
            Ok(s) => s,
            Err(e) => {
                return Err(e);
            },
        };
        let chunked = rendered.chunked;
        let content_length = rendered.content_length;
        let declared_keep_alive = rendered.keep_alive;
        let msg = ResponseMessage {
            more_body: true,
            keep_alive: rendered.keep_alive,
            data: rendered.bytes,
        };
        match channel.try_send(msg) {
            SendOutcome::Sent => {
                if chunked {
                    self.chunked_encoding = Some(true);
                }
                self.expected_content_length = content_length;
                self.keep_alive = declared_keep_alive;
                proof {
                    let hv = pairs_view(headers@);
                    assert(spec_start_bytes(status, hv, date@) == channel@.msgs.last().data@);
                }
                Ok(())
            },
            SendOutcome::Closed => {
                if chunked {
                    self.chunked_encoding = Some(true);
                }
                self.expected_content_length = content_length;
                self.keep_alive = declared_keep_alive;
                Ok(())
            },
            SendOutcome::Full => Err(AppSendError::WouldBlock),
        }
    }

    /// Enqueues a body chunk.  A no-op while no body length is
    /// declared; a full channel reports `WouldBlock`; a closed channel
    /// absorbs the chunk.
    pub fn send_body(&self, channel: &mut SenderFactory, more_body: bool, body: Vec<u8>) -> (r:
        Result<(), AppSendError>)
        ensures
            spec_send_body(*self, old(channel)@, final(channel)@, more_body, body@, r),
    {
        if self.expected_content_length == 0 {
            return Ok(());
        }
        match channel.try_send(ResponseMessage { more_body, keep_alive: self.keep_alive, data: body }) {
            SendOutcome::Sent => {
                proof {
                    assert(channel@.msgs.drop_last() =~= old(channel)@.msgs);
                }
                Ok(())
            },
            SendOutcome::Closed => Ok(()),
            SendOutcome::Full => Err(AppSendError::WouldBlock),
        }
    }
}

} // verus!
