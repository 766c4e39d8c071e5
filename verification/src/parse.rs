//! Trusted boundary around the HTTP head parser and the date formatter.
//!
//! The request-head grammar is implemented by the `httparse` crate;
//! what its parser returns for a given buffer is named by
//! [`head_parse_of`] and every contract above speaks of that name.
//! The chunk-size line parser is small enough to restate exactly:
//! [`spec_chunk_parse`] mirrors its automaton byte for byte.

use vstd::prelude::*;

verus! {

/// The most headers a single request may carry.
pub const MAX_HEADERS: usize = 100;

/// A parsed request head as plain values: the method and target texts,
/// the minor version byte (0 or 1), the length of the head on the
/// wire, and the headers in wire order.
pub struct RequestHead {
    pub method: String,
    pub path: String,
    pub version: u8,
    pub head_len: usize,
    pub headers: Vec<(String, Vec<u8>)>,
}

/// Outcome of a head parse attempt.
pub enum HeadOutcome {
    /// The bytes cannot start a valid request head.
    Malformed,
    /// More bytes are needed before the head is complete.
    Partial,
    /// A complete head.
    Complete(RequestHead),
}

/// Marker for a parse attempt that consumed nothing because the head
/// is still incomplete.
pub enum ParserStatus {
    NoEnoughData,
}

/// What the head parser returns for a buffer, as a function of the
/// bytes alone: a status (0 malformed, 1 partial, 2 complete), the
/// head length, the method and target texts, the version, and the
/// headers.  The grammar takes pages to state; the name stands for it.
pub uninterp spec fn head_parse_of(b: Seq<u8>) -> (
    int,
    int,
    Seq<char>,
    Seq<char>,
    int,
    Seq<(Seq<char>, Seq<u8>)>,
);

/// The buffer cannot start a valid request head.
pub open spec fn head_is_malformed(b: Seq<u8>) -> bool {
    head_parse_of(b).0 == 0
}

/// The buffer holds a prefix of a request head; more bytes are needed.
pub open spec fn head_is_partial(b: Seq<u8>) -> bool {
    head_parse_of(b).0 == 1
}

/// The buffer starts with a complete request head.
pub open spec fn head_is_complete(b: Seq<u8>) -> bool {
    head_parse_of(b).0 == 2
}

/// Length of the complete head on the wire.
pub open spec fn head_len_of(b: Seq<u8>) -> int {
    head_parse_of(b).1
}

/// Method text of the complete head.
pub open spec fn head_method_of(b: Seq<u8>) -> Seq<char> {
    head_parse_of(b).2
}

/// Request-target text of the complete head.
pub open spec fn head_path_of(b: Seq<u8>) -> Seq<char> {
    head_parse_of(b).3
}

/// Minor HTTP version of the complete head: 0 or 1.
pub open spec fn head_version_of(b: Seq<u8>) -> int {
    head_parse_of(b).4
}

/// Header names and values of the complete head, in wire order.
pub open spec fn head_headers_of(b: Seq<u8>) -> Seq<(Seq<char>, Seq<u8>)> {
    head_parse_of(b).5
}

/// Relies on `httparse::Request::parse` with a 100-slot header array.
/// The outcome is a function of the buffer bytes alone; on a complete
/// parse the head length never exceeds the buffer, the version is 0 or
/// 1, and at most 100 headers come back, as the parser's source shows.
#[verifier::external_body]
pub fn parse_request_head(buf: &Vec<u8>) -> (r: HeadOutcome)
    ensures
        (r is Malformed) == (head_parse_of(buf@).0 == 0),
        (r is Partial) == (head_parse_of(buf@).0 == 1),
        (r is Complete) == (head_parse_of(buf@).0 == 2),
        r matches HeadOutcome::Complete(h) ==> {
            &&& h.head_len == head_len_of(buf@)
            &&& 0 < h.head_len <= buf@.len()
            &&& h.method@ == head_method_of(buf@)
            &&& h.path@ == head_path_of(buf@)
            &&& h.version as int == head_version_of(buf@)
            &&& (h.version == 0 || h.version == 1)
            &&& h.headers@.len() == head_headers_of(buf@).len()
            &&& h.headers@.len() <= MAX_HEADERS
            &&& forall|i: int|
                0 <= i < h.headers@.len() ==> (#[trigger] h.headers@[i]).0@ == head_headers_of(
                    buf@,
                )[i].0 && h.headers@[i].1@ == head_headers_of(buf@)[i].1
        },
{
    let mut slots = [httparse::EMPTY_HEADER; MAX_HEADERS];
    let mut req = httparse::Request::new(&mut slots);
    match req.parse(buf.as_slice()) {
        Err(_) => HeadOutcome::Malformed,
        Ok(httparse::Status::Partial) => HeadOutcome::Partial,
        Ok(httparse::Status::Complete(n)) => HeadOutcome::Complete(RequestHead {
            method: req.method.unwrap_or("").to_string(),
            path: req.path.unwrap_or("").to_string(),
            version: req.version.unwrap_or(1),
            head_len: n,
            headers: req.headers.iter().map(|h| (h.name.to_string(), h.value.to_vec())).collect(),
        }),
    }
}

/// Outcome of parsing a chunk-size line at the front of a buffer.
pub enum ChunkStatus {
    /// The bytes cannot start a valid chunk-size line.
    Invalid,
    /// More bytes are needed.
    Partial,
    /// A complete size line: the index just past its final line break,
    /// and the chunk size.
    Complete(usize, u64),
}

/// A hexadecimal digit byte.
pub open spec fn is_hex_digit(b: u8) -> bool {
    (48 <= b <= 57) || (97 <= b <= 102) || (65 <= b <= 70)
}

/// Value of a hexadecimal digit byte.
pub open spec fn hex_val(b: u8) -> nat {
    if 48 <= b <= 57 {
        (b - 48) as nat
    } else if 97 <= b <= 102 {
        (b - 87) as nat
    } else if 65 <= b <= 70 {
        (b - 55) as nat
    } else {
        0
    }
}

/// The chunk-size automaton, one byte per step: hex digits accumulate
/// the size while `in_chunk_size` holds (at most 16 of them); a `;`
/// opens the extension, where any byte is ignored; linear white space
/// ends the digits; `\r\n` completes the line.
pub open spec fn spec_chunk_parse_at(
    b: Seq<u8>,
    i: int,
    size: nat,
    count: nat,
    in_chunk_size: bool,
    in_ext: bool,
) -> ChunkStatus
    decreases b.len() - i,
{
    if i < 0 || i >= b.len() {
        ChunkStatus::Partial
    } else {
        let c = b[i];
        if in_chunk_size && is_hex_digit(c) {
            if count > 15 {
                ChunkStatus::Invalid
            } else {
                spec_chunk_parse_at(b, i + 1, size * 16 + hex_val(c), count + 1, true, in_ext)
            }
        } else if c == 13 {
            if i + 1 >= b.len() {
                ChunkStatus::Partial
            } else if b[i + 1] == 10 {
                ChunkStatus::Complete((i + 2) as usize, size as u64)
            } else {
                ChunkStatus::Invalid
            }
        } else if c == 59 && !in_ext {
            spec_chunk_parse_at(b, i + 1, size, count, false, true)
        } else if (c == 9 || c == 32) && !in_ext && !in_chunk_size {
            spec_chunk_parse_at(b, i + 1, size, count, in_chunk_size, in_ext)
        } else if (c == 9 || c == 32) && in_chunk_size {
            spec_chunk_parse_at(b, i + 1, size, count, false, in_ext)
        } else if in_ext {
            spec_chunk_parse_at(b, i + 1, size, count, in_chunk_size, in_ext)
        } else {
            ChunkStatus::Invalid
        }
    }
}

/// What parsing a chunk-size line at the front of `b` yields.
pub open spec fn spec_chunk_parse(b: Seq<u8>) -> ChunkStatus {
    spec_chunk_parse_at(b, 0, 0, 0, true, false)
}

/// Relies on `httparse::parse_chunk_size`, whose automaton
/// [`spec_chunk_parse`] restates exactly; the index it returns never
/// exceeds the buffer length, as its source shows.
#[verifier::external_body]
pub fn parse_chunk_head(buf: &Vec<u8>) -> (r: ChunkStatus)
    ensures
        r == spec_chunk_parse(buf@),
        r matches ChunkStatus::Complete(pos, size) ==> pos <= buf@.len(),
{
    match httparse::parse_chunk_size(buf.as_slice()) {
        Err(_) => ChunkStatus::Invalid,
        Ok(httparse::Status::Partial) => ChunkStatus::Partial,
        Ok(httparse::Status::Complete((pos, size))) => ChunkStatus::Complete(pos, size),
    }
}

/// Relies on `httpdate::fmt_http_date`: an IMF-fixdate is always 29
/// ASCII characters.  The formatter gives up outside 1970..=9999, so
/// the clock reading is clamped into that range before the call; the
/// stated length then holds of every environment.
#[verifier::external_body]
pub fn http_date_now() -> (r: String)
    ensures
        r@.len() == 29,
        vstd::utf8::is_ascii_chars(r@),
{
    let now = std::time::SystemTime::now();
    let secs = now.duration_since(std::time::UNIX_EPOCH).map(|d| d.as_secs()).unwrap_or(0);
    let secs = if secs >= 253402300800 { 253402300799 } else { secs };
    httpdate::fmt_http_date(std::time::UNIX_EPOCH + std::time::Duration::from_secs(secs))
}

} // verus!
