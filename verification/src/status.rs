//! Canonical status-reason table for the response status line.
//!
//! Each known code maps to the text that follows `HTTP/1.1 ` on the
//! status line: the decimal code, one space, and the canonical reason
//! phrase.  Unknown codes map to the empty string and the serializer
//! falls back to rendering the bare code.

use vstd::prelude::*;

verus! {

/// The status-line text for a status code: `"200 OK"`, `"404 Not Found"`,
/// and so on; the empty sequence for a code outside the table.
pub open spec fn spec_reason(status: u16) -> Seq<char> {
    match status {
        100u16 => "100 Continue"@,
        101u16 => "101 Switching Protocol"@,
        102u16 => "102 Processing"@,
        103u16 => "103 Early Hints"@,
        200u16 => "200 OK"@,
        201u16 => "201 Created"@,
        202u16 => "202 Accepted"@,
        203u16 => "203 Non-Authoritative Information"@,
        204u16 => "204 No Content"@,
        205u16 => "205 Reset Content"@,
        206u16 => "206 Partial Content"@,
        207u16 => "207 Multi-Status"@,
        208u16 => "208 Already Reported"@,
        226u16 => "226 IM Used"@,
        300u16 => "300 Multiple Choice"@,
        301u16 => "301 Moved Permanently"@,
        302u16 => "302 Found"@,
        303u16 => "303 See Other"@,
        307u16 => "307 Temporary Redirect"@,
        308u16 => "308 Permanent Redirect"@,
        400u16 => "400 Bad Request"@,
        401u16 => "401 Unauthorized"@,
        402u16 => "402 Payment Required"@,
        403u16 => "403 Forbidden"@,
        404u16 => "404 Not Found"@,
        405u16 => "405 Method Not Allowed"@,
        406u16 => "406 Not Acceptable"@,
        407u16 => "407 Proxy Authentication Required"@,
        408u16 => "408 Request Timeout"@,
        409u16 => "409 Conflict"@,
        410u16 => "410 Gone"@,
        411u16 => "411 Length Required"@,
        412u16 => "412 Precondition Failed"@,
        413u16 => "413 Payload Too Large"@,
        414u16 => "414 URI Too Long"@,
        415u16 => "415 Unsupported Media Type"@,
        416u16 => "416 Range Not Satisfiable"@,
        417u16 => "417 Expectation Failed"@,
        418u16 => "418 I'm a teapot"@,
        421u16 => "421 Misdirected Request"@,
        422u16 => "422 Unprocessable Entity"@,
        423u16 => "423 Locked"@,
        424u16 => "424 Failed Dependency"@,
        425u16 => "425 Too Early"@,
        426u16 => "426 Upgrade Required"@,
        428u16 => "428 Precondition Required"@,
        429u16 => "429 Too Many Requests"@,
        431u16 => "431 Request Header Fields Too Large"@,
        451u16 => "451 Unavailable For Legal Reasons"@,
        500u16 => "500 Internal Server Error"@,
        501u16 => "501 Not Implemented"@,
        502u16 => "502 Bad Gateway"@,
        503u16 => "503 Service Unavailable"@,
        504u16 => "504 Gateway Timeout"@,
        505u16 => "505 HTTP Version Not Supported"@,
        506u16 => "506 Variant Also Negotiates"@,
        507u16 => "507 Insufficient Storage"@,
        508u16 => "508 Loop Detected"@,
        510u16 => "510 Not Extended"@,
        511u16 => "511 Network Authentication Required"@,
        _ => ""@,
    }
}

/// Looks up the status-line text for a status code; unknown codes give `""`.
pub fn get_status_from_u16(status: u16) -> (r: &'static str)
    ensures
        r@ == spec_reason(status),
{
    match status {
        100u16 => "100 Continue",
        101u16 => "101 Switching Protocol",
        102u16 => "102 Processing",
        103u16 => "103 Early Hints",
        200u16 => "200 OK",
        201u16 => "201 Created",
        202u16 => "202 Accepted",
        203u16 => "203 Non-Authoritative Information",
        204u16 => "204 No Content",
        205u16 => "205 Reset Content",
        206u16 => "206 Partial Content",
        207u16 => "207 Multi-Status",
        208u16 => "208 Already Reported",
        226u16 => "226 IM Used",
        300u16 => "300 Multiple Choice",
        301u16 => "301 Moved Permanently",
        302u16 => "302 Found",
        303u16 => "303 See Other",
        307u16 => "307 Temporary Redirect",
        308u16 => "308 Permanent Redirect",
        400u16 => "400 Bad Request",
        401u16 => "401 Unauthorized",
        402u16 => "402 Payment Required",
        403u16 => "403 Forbidden",
        404u16 => "404 Not Found",
        405u16 => "405 Method Not Allowed",
        406u16 => "406 Not Acceptable",
        407u16 => "407 Proxy Authentication Required",
        408u16 => "408 Request Timeout",
        409u16 => "409 Conflict",
        410u16 => "410 Gone",
        411u16 => "411 Length Required",
        412u16 => "412 Precondition Failed",
        413u16 => "413 Payload Too Large",
        414u16 => "414 URI Too Long",
        415u16 => "415 Unsupported Media Type",
        416u16 => "416 Range Not Satisfiable",
        417u16 => "417 Expectation Failed",
        418u16 => "418 I'm a teapot",
        421u16 => "421 Misdirected Request",
        422u16 => "422 Unprocessable Entity",
        423u16 => "423 Locked",
        424u16 => "424 Failed Dependency",
        425u16 => "425 Too Early",
        426u16 => "426 Upgrade Required",
        428u16 => "428 Precondition Required",
        429u16 => "429 Too Many Requests",
        431u16 => "431 Request Header Fields Too Large",
        451u16 => "451 Unavailable For Legal Reasons",
        500u16 => "500 Internal Server Error",
        501u16 => "501 Not Implemented",
        502u16 => "502 Bad Gateway",
        503u16 => "503 Service Unavailable",
        504u16 => "504 Gateway Timeout",
        505u16 => "505 HTTP Version Not Supported",
        506u16 => "506 Variant Also Negotiates",
        507u16 => "507 Insufficient Storage",
        508u16 => "508 Loop Detected",
        510u16 => "510 Not Extended",
        511u16 => "511 Network Authentication Required",
        _ => "",
    }
}

} // verus!
