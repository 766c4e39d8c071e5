//! Byte-level helpers: case folding, decimal parsing and rendering,
//! substring search, buffer prefix removal, and the status table.

use litmus::bytes_util::{
    contains_seq, dec_digits_u64, drop_front, eq_bytes, eq_ignore_case, parse_usize_dec,
    take_front, to_lower,
};
use litmus::status::get_status_from_u16;

#[test]
fn status_table_known_codes() {
    assert_eq!(get_status_from_u16(200), "200 OK");
    assert_eq!(get_status_from_u16(404), "404 Not Found");
    assert_eq!(get_status_from_u16(418), "418 I'm a teapot");
    assert_eq!(get_status_from_u16(511), "511 Network Authentication Required");
}

#[test]
fn status_table_unknown_codes_are_empty() {
    assert_eq!(get_status_from_u16(299), "");
    assert_eq!(get_status_from_u16(600), "");
    assert_eq!(get_status_from_u16(0), "");
}

#[test]
fn lower_casing_folds_ascii_only() {
    assert_eq!(to_lower(b"Transfer-Encoding"), b"transfer-encoding".to_vec());
    assert_eq!(to_lower(b"chunked"), b"chunked".to_vec());
    assert_eq!(to_lower(b"A\xC3\x89z"), b"a\xC3\x89z".to_vec());
}

#[test]
fn case_insensitive_name_match() {
    assert!(eq_ignore_case(b"Content-Length", b"content-length"));
    assert!(eq_ignore_case(b"TRANSFER-ENCODING", b"transfer-encoding"));
    assert!(!eq_ignore_case(b"content-length", b"content-type"));
    assert!(!eq_ignore_case(b"content-length", b"content-length-x"));
}

#[test]
fn byte_equality_is_exact() {
    assert!(eq_bytes(b"close", b"close"));
    assert!(!eq_bytes(b"Close", b"close"));
    assert!(!eq_bytes(b"close", b"clos"));
}

#[test]
fn substring_search() {
    assert!(contains_seq(b"gzip, chunked", b"chunked"));
    assert!(contains_seq(b"chunked", b"chunked"));
    assert!(!contains_seq(b"chunk", b"chunked"));
    assert!(contains_seq(b"anything", b""));
}

#[test]
fn decimal_parsing_is_exact() {
    assert_eq!(parse_usize_dec(b"0"), Some(0));
    assert_eq!(parse_usize_dec(b"10"), Some(10));
    assert_eq!(parse_usize_dec(b"65536"), Some(65536));
    assert_eq!(parse_usize_dec(b""), None);
    assert_eq!(parse_usize_dec(b"+5"), None);
    assert_eq!(parse_usize_dec(b"12a"), None);
    assert_eq!(parse_usize_dec(b"99999999999999999999999999"), None);
}

#[test]
fn decimal_rendering() {
    assert_eq!(dec_digits_u64(0), b"0".to_vec());
    assert_eq!(dec_digits_u64(7), b"7".to_vec());
    assert_eq!(dec_digits_u64(65536), b"65536".to_vec());
    assert_eq!(dec_digits_u64(999), b"999".to_vec());
}

#[test]
fn buffer_prefix_removal() {
    let mut buf = b"abcdef".to_vec();
    let front = take_front(&mut buf, 2);
    assert_eq!(front, b"ab".to_vec());
    assert_eq!(buf, b"cdef".to_vec());
    drop_front(&mut buf, 3);
    assert_eq!(buf, b"f".to_vec());
}
