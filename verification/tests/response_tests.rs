//! Response-start serialization and the application's sending handle.

use litmus::channel::{SenderFactory, ResponseMessage, SendOutcome};
use litmus::response::{render_response_start, DataSender, AppSendError};

fn hdr(name: &[u8], value: &[u8]) -> (Vec<u8>, Vec<u8>) {
    (name.to_vec(), value.to_vec())
}

const DATE: &str = "Sun, 06 Nov 1994 08:49:37 GMT";

#[test]
fn render_plain_ok_response() {
    let headers = vec![hdr(b"content-length", b"5")];
    let s = render_response_start(200, &headers, DATE).unwrap();
    let expected = format!(
        "HTTP/1.1 200 OK\r\ncontent-length: 5\r\ndate: {}\r\nserver: Litmus\r\n\r\n",
        DATE
    );
    assert_eq!(s.bytes, expected.as_bytes().to_vec());
    assert!(s.keep_alive);
    assert!(!s.chunked);
    assert_eq!(s.content_length, 5);
}

#[test]
fn render_lowercases_header_names() {
    let headers = vec![hdr(b"Content-Length", b"2")];
    let s = render_response_start(200, &headers, DATE).unwrap();
    let text = String::from_utf8(s.bytes).unwrap();
    assert!(text.contains("content-length: 2\r\n"));
    assert_eq!(s.content_length, 2);
}

#[test]
fn render_unknown_code_keeps_bare_code() {
    let headers: Vec<(Vec<u8>, Vec<u8>)> = vec![];
    let s = render_response_start(299, &headers, DATE).unwrap();
    let text = String::from_utf8(s.bytes).unwrap();
    assert!(text.starts_with("HTTP/1.1 299 \r\n"));
}

#[test]
fn render_connection_close_drops_keep_alive() {
    let headers = vec![hdr(b"connection", b"close"), hdr(b"content-length", b"2")];
    let s = render_response_start(200, &headers, DATE).unwrap();
    assert!(!s.keep_alive);
    assert_eq!(s.content_length, 2);
}

#[test]
fn render_connection_close_is_byte_exact() {
    let headers = vec![hdr(b"connection", b"Close")];
    let s = render_response_start(200, &headers, DATE).unwrap();
    assert!(s.keep_alive);
}

#[test]
fn render_chunked_is_byte_exact() {
    let s = render_response_start(200, &vec![hdr(b"transfer-encoding", b"chunked")], DATE)
        .unwrap();
    assert!(s.chunked);
    let s2 = render_response_start(200, &vec![hdr(b"transfer-encoding", b"Chunked")], DATE)
        .unwrap();
    assert!(!s2.chunked);
}

#[test]
fn render_last_content_length_wins() {
    let headers = vec![hdr(b"content-length", b"5"), hdr(b"content-length", b"9")];
    let s = render_response_start(200, &headers, DATE).unwrap();
    assert_eq!(s.content_length, 9);
}

#[test]
fn render_rejects_bad_status() {
    let r = render_response_start(99, &vec![], DATE);
    assert!(matches!(r, Err(AppSendError::InvalidStatus)));
    let r = render_response_start(1000, &vec![], DATE);
    assert!(matches!(r, Err(AppSendError::InvalidStatus)));
}

#[test]
fn render_rejects_bad_header_name() {
    let r = render_response_start(200, &vec![hdr(b"bad name", b"x")], DATE);
    assert!(matches!(r, Err(AppSendError::InvalidHeader)));
    let r = render_response_start(200, &vec![hdr(b"", b"x")], DATE);
    assert!(matches!(r, Err(AppSendError::InvalidHeader)));
}

#[test]
fn render_rejects_bad_header_value() {
    let r = render_response_start(200, &vec![hdr(b"x-a", b"bad\r\nvalue")], DATE);
    assert!(matches!(r, Err(AppSendError::InvalidHeader)));
}

#[test]
fn render_rejects_unparseable_content_length() {
    let r = render_response_start(200, &vec![hdr(b"content-length", b"five")], DATE);
    assert!(matches!(r, Err(AppSendError::InvalidHeader)));
}

#[test]
fn send_start_enqueues_first_message() {
    let mut channel = SenderFactory::new();
    let mut sender = DataSender::new();
    let headers = vec![hdr(b"content-length", b"5")];
    sender.send_start(&mut channel, 200, &headers).unwrap();
    assert_eq!(sender.expected_content_length, 5);
    let (msg, wakers) = channel.recv();
    let msg = msg.unwrap();
    assert!(wakers.is_empty());
    assert!(msg.more_body);
    assert!(msg.keep_alive);
    let text = String::from_utf8(msg.data).unwrap();
    assert!(text.starts_with("HTTP/1.1 200 OK\r\ncontent-length: 5\r\ndate: "));
    assert!(text.ends_with("\r\nserver: Litmus\r\n\r\n"));
    // the synthesized date is always 29 characters
    let expected_len = "HTTP/1.1 200 OK\r\ncontent-length: 5\r\ndate: \r\nserver: Litmus\r\n\r\n"
        .len() + 29;
    assert_eq!(text.len(), expected_len);
}

#[test]
fn send_start_would_block_then_retry_sends_once() {
    let mut channel = SenderFactory::new();
    let mut sender = DataSender::new();
    // fill the channel to capacity
    for _ in 0..2 {
        let out = channel.try_send(ResponseMessage {
            more_body: true,
            keep_alive: true,
            data: vec![1],
        });
        assert!(matches!(out, SendOutcome::Sent));
    }
    let headers = vec![hdr(b"content-length", b"2")];
    let r = sender.send_start(&mut channel, 200, &headers);
    assert!(matches!(r, Err(AppSendError::WouldBlock)));
    // nothing was enqueued by the refused attempt
    let (m1, _) = channel.recv();
    assert_eq!(m1.unwrap().data, vec![1]);
    let (m2, _) = channel.recv();
    assert_eq!(m2.unwrap().data, vec![1]);
    let (m3, _) = channel.recv();
    assert!(m3.is_none());
    // the retry enqueues exactly one status line
    sender.send_start(&mut channel, 200, &headers).unwrap();
    let (m4, _) = channel.recv();
    let text = String::from_utf8(m4.unwrap().data).unwrap();
    assert!(text.starts_with("HTTP/1.1 200 OK\r\n"));
    let (m5, _) = channel.recv();
    assert!(m5.is_none());
}

#[test]
fn send_body_is_noop_without_declared_length() {
    let mut channel = SenderFactory::new();
    let sender = DataSender::new();
    sender.send_body(&mut channel, false, b"hello".to_vec()).unwrap();
    let (m, _) = channel.recv();
    assert!(m.is_none());
}

#[test]
fn send_body_after_declared_length() {
    let mut channel = SenderFactory::new();
    let mut sender = DataSender::new();
    let headers = vec![hdr(b"content-length", b"5")];
    sender.send_start(&mut channel, 200, &headers).unwrap();
    sender.send_body(&mut channel, false, b"hello".to_vec()).unwrap();
    let (_start, _) = channel.recv();
    let (body, _) = channel.recv();
    let body = body.unwrap();
    assert!(!body.more_body);
    assert_eq!(body.data, b"hello".to_vec());
}

#[test]
fn send_on_closed_channel_is_absorbed() {
    let mut channel = SenderFactory::new();
    let mut sender = DataSender::new();
    channel.close();
    let headers = vec![hdr(b"content-length", b"5")];
    sender.send_start(&mut channel, 200, &headers).unwrap();
    sender.send_body(&mut channel, false, b"hello".to_vec()).unwrap();
    let (m, _) = channel.recv();
    assert!(m.is_none());
}

#[test]
fn drain_wakes_registered_wakers() {
    let mut channel = SenderFactory::new();
    channel.subscribe(7);
    channel.subscribe(9);
    channel
        .try_send(ResponseMessage { more_body: false, keep_alive: true, data: vec![2] });
    let (m, wakers) = channel.recv();
    assert!(m.is_some());
    assert_eq!(wakers, vec![7, 9]);
}
