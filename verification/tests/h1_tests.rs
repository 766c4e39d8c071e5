//! Protocol-level scenarios: head parsing, body framing, the scope,
//! and the response path.

use litmus::bridge::PreSetEventLoop;
use litmus::channel::RecvStatus;
use litmus::command::Command;
use litmus::h1::{split_path, H1Fault, H1Protocol, MIN_FLUSH};
use litmus::net::Addr;
use litmus::transport::Transport;

fn proto() -> H1Protocol {
    let mut p = H1Protocol::new();
    let bridge = PreSetEventLoop::new(5, 0);
    let t = Transport::new(
        Addr::new(String::from("10.0.0.2"), 40000),
        Addr::new(String::from("10.0.0.1"), 8080),
        false,
        bridge,
    );
    p.new_connection(t);
    p
}

fn commands(p: &mut H1Protocol) -> Vec<Command> {
    match &mut p.transport {
        Some(t) => t.bridge.take_commands(),
        None => Vec::new(),
    }
}

#[test]
fn split_path_at_first_question_mark() {
    let (p, q) = split_path("/hello?x=1");
    assert_eq!(p, "/hello");
    assert_eq!(q, "x=1");
    let (p, q) = split_path("/plain");
    assert_eq!(p, "/plain");
    assert_eq!(q, "");
    let (p, q) = split_path("/a?b?c");
    assert_eq!(p, "/a");
    assert_eq!(q, "b?c");
    let (p, q) = split_path("?q");
    assert_eq!(p, "");
    assert_eq!(q, "q");
}

#[test]
fn split_path_skips_absolute_form_prefix() {
    let (p, q) = split_path("http://h/p?q");
    assert_eq!(p, "/p");
    assert_eq!(q, "q");
    let (p, q) = split_path("https://h:8080/a/b");
    assert_eq!(p, "/a/b");
    assert_eq!(q, "");
    let (p, q) = split_path("http://h");
    assert_eq!(p, "");
    assert_eq!(q, "");
    let (p, q) = split_path("http://h?q");
    assert_eq!(p, "");
    assert_eq!(q, "q");
    // a colon without the full marker is no scheme
    let (p, q) = split_path("/a:b?c");
    assert_eq!(p, "/a:b");
    assert_eq!(q, "c");
}

#[test]
fn absolute_form_target_yields_origin_path() {
    let mut p = proto();
    let mut buf = b"GET http://h/p?q HTTP/1.1\r\nHost: h\r\n\r\n".to_vec();
    p.data_received(&mut buf).unwrap();
    let cmds = commands(&mut p);
    let mut seen = false;
    for c in &cmds {
        if let Command::InvokeApp(_, scope) = c {
            seen = true;
            assert_eq!(scope.path.as_str(), "/p");
            assert_eq!(scope.raw_query.as_str(), "q");
        }
    }
    assert!(seen);
}

#[test]
fn plain_get_keep_alive() {
    // a GET without a body yields the scope and one empty final message
    let mut p = proto();
    let mut buf = b"GET /hello?x=1 HTTP/1.1\r\nHost: h\r\n\r\n".to_vec();
    p.data_received(&mut buf).unwrap();
    assert!(buf.is_empty());
    assert!(p.keep_alive);
    let cmds = commands(&mut p);
    let mut saw_scope = false;
    for c in &cmds {
        if let Command::InvokeApp(ix, scope) = c {
            saw_scope = true;
            assert_eq!(*ix, 0);
            assert_eq!(scope.scope_tag, "http");
            assert_eq!(scope.http_version, "1.1");
            assert_eq!(scope.method.as_str(), "GET");
            assert_eq!(scope.scheme, "http");
            assert_eq!(scope.path.as_str(), "/hello");
            assert_eq!(scope.raw_query.as_str(), "x=1");
            assert_eq!(scope.root_path, "");
            assert_eq!(scope.headers.len(), 1);
            assert_eq!(scope.headers[0].0.as_str(), "Host");
            assert_eq!(scope.headers[0].1, b"h".to_vec());
            assert_eq!(scope.server.host.as_str(), "10.0.0.1");
            assert_eq!(scope.server.port, 8080);
            assert_eq!(scope.client.host.as_str(), "10.0.0.2");
            assert_eq!(scope.client.port, 40000);
        }
    }
    assert!(saw_scope);
    // exactly one (more_body=false, empty) message
    match p.receiver.try_recv() {
        RecvStatus::Received(m) => {
            assert!(!m.more_body);
            assert!(m.data.is_empty());
        },
        _ => panic!("expected the empty final message"),
    }
    assert!(matches!(p.receiver.try_recv(), RecvStatus::Empty));
}

#[test]
fn plain_get_response_wire() {
    let mut p = proto();
    let mut buf = b"GET /hello?x=1 HTTP/1.1\r\nHost: h\r\n\r\n".to_vec();
    p.data_received(&mut buf).unwrap();
    let _ = commands(&mut p);
    let headers = vec![(b"content-length".to_vec(), b"5".to_vec())];
    p.app_sender.send_start(&mut p.sender, 200, &headers).unwrap();
    p.app_sender.send_body(&mut p.sender, false, b"hello".to_vec()).unwrap();
    let mut out: Vec<u8> = Vec::new();
    p.fill_write_buffer(&mut out);
    let text = String::from_utf8(out).unwrap();
    assert!(text.starts_with("HTTP/1.1 200 OK\r\ncontent-length: 5\r\ndate: "));
    assert!(text.ends_with("\r\nserver: Litmus\r\n\r\nhello"));
    // keep-alive: the engine must not schedule a close
    let cmds = commands(&mut p);
    assert!(!cmds.iter().any(|c| matches!(c, Command::CloseSocket(_))));
    assert!(p.keep_alive);
}

#[test]
fn post_fixed_length_single_read() {
    let mut p = proto();
    let mut buf = b"POST /p HTTP/1.1\r\ncontent-length: 10\r\n\r\n0123456789".to_vec();
    p.data_received(&mut buf).unwrap();
    assert!(buf.is_empty());
    let cmds = commands(&mut p);
    let mut method = String::new();
    for c in &cmds {
        if let Command::InvokeApp(_, scope) = c {
            method = scope.method.clone();
        }
    }
    assert_eq!(method, "POST");
    match p.receiver.try_recv() {
        RecvStatus::Received(m) => {
            assert!(!m.more_body);
            assert_eq!(m.data, b"0123456789".to_vec());
        },
        _ => panic!("expected the body message"),
    }
    assert!(matches!(p.receiver.try_recv(), RecvStatus::Empty));
    // the length was consumed exactly: a new request parses again
    assert_eq!(p.expected_content_length, 0);
}

#[test]
fn post_chunked_across_three_reads() {
    let mut p = proto();
    let mut buf = b"POST /c HTTP/1.1\r\ntransfer-encoding: chunked\r\n\r\n5\r\nhello".to_vec();
    p.data_received(&mut buf).unwrap();
    assert!(p.chunked_encoding);
    assert!(matches!(p.receiver.try_recv(), RecvStatus::Empty));
    let mut buf2 = buf;
    buf2.extend_from_slice(b"\r\n5\r\nworld\r\n");
    p.data_received(&mut buf2).unwrap();
    assert!(matches!(p.receiver.try_recv(), RecvStatus::Empty));
    let mut buf3 = buf2;
    buf3.extend_from_slice(b"0\r\n\r\n");
    p.data_received(&mut buf3).unwrap();
    assert!(buf3.is_empty());
    match p.receiver.try_recv() {
        RecvStatus::Received(m) => {
            assert!(!m.more_body);
            assert_eq!(m.data, b"helloworld".to_vec());
        },
        _ => panic!("expected the reassembled body"),
    }
    assert!(!p.chunked_encoding);
}

#[test]
fn http_10_request_defaults_to_close() {
    let mut p = proto();
    let mut buf = b"GET / HTTP/1.0\r\n\r\n".to_vec();
    p.data_received(&mut buf).unwrap();
    assert!(!p.keep_alive);
    let cmds = commands(&mut p);
    let mut version = String::new();
    for c in &cmds {
        if let Command::InvokeApp(_, scope) = c {
            version = scope.http_version.to_string();
        }
    }
    assert_eq!(version, "1.0");
}

#[test]
fn connection_close_response_schedules_close() {
    let mut p = proto();
    let mut buf = b"GET / HTTP/1.1\r\n\r\n".to_vec();
    p.data_received(&mut buf).unwrap();
    let _ = commands(&mut p);
    let headers = vec![
        (b"connection".to_vec(), b"close".to_vec()),
        (b"content-length".to_vec(), b"2".to_vec()),
    ];
    p.app_sender.send_start(&mut p.sender, 200, &headers).unwrap();
    p.app_sender.send_body(&mut p.sender, false, b"ok".to_vec()).unwrap();
    let mut out: Vec<u8> = Vec::new();
    p.fill_write_buffer(&mut out);
    assert!(String::from_utf8(out).unwrap().ends_with("\r\n\r\nok"));
    assert!(!p.keep_alive);
    let cmds = commands(&mut p);
    assert!(cmds.iter().any(|c| matches!(c, Command::CloseSocket(0))));
}

#[test]
fn bodiless_head_with_zero_content_length() {
    let mut p = proto();
    let mut buf = b"GET / HTTP/1.1\r\ncontent-length: 0\r\n\r\n".to_vec();
    p.data_received(&mut buf).unwrap();
    match p.receiver.try_recv() {
        RecvStatus::Received(m) => {
            assert!(!m.more_body);
            assert!(m.data.is_empty());
        },
        _ => panic!("expected exactly one empty final message"),
    }
    assert!(matches!(p.receiver.try_recv(), RecvStatus::Empty));
}

#[test]
fn partial_head_waits() {
    let mut p = proto();
    let mut buf = b"GET / HT".to_vec();
    p.data_received(&mut buf).unwrap();
    assert_eq!(buf, b"GET / HT".to_vec());
    assert!(matches!(p.receiver.try_recv(), RecvStatus::Empty));
    let cmds = commands(&mut p);
    assert!(!cmds.iter().any(|c| matches!(c, Command::InvokeApp(_, _))));
}

#[test]
fn malformed_head_is_fatal() {
    let mut p = proto();
    let mut buf = b"\x01garbage\r\n\r\n".to_vec();
    let r = p.data_received(&mut buf);
    assert!(matches!(r, Err(H1Fault::BadRequest)));
}

#[test]
fn malformed_chunk_is_fatal() {
    let mut p = proto();
    let mut buf = b"POST /c HTTP/1.1\r\ntransfer-encoding: chunked\r\n\r\nzz!\r\n".to_vec();
    let r = p.data_received(&mut buf);
    assert!(matches!(r, Err(H1Fault::BadChunk)));
}

#[test]
fn last_content_length_wins() {
    let mut p = proto();
    let mut buf =
        b"POST /p HTTP/1.1\r\ncontent-length: 3\r\ncontent-length: 4\r\n\r\nabcd".to_vec();
    p.data_received(&mut buf).unwrap();
    match p.receiver.try_recv() {
        RecvStatus::Received(m) => assert_eq!(m.data, b"abcd".to_vec()),
        _ => panic!("expected the body message"),
    }
}

#[test]
fn unparseable_content_length_is_zero() {
    let mut p = proto();
    let mut buf = b"POST /p HTTP/1.1\r\ncontent-length: ten\r\n\r\n".to_vec();
    p.data_received(&mut buf).unwrap();
    assert_eq!(p.expected_content_length, 0);
    match p.receiver.try_recv() {
        RecvStatus::Received(m) => assert!(m.data.is_empty()),
        _ => panic!("expected the empty final message"),
    }
}

#[test]
fn transfer_encoding_value_is_case_folded() {
    let mut p = proto();
    let mut buf = b"POST /c HTTP/1.1\r\nTransfer-Encoding: gzip, CHUNKED\r\n\r\n".to_vec();
    p.data_received(&mut buf).unwrap();
    assert!(p.chunked_encoding);
}

#[test]
fn large_fixed_body_flushes_intermediate_chunk() {
    let mut p = proto();
    let total = MIN_FLUSH + 10000;
    let mut head = format!("POST /big HTTP/1.1\r\ncontent-length: {}\r\n\r\n", total)
        .into_bytes();
    head.extend_from_slice(&vec![b'a'; MIN_FLUSH + 5000]);
    p.data_received(&mut head).unwrap();
    match p.receiver.try_recv() {
        RecvStatus::Received(m) => {
            assert!(m.more_body);
            assert_eq!(m.data.len(), MIN_FLUSH + 5000);
        },
        _ => panic!("expected an intermediate body message"),
    }
    assert_eq!(p.expected_content_length, 5000);
    let mut rest = vec![b'b'; 5000];
    p.data_received(&mut rest).unwrap();
    match p.receiver.try_recv() {
        RecvStatus::Received(m) => {
            assert!(!m.more_body);
            assert_eq!(m.data, vec![b'b'; 5000]);
        },
        _ => panic!("expected the final body message"),
    }
    assert_eq!(p.expected_content_length, 0);
}

#[test]
fn request_channel_hand_off_to_single_waker() {
    let mut p = proto();
    let mut buf = b"POST /p HTTP/1.1\r\ncontent-length: 2\r\n\r\n".to_vec();
    p.data_received(&mut buf).unwrap();
    let _ = commands(&mut p);
    p.receiver.subscribe(42);
    let mut body = b"ab".to_vec();
    p.data_received(&mut body).unwrap();
    // the chunk bypassed the queue and went to the waker
    assert!(matches!(p.receiver.try_recv(), RecvStatus::Empty));
    let cmds = commands(&mut p);
    let mut handed = false;
    for c in &cmds {
        if let Command::HandoffBody(w, more, data) = c {
            handed = true;
            assert_eq!(*w, 42);
            assert!(!more);
            assert_eq!(data, &b"ab".to_vec());
        }
    }
    assert!(handed);
}

#[test]
fn lost_connection_closes_channels() {
    let mut p = proto();
    p.lost_connection();
    assert!(matches!(p.receiver.try_recv(), RecvStatus::Closed));
    let r = p.app_sender.send_body(&mut p.sender, false, b"x".to_vec());
    assert!(r.is_ok());
    let (m, _) = p.sender.recv();
    assert!(m.is_none());
}

#[test]
fn unbound_protocol_reports_transport_unset() {
    let mut p = H1Protocol::new();
    let mut buf = b"GET / HTTP/1.1\r\n\r\n".to_vec();
    let r = p.data_received(&mut buf);
    assert!(matches!(r, Err(H1Fault::TransportUnset)));
}
