//! End-to-end scenarios through the server verbs, as the host loop
//! would drive them.

use litmus::channel::RecvStatus;
use litmus::command::Command;
use litmus::manager::{AppCallError, EngineError};
use litmus::net::{Addr, ConnectionHandle, SocketStatus};
use litmus::server::{ListenerInfo, Server};
use litmus::settings::{Schema, ServerSettings};

fn server() -> Server {
    let settings = ServerSettings::new(64, 5000);
    let listeners = vec![ListenerInfo { fd: 3, addr: Addr::new(String::from("0.0.0.0"), 8080) }];
    let mut s = Server::new(settings, listeners);
    s.init();
    s
}

fn conn(fd: i32) -> ConnectionHandle {
    ConnectionHandle {
        addr: Addr::new(String::from("10.0.0.2"), 40000),
        server: Addr::new(String::from("10.0.0.1"), 8080),
        tls: false,
        fd,
    }
}

#[test]
fn ignite_lists_listeners() {
    let s = server();
    assert_eq!(s.ignite(), vec![(3, 0)]);
}

#[test]
fn schema_follows_tls_flag() {
    assert_eq!(Schema::from_tls(false).as_str(), "http");
    assert_eq!(Schema::from_tls(true).as_str(), "https");
}

#[test]
fn accept_arms_the_reader() {
    let mut s = server();
    let index = s.handle_connection(conn(9), 100).unwrap();
    assert_eq!(index, 0);
    let cmds = s.take_commands(index);
    assert_eq!(cmds.len(), 1);
    assert!(matches!(cmds[0], Command::AddReader(9, 0)));
    assert_eq!(s.len_clients().unwrap(), 1);
}

#[test]
fn full_exchange_over_the_verbs() {
    let mut s = server();
    let ix = s.handle_connection(conn(9), 100).unwrap();
    let _ = s.take_commands(ix);
    let wire = b"GET /hello?x=1 HTTP/1.1\r\nHost: h\r\n\r\n".to_vec();
    let n = wire.len();
    s.poll_read(ix, SocketStatus::Complete(n), wire, 110).unwrap();
    let cmds = s.take_commands(ix);
    let mut invoked = false;
    for c in &cmds {
        if let Command::InvokeApp(i, scope) = c {
            invoked = true;
            assert_eq!(*i, ix);
            assert_eq!(scope.method.as_str(), "GET");
            assert_eq!(scope.path.as_str(), "/hello");
        }
    }
    assert!(invoked);
    // the host resumes writing for the response path
    assert!(cmds.iter().any(|c| matches!(c, Command::AddWriter(9, 0))));
    // the application answers
    let headers = vec![(b"content-length".to_vec(), b"5".to_vec())];
    s.send_start(ix, 200, &headers).unwrap();
    s.send_body(ix, false, b"hello".to_vec()).unwrap();
    // write readiness: the engine hands over the wire bytes
    let out = s.poll_write_acquire(ix).unwrap();
    let text = String::from_utf8(out.clone()).unwrap();
    assert!(text.starts_with("HTTP/1.1 200 OK\r\ncontent-length: 5\r\ndate: "));
    assert!(text.ends_with("\r\nserver: Litmus\r\n\r\nhello"));
    s.poll_write(ix, SocketStatus::Complete(out.len()), 120).unwrap();
    // everything written: writing pauses, and no close is scheduled
    let cmds = s.take_commands(ix);
    assert!(cmds.iter().any(|c| matches!(c, Command::RemoveWriter(9))));
    assert!(!cmds.iter().any(|c| matches!(c, Command::CloseSocket(_))));
}

#[test]
fn request_body_reaches_the_application() {
    let mut s = server();
    let ix = s.handle_connection(conn(9), 100).unwrap();
    let wire = b"POST /p HTTP/1.1\r\ncontent-length: 10\r\n\r\n0123456789".to_vec();
    let n = wire.len();
    s.poll_read(ix, SocketStatus::Complete(n), wire, 110).unwrap();
    match s.recv_body(ix).unwrap() {
        RecvStatus::Received(m) => {
            assert!(!m.more_body);
            assert_eq!(m.data, b"0123456789".to_vec());
        },
        _ => panic!("expected the body"),
    }
    assert!(matches!(s.recv_body(ix).unwrap(), RecvStatus::Empty));
}

#[test]
fn readiness_for_unknown_index_is_an_error() {
    let mut s = server();
    let r = s.poll_read(5, SocketStatus::WouldBlock, Vec::new(), 100);
    assert!(matches!(r, Err(EngineError::NoSuchClient)));
}

#[test]
fn verbs_before_init_are_refused() {
    let settings = ServerSettings::new(64, 5000);
    let mut s = Server::new(settings, vec![]);
    let r = s.poll_read(0, SocketStatus::WouldBlock, Vec::new(), 100);
    assert!(matches!(r, Err(EngineError::NotInitialized)));
}

#[test]
fn keep_alive_timeout_tears_down_and_releases() {
    let mut s = server();
    let ix = s.handle_connection(conn(9), 1000).unwrap();
    let _ = s.take_commands(ix);
    // an early sweep leaves the young connection alone
    s.poll_keep_alive(2000).unwrap();
    {
        let m = s.manager.as_ref().unwrap();
        assert!(m.clients[ix].is_some());
        assert!(!m.clients[ix].as_ref().unwrap().is_idle);
    }
    // past the timeout the handler is torn down: idle, close scheduled
    s.poll_keep_alive(6001).unwrap();
    {
        let m = s.manager.as_ref().unwrap();
        assert!(m.clients[ix].as_ref().unwrap().is_idle);
    }
    let cmds = s.take_commands(ix);
    assert!(cmds.iter().any(|c| matches!(c, Command::CloseSocket(0))));
    // the next sweep observes the idle handler and frees the slot
    s.poll_keep_alive(7000).unwrap();
    {
        let m = s.manager.as_ref().unwrap();
        assert!(m.clients[ix].is_none());
    }
    // the freed slot is reused for the next connection
    let ix2 = s.handle_connection(conn(11), 8000).unwrap();
    assert_eq!(ix2, ix);
}

#[test]
fn eof_read_tears_the_connection_down() {
    let mut s = server();
    let ix = s.handle_connection(conn(9), 100).unwrap();
    let _ = s.take_commands(ix);
    s.poll_read(ix, SocketStatus::Complete(0), Vec::new(), 150).unwrap();
    {
        let m = s.manager.as_ref().unwrap();
        assert!(m.clients[ix].as_ref().unwrap().is_idle);
    }
    let cmds = s.take_commands(ix);
    assert!(cmds.iter().any(|c| matches!(c, Command::CloseSocket(0))));
    // readiness stops: the armed reader is disarmed on teardown
    assert!(cmds.iter().any(|c| matches!(c, Command::RemoveReader(9))));
}

#[test]
fn disconnect_on_write_tears_the_connection_down() {
    let mut s = server();
    let ix = s.handle_connection(conn(9), 100).unwrap();
    s.poll_write(ix, SocketStatus::Disconnect, 160).unwrap();
    let m = s.manager.as_ref().unwrap();
    assert!(m.clients[ix].as_ref().unwrap().is_idle);
}

#[test]
fn shutdown_tears_every_connection_down() {
    let mut s = server();
    let a = s.handle_connection(conn(9), 100).unwrap();
    let b = s.handle_connection(conn(10), 100).unwrap();
    s.shutdown(200).unwrap();
    let m = s.manager.as_ref().unwrap();
    assert!(m.clients[a].as_ref().unwrap().is_idle);
    assert!(m.clients[b].as_ref().unwrap().is_idle);
}

#[test]
fn malformed_request_is_fatal_for_the_connection() {
    let mut s = server();
    let ix = s.handle_connection(conn(9), 100).unwrap();
    let wire = b"\x01bad\r\n\r\n".to_vec();
    let n = wire.len();
    let r = s.poll_read(ix, SocketStatus::Complete(n), wire, 110);
    assert!(matches!(r, Err(EngineError::Fault(_))));
}

#[test]
fn app_calls_for_unknown_index_are_refused() {
    let mut s = server();
    let headers = vec![(b"content-length".to_vec(), b"1".to_vec())];
    let r = s.send_start(3, 200, &headers);
    assert!(matches!(r, Err(AppCallError::NoSuchClient)));
    let r = s.send_body(3, false, b"x".to_vec());
    assert!(matches!(r, Err(AppCallError::NoSuchClient)));
    let r = s.recv_body(3);
    assert!(matches!(r, Err(AppCallError::NoSuchClient)));
}
