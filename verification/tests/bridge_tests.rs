//! The host bridge and the channels: idempotent arming, command
//! queueing, bounded capacity, and the hand-off.

use litmus::bridge::PreSetEventLoop;
use litmus::channel::{
    RecvStatus, ReceiverFactory, RequestMessage, RequestSendOutcome, ResponseMessage,
    SendOutcome, SenderFactory,
};
use litmus::command::Command;

#[test]
fn arm_reader_twice_is_one_host_call() {
    let mut b = PreSetEventLoop::new(7, 3);
    b.arm_reader();
    b.arm_reader();
    let cmds = b.take_commands();
    assert_eq!(cmds.len(), 1);
    assert!(matches!(cmds[0], Command::AddReader(7, 3)));
}

#[test]
fn disarm_reader_when_not_armed_is_silent() {
    let mut b = PreSetEventLoop::new(7, 3);
    b.disarm_reader();
    assert!(b.take_commands().is_empty());
}

#[test]
fn writer_arming_mirrors_reader() {
    let mut b = PreSetEventLoop::new(7, 3);
    b.arm_writer();
    b.arm_writer();
    b.disarm_writer();
    b.disarm_writer();
    let cmds = b.take_commands();
    assert_eq!(cmds.len(), 2);
    assert!(matches!(cmds[0], Command::AddWriter(7, 3)));
    assert!(matches!(cmds[1], Command::RemoveWriter(7)));
}

#[test]
fn schedule_close_is_idempotent() {
    let mut b = PreSetEventLoop::new(7, 3);
    b.schedule_close();
    b.schedule_close();
    let cmds = b.take_commands();
    assert_eq!(cmds.len(), 1);
    assert!(matches!(cmds[0], Command::CloseSocket(3)));
}

#[test]
fn rebind_clears_the_idempotency_state() {
    let mut b = PreSetEventLoop::new(7, 3);
    b.arm_reader();
    let _ = b.take_commands();
    b.rebind(8);
    b.arm_reader();
    let cmds = b.take_commands();
    assert_eq!(cmds.len(), 1);
    assert!(matches!(cmds[0], Command::AddReader(8, 3)));
}

#[test]
fn response_channel_is_bounded_fifo() {
    let mut ch = SenderFactory::new();
    let m = |d: u8| ResponseMessage { more_body: true, keep_alive: true, data: vec![d] };
    assert!(matches!(ch.try_send(m(1)), SendOutcome::Sent));
    assert!(matches!(ch.try_send(m(2)), SendOutcome::Sent));
    assert!(matches!(ch.try_send(m(3)), SendOutcome::Full));
    let (a, _) = ch.recv();
    assert_eq!(a.unwrap().data, vec![1]);
    let (b, _) = ch.recv();
    assert_eq!(b.unwrap().data, vec![2]);
    let (c, _) = ch.recv();
    assert!(c.is_none());
}

#[test]
fn request_channel_reports_closed_after_drain() {
    let mut ch = ReceiverFactory::new();
    let out = ch.send(RequestMessage { more_body: false, data: vec![9] });
    assert!(matches!(out, RequestSendOutcome::Sent));
    ch.close();
    assert!(matches!(ch.try_recv(), RecvStatus::Received(_)));
    assert!(matches!(ch.try_recv(), RecvStatus::Closed));
}

#[test]
fn request_channel_hands_off_to_exactly_one_waker() {
    let mut ch = ReceiverFactory::new();
    ch.subscribe(5);
    let out = ch.send(RequestMessage { more_body: true, data: vec![1] });
    match out {
        RequestSendOutcome::HandedOff(w, m) => {
            assert_eq!(w, 5);
            assert_eq!(m.data, vec![1]);
        },
        _ => panic!("expected a hand-off"),
    }
    // with two wakers the payload is enqueued instead
    let mut ch = ReceiverFactory::new();
    ch.subscribe(5);
    ch.subscribe(6);
    let out = ch.send(RequestMessage { more_body: true, data: vec![2] });
    assert!(matches!(out, RequestSendOutcome::Sent));
}

#[test]
fn send_after_close_is_absorbed() {
    let mut ch = ReceiverFactory::new();
    ch.close();
    let out = ch.send(RequestMessage { more_body: true, data: vec![1] });
    assert!(matches!(out, RequestSendOutcome::Closed));
}
