//! The engine model driven from outside: ordering, closure, decode, priority.

use multichat::engine::{Engine, InboundOutcome, IoError, RECV_BUFFER_LEN};
use multichat::multiplex::{select_event, Datagram, Event};
use multichat::queue::{ClosedError, OutboundQueue, Polled};
use multichat::session::Session;

#[test]
fn messages_go_to_the_wire_in_enqueue_order_exactly_once() {
    let mut s = Session::start();
    s.enqueue(b"first".to_vec()).unwrap();
    s.enqueue(b"second".to_vec()).unwrap();
    s.enqueue(b"third".to_vec()).unwrap();
    s.drop_producer();
    let wire = s.pump_outbound();
    assert_eq!(wire, vec![b"first".to_vec(), b"second".to_vec(), b"third".to_vec()]);
    assert_eq!(s.outcome(), Ok(()));
}

#[test]
fn closure_happens_exactly_at_the_last_handle_drop() {
    let mut q = OutboundQueue::new();
    q.clone_producer();
    q.clone_producer();
    q.enqueue(b"pending".to_vec()).unwrap();
    q.drop_producer();
    q.drop_producer();
    // two of three handles gone: the queue is still open
    match q.try_recv() {
        Polled::Msg(m) => assert_eq!(m, b"pending".to_vec()),
        _ => panic!("expected the pending message"),
    }
    match q.try_recv() {
        Polled::Empty => {}
        _ => panic!("queue must still be open"),
    }
    q.drop_producer();
    // the last drop closes it, and only then
    match q.try_recv() {
        Polled::Disconnected => {}
        _ => panic!("queue must be closed and empty"),
    }
}

#[test]
fn extra_clones_still_give_one_termination() {
    let mut s = Session::start();
    s.clone_producer();
    s.clone_producer();
    s.enqueue(b"late".to_vec()).unwrap();
    s.drop_producer();
    s.drop_producer();
    let wire = s.pump_outbound();
    // not closed yet: the message was drained but the loop keeps running
    assert_eq!(wire, vec![b"late".to_vec()]);
    s.drop_producer();
    let wire = s.pump_outbound();
    assert!(wire.is_empty());
    assert_eq!(s.outcome(), Ok(()));
}

#[test]
fn valid_utf8_appends_exactly_one_line() {
    let mut e = Engine::new();
    let out = e.on_inbound(b"hi there", "127.0.0.1:4000");
    assert_eq!(out, InboundOutcome::Appended);
    assert_eq!(e.current_log(), "[127.0.0.1:4000]: hi there\n");
    let out = e.on_inbound(b"again", "10.0.0.2:9");
    assert_eq!(out, InboundOutcome::Appended);
    assert_eq!(e.current_log(), "[127.0.0.1:4000]: hi there\n[10.0.0.2:9]: again\n");
}

#[test]
fn invalid_utf8_is_discarded_and_the_log_is_unchanged() {
    let mut e = Engine::new();
    e.on_inbound(b"kept", "peer");
    let before = e.current_log();
    let out = e.on_inbound(&[0xff, 0xfe, 0x41], "peer");
    assert_eq!(out, InboundOutcome::Discarded);
    assert_eq!(e.current_log(), before);
    // a truncated multi-byte sequence is invalid too
    let out = e.on_inbound(&[0xc3], "peer");
    assert_eq!(out, InboundOutcome::Discarded);
    assert_eq!(e.current_log(), before);
}

#[test]
fn empty_payload_is_valid_utf8_and_logs_an_empty_text() {
    let mut e = Engine::new();
    let out = e.on_inbound(b"", "peer:2");
    assert_eq!(out, InboundOutcome::Appended);
    assert_eq!(e.current_log(), "[peer:2]: \n");
}

#[test]
fn multibyte_utf8_decodes_to_the_same_text() {
    let mut e = Engine::new();
    let out = e.on_inbound("héllo ∀".as_bytes(), "peer:3");
    assert_eq!(out, InboundOutcome::Appended);
    assert_eq!(e.current_log(), "[peer:3]: héllo ∀\n");
}

#[test]
fn empty_message_is_sent_as_an_empty_datagram() {
    let mut s = Session::start();
    s.enqueue(Vec::new()).unwrap();
    s.drop_producer();
    let wire = s.pump_outbound();
    assert_eq!(wire, vec![Vec::<u8>::new()]);
    assert_eq!(s.outcome(), Ok(()));
}

#[test]
fn outbound_datagram_is_the_message_bytes_unchanged() {
    let mut e = Engine::new();
    let d = e.on_outbound(vec![0, 159, 146, 150]);
    assert_eq!(d, vec![0, 159, 146, 150]);
}

#[test]
fn outbound_wins_when_both_sources_are_ready() {
    let both = select_event(
        Polled::Msg(b"mine".to_vec()),
        Some(Datagram { data: b"theirs".to_vec(), src: "peer".to_string() }),
    );
    match both {
        Some(Event::SendMsg(m)) => assert_eq!(m, b"mine".to_vec()),
        _ => panic!("outbound must be processed first"),
    }
}

#[test]
fn closure_wins_over_a_ready_inbound_datagram() {
    let e = select_event(
        Polled::Disconnected,
        Some(Datagram { data: b"theirs".to_vec(), src: "peer".to_string() }),
    );
    assert!(matches!(e, Some(Event::Shutdown)));
}

#[test]
fn inbound_is_taken_only_when_outbound_is_idle() {
    let e = select_event(
        Polled::Empty,
        Some(Datagram { data: b"theirs".to_vec(), src: "peer".to_string() }),
    );
    match e {
        Some(Event::Deliver(d)) => {
            assert_eq!(d.data, b"theirs".to_vec());
            assert_eq!(d.src, "peer".to_string());
        }
        _ => panic!("inbound must be delivered when outbound is idle"),
    }
    let idle = select_event(Polled::Empty, None);
    assert!(idle.is_none());
}

#[test]
fn empty_closed_queue_stops_the_loop_at_once_with_ok() {
    let mut s = Session::start();
    s.drop_producer();
    let wire = s.pump_outbound();
    assert!(wire.is_empty());
    assert_eq!(s.outcome(), Ok(()));
}

#[test]
fn enqueue_after_engine_death_returns_closed_error() {
    let mut s = Session::start();
    assert_eq!(s.enqueue(b"goes through".to_vec()), Ok(()));
    s.on_send_error();
    // the engine is gone but this producer still holds its handle
    assert_eq!(s.enqueue(b"too late".to_vec()), Err(ClosedError));
    assert_eq!(s.outcome(), Err(IoError::Send));
}

#[test]
fn send_failure_is_the_terminal_result() {
    let mut e = Engine::new();
    let _ = e.on_outbound(b"doomed".to_vec());
    e.on_send_error();
    assert_eq!(e.outcome(), Err(IoError::Send));
}

#[test]
fn recv_failure_is_the_terminal_result() {
    let mut e = Engine::new();
    e.on_recv_error();
    assert_eq!(e.outcome(), Err(IoError::Recv));
}

#[test]
fn receive_buffer_is_64_bytes() {
    assert_eq!(RECV_BUFFER_LEN, 64);
}
