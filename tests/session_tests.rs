use deadlock_bench::driver::{Counters, Handler, Signal};
use deadlock_bench::edge::{Edge, Request, RequestKind, Response};
use deadlock_bench::session::{Client, SessionError, SessionState, WriteStep};

fn req(n: u64) -> Request {
    Request::new(RequestKind::Detect, Edge::new(n, n + 1, n))
}

fn handler() -> Handler {
    Handler::Sentinel { sentinel: Edge::new(9, 8, 9), requests: 3 }
}

#[test]
fn new_session_is_unconfigured() {
    let c = Client::new("127.0.0.1:20160");
    assert_eq!(c.get_addr(), "127.0.0.1:20160");
    assert_eq!(c.get_state(), SessionState::Unconfigured);
    assert_eq!(c.pending_len(), 0);
}

#[test]
fn submit_before_register_is_queue_closed() {
    let mut c = Client::new("addr");
    assert_eq!(c.detect(req(1)), Err(SessionError::QueueClosed));
    assert_eq!(c.pending_len(), 0);
    assert_eq!(c.get_state(), SessionState::Unconfigured);
}

#[test]
fn register_twice_refused() {
    let mut c = Client::new("addr");
    assert_eq!(c.register_detect_handler(handler()), Ok(()));
    assert_eq!(c.get_state(), SessionState::Active);
    let other = Handler::FirstResponse { requests: 1 };
    assert_eq!(c.register_detect_handler(other), Err(SessionError::AlreadyRegistered));
    let mut counters = Counters::new();
    let s = c.dispatch(&Response { entry: Edge::new(9, 8, 9) }, &mut counters);
    assert_eq!(s, Ok(Signal::Stop));
    assert_eq!(counters.completed_requests, 3);
}

#[test]
fn write_task_forwards_in_submission_order() {
    let mut c = Client::new("addr");
    c.register_detect_handler(handler()).unwrap();
    assert_eq!(c.next_outbound(), WriteStep::Wait);
    for n in 0..5 {
        c.detect(req(n)).unwrap();
    }
    for n in 0..5 {
        assert_eq!(c.next_outbound(), WriteStep::Send(req(n)));
    }
    assert_eq!(c.next_outbound(), WriteStep::Wait);
}

#[test]
fn closed_sender_drains_then_finishes() {
    let mut c = Client::new("addr");
    c.register_detect_handler(handler()).unwrap();
    c.detect(req(1)).unwrap();
    c.close_sender();
    assert_eq!(c.get_state(), SessionState::Closed);
    assert_eq!(c.detect(req(2)), Err(SessionError::QueueClosed));
    assert_eq!(c.next_outbound(), WriteStep::Send(req(1)));
    assert_eq!(c.next_outbound(), WriteStep::Finish);
}

#[test]
fn unconfigured_write_task_finishes() {
    let mut c = Client::new("addr");
    assert_eq!(c.next_outbound(), WriteStep::Finish);
}

#[test]
fn dispatch_without_handler_refused() {
    let c = Client::new("addr");
    let mut counters = Counters::new();
    let r = c.dispatch(&Response { entry: Edge::new(1, 2, 3) }, &mut counters);
    assert_eq!(r, Err(SessionError::NoHandler));
    assert_eq!(counters, Counters::new());
}

#[test]
fn sentinel_handler_counts_and_stops() {
    let h = handler();
    let mut counters = Counters::new();
    assert_eq!(h.handle(&Response { entry: Edge::new(1, 2, 3) }, &mut counters), Signal::Continue);
    assert_eq!(counters.detected_deadlocks, 1);
    assert_eq!(counters.completed_requests, 0);
    assert_eq!(h.handle(&Response { entry: Edge::new(9, 8, 9) }, &mut counters), Signal::Stop);
    assert_eq!(counters.detected_deadlocks, 2);
    assert_eq!(counters.completed_requests, 3);
}

#[test]
fn sentinel_handler_matches_whole_edge() {
    let h = handler();
    let mut counters = Counters::new();
    let near = Response { entry: Edge::new(9, 8, 0) };
    assert_eq!(h.handle(&near, &mut counters), Signal::Continue);
    assert_eq!(counters.completed_requests, 0);
}

#[test]
fn first_response_handler_stops_at_once() {
    let h = Handler::FirstResponse { requests: 5 };
    let mut counters = Counters::new();
    assert_eq!(h.handle(&Response { entry: Edge::new(1, 2, 3) }, &mut counters), Signal::Stop);
    assert_eq!(counters.completed_requests, 5);
    assert_eq!(counters.detected_deadlocks, 0);
}

#[test]
fn counters_wrap() {
    let h = Handler::Sentinel { sentinel: Edge::new(0, 1, 0), requests: 2 };
    let mut counters = Counters { completed_requests: u64::MAX, detected_deadlocks: u64::MAX };
    assert_eq!(h.handle(&Response { entry: Edge::new(0, 1, 0) }, &mut counters), Signal::Stop);
    assert_eq!(counters.completed_requests, 1);
    assert_eq!(counters.detected_deadlocks, 0);
}

#[test]
fn drain_outbound_forwards_everything_in_order() {
    let mut c = Client::new("addr");
    c.register_detect_handler(handler()).unwrap();
    for n in 0..4 {
        c.detect(req(n)).unwrap();
    }
    let sent = c.drain_outbound();
    assert_eq!(sent, vec![req(0), req(1), req(2), req(3)]);
    assert_eq!(c.pending_len(), 0);
    assert_eq!(c.next_outbound(), WriteStep::Wait);
    assert!(c.drain_outbound().is_empty());
}
