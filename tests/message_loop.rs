use signaling_client::dispatch::{Action, Event};
use signaling_client::session::{Phase, SessionState, SignalingError};
use signaling_client::wire::Frame;

fn active_state() -> SessionState {
    let mut s = SessionState::new(7);
    let _ = s.begin_registration(42);
    s.on_registration_reply(Some(Frame::Text("HELLO".to_string()))).unwrap();
    let _ = s.request_session();
    s.activate();
    s
}

#[test]
fn ping_gets_one_pong_with_same_bytes() {
    let mut s = active_state();
    let r = s.step(Event::Inbound(Frame::Ping(vec![1, 2, 3])));
    assert_eq!(r, Ok(Action::Send(Frame::Pong(vec![1, 2, 3]))));
    assert_eq!(s.phase(), Phase::Active);
    assert!(s.awaits_inbound());
}

#[test]
fn text_is_delivered_verbatim_without_reply() {
    let mut s = active_state();
    let payload = "offer:v=0 o=- 1 2 IN IP4 127.0.0.1".to_string();
    let r = s.step(Event::Inbound(Frame::Text(payload.clone())));
    assert_eq!(r, Ok(Action::Deliver(payload)));
    assert_eq!(s.phase(), Phase::Active);
}

#[test]
fn pong_and_binary_are_ignored() {
    let mut s = active_state();
    assert_eq!(s.step(Event::Inbound(Frame::Pong(vec![9]))), Ok(Action::Ignore));
    assert_eq!(s.step(Event::Inbound(Frame::Binary(vec![1, 2]))), Ok(Action::Ignore));
    assert_eq!(s.phase(), Phase::Active);
}

#[test]
fn outgoing_text_is_sent() {
    let mut s = active_state();
    let r = s.step(Event::Outgoing("candidate:1".to_string()));
    assert_eq!(r, Ok(Action::Send(Frame::Text("candidate:1".to_string()))));
    assert_eq!(s.phase(), Phase::Active);
}

#[test]
fn close_finishes_normally_and_stops_reading() {
    let mut s = active_state();
    let r = s.step(Event::Inbound(Frame::Close));
    assert_eq!(r, Ok(Action::Finish));
    assert_eq!(s.phase(), Phase::Closed);
    assert!(!s.awaits_inbound());
    let again = s.step(Event::Inbound(Frame::Text("late".to_string())));
    assert_eq!(again, Ok(Action::Finish));
    assert_eq!(s.phase(), Phase::Closed);
}

#[test]
fn exhaustion_finishes_normally() {
    let mut s = active_state();
    assert_eq!(s.step(Event::Exhausted), Ok(Action::Finish));
    assert_eq!(s.phase(), Phase::Closed);
}

#[test]
fn transport_failure_is_an_error() {
    let mut s = active_state();
    let r = s.step(Event::TransportFailed("reset by peer".to_string()));
    assert_eq!(r, Err(SignalingError::Transport("reset by peer".to_string())));
    assert_eq!(s.phase(), Phase::Closed);
}

#[test]
fn events_before_activation_finish() {
    let mut s = SessionState::new(1);
    assert!(!s.awaits_inbound());
    assert_eq!(s.step(Event::Inbound(Frame::Ping(vec![1]))), Ok(Action::Finish));
    assert_eq!(s.phase(), Phase::Connecting);
}

#[test]
fn end_to_end_session() {
    let mut s = SessionState::new(7);
    assert_eq!(s.begin_registration(42), "HELLO 42");
    assert_eq!(s.on_registration_reply(Some(Frame::Text("HELLO".to_string()))), Ok(()));
    assert_eq!(s.request_session(), "SESSION 7");
    s.activate();
    let mut delivered: Vec<String> = Vec::new();
    let inbound = vec![Frame::Text("ack".to_string()), Frame::Close, Frame::Text("never".to_string())];
    let mut reads = 0;
    for frame in inbound {
        if !s.awaits_inbound() {
            break;
        }
        reads += 1;
        match s.step(Event::Inbound(frame)) {
            Ok(Action::Deliver(p)) => delivered.push(p),
            Ok(Action::Finish) => {}
            other => panic!("unexpected {:?}", other),
        }
    }
    assert_eq!(delivered, vec!["ack".to_string()]);
    assert_eq!(reads, 2);
    assert_eq!(s.phase(), Phase::Closed);
}
