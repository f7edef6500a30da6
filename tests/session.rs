use market_stream::config::Config;
use market_stream::error::StreamError;
use market_stream::models::DecodeError;
use market_stream::session::{
    heartbeat_frame, Action, CloseReason, Event, Frame, Phase, Session, HEARTBEAT_INTERVAL_SECS,
};

fn open(url: &str, ids: &[&str]) -> (Session, Action) {
    let config = Config { websocket_url: url.to_string() };
    Session::new(&config, ids.iter().map(|s| s.to_string()).collect()).unwrap()
}

fn text(s: &str) -> Event {
    Event::Received(Frame::Text(s.to_string()))
}

fn streaming(ids: &[&str]) -> Session {
    let (mut s, _) = open("wss://example.test/feed", ids);
    s.step(Event::Connected);
    s.step(Event::Sent);
    assert_eq!(s.phase, Phase::Streaming);
    s
}

fn transport_error() -> StreamError {
    StreamError::WebsocketConnection(tokio_tungstenite::tungstenite::Error::ConnectionClosed)
}

#[test]
fn end_to_end_subscribe_deliver_close() {
    let (mut s, a) = open("wss://example.test/feed", &["A1", "A2"]);
    assert!(matches!(a, Action::Connect(ref u) if u == "wss://example.test/feed"));
    assert_eq!(s.phase, Phase::Connecting);
    match s.step(Event::Connected) {
        Action::Send(t) => assert_eq!(t, r#"{"type":"market","assets_ids":["A1","A2"]}"#),
        other => panic!("expected the subscription, got {:?}", other),
    }
    assert_eq!(s.phase, Phase::Subscribing);
    assert!(matches!(s.step(Event::Sent), Action::Listen));
    assert_eq!(s.phase, Phase::Streaming);
    match s.step(text(r#"{"marketId":"A1","price":0.42,"outcome":"YES","timestamp":1700000000}"#)) {
        Action::Deliver(u) => {
            assert_eq!(u.market_id, "A1");
            assert_eq!(u.price.as_f64(), Some(0.42));
            assert_eq!(u.timestamp, 1700000000);
        }
        other => panic!("expected a record, got {:?}", other),
    }
    assert!(matches!(s.step(Event::Received(Frame::Close(None))), Action::Close));
    assert_eq!(s.phase, Phase::Closing);
    assert!(matches!(s.step(Event::Released), Action::Finish(Ok(()))));
    assert_eq!(s.phase, Phase::Closed);
    assert!(matches!(s.step(Event::HeartbeatDue), Action::Listen));
}

#[test]
fn malformed_frame_then_valid_frame() {
    let mut s = streaming(&["A1"]);
    match s.step(text("not-json")) {
        Action::Reject(raw, DecodeError::Json(_)) => assert_eq!(raw, "not-json"),
        other => panic!("expected a rejection, got {:?}", other),
    }
    assert_eq!(s.phase, Phase::Streaming);
    let a = s.step(text(r#"{"marketId":"A1","price":0.5,"outcome":"NO","timestamp":2}"#));
    assert!(matches!(a, Action::Deliver(ref u) if u.outcome == "NO"));
    let a = s.step(text(r#"{"marketId":"A1","outcome":"NO","timestamp":2}"#));
    assert!(matches!(a, Action::Reject(_, DecodeError::MissingField(_))));
    assert!(matches!(s.step(text(r#"{"marketId":"A2","price":1,"outcome":"YES","timestamp":3}"#)), Action::Deliver(_)));
}

#[test]
fn other_frames_are_observed_only() {
    let mut s = streaming(&["A1"]);
    assert!(matches!(s.step(Event::Received(Frame::Binary(vec![1, 2, 3]))), Action::Listen));
    assert!(matches!(s.step(Event::Received(Frame::Ping(vec![]))), Action::Listen));
    assert!(matches!(s.step(Event::Received(Frame::Pong(vec![9]))), Action::Listen));
    assert!(matches!(s.step(Event::Received(Frame::Other)), Action::Listen));
    assert_eq!(s.phase, Phase::Streaming);
}

#[test]
fn close_frame_with_reason_ends_without_error() {
    let mut s = streaming(&[]);
    let reason = CloseReason { code: 1000, reason: "bye".to_string() };
    assert!(matches!(s.step(Event::Received(Frame::Close(Some(reason)))), Action::Close));
    assert!(matches!(s.step(Event::Released), Action::Finish(Ok(()))));
}

#[test]
fn heartbeat_one_send_per_tick() {
    assert_eq!(HEARTBEAT_INTERVAL_SECS, 50);
    assert_eq!(heartbeat_frame(), "PING");
    let mut s = streaming(&["A1"]);
    let mut sends = 0;
    for _ in 0..3 {
        match s.step(Event::HeartbeatDue) {
            Action::Send(t) => {
                assert_eq!(t, "PING");
                sends += 1;
            }
            other => panic!("expected a heartbeat, got {:?}", other),
        }
        assert!(s.writing);
        assert!(matches!(s.step(Event::Sent), Action::Listen));
        assert!(!s.writing);
    }
    assert_eq!(sends, 3);
}

#[test]
fn heartbeat_waits_for_frame_going_out() {
    let mut s = streaming(&["A1"]);
    assert!(matches!(s.step(Event::HeartbeatDue), Action::Send(_)));
    assert!(matches!(s.step(Event::HeartbeatDue), Action::Listen));
    assert!(s.heartbeat_pending);
    match s.step(Event::Sent) {
        Action::Send(t) => assert_eq!(t, "PING"),
        other => panic!("expected the waiting heartbeat, got {:?}", other),
    }
    assert!(!s.heartbeat_pending);
    assert!(matches!(s.step(Event::Sent), Action::Listen));
    assert!(!s.writing);
}

#[test]
fn no_heartbeat_before_streaming() {
    let (mut s, _) = open("wss://example.test/feed", &["A1"]);
    assert!(matches!(s.step(Event::HeartbeatDue), Action::Listen));
    s.step(Event::Connected);
    assert!(matches!(s.step(Event::HeartbeatDue), Action::Listen));
    assert_eq!(s.phase, Phase::Subscribing);
}

#[test]
fn invalid_endpoint_is_refused() {
    let config = Config { websocket_url: "not a url".to_string() };
    assert!(matches!(Session::new(&config, Vec::new()), Err(StreamError::UrlParse(_))));
}

#[test]
fn connect_failure_finishes_with_error() {
    let (mut s, _) = open("ws://127.0.0.1:9/", &["A1"]);
    let a = s.step(Event::ConnectFailed(transport_error()));
    assert!(matches!(a, Action::Finish(Err(StreamError::WebsocketConnection(_)))));
    assert_eq!(s.phase, Phase::Closed);
}

#[test]
fn subscription_send_failure_is_fatal() {
    let (mut s, _) = open("wss://example.test/feed", &["A1"]);
    s.step(Event::Connected);
    assert!(matches!(s.step(Event::SendFailed(transport_error())), Action::Close));
    assert!(matches!(s.step(Event::Released), Action::Finish(Err(StreamError::WebsocketConnection(_)))));
}

#[test]
fn receive_error_is_fatal() {
    let mut s = streaming(&["A1"]);
    assert!(matches!(s.step(Event::ReceiveFailed(transport_error())), Action::Close));
    assert!(matches!(s.step(text("{}")), Action::Listen));
    assert!(matches!(s.step(Event::Released), Action::Finish(Err(StreamError::WebsocketConnection(_)))));
}

#[test]
fn heartbeat_send_failure_is_fatal() {
    let mut s = streaming(&["A1"]);
    s.step(Event::HeartbeatDue);
    assert!(matches!(s.step(Event::SendFailed(transport_error())), Action::Close));
    assert!(!s.writing);
    assert!(matches!(s.step(Event::Released), Action::Finish(Err(_))));
}

#[test]
fn stream_end_and_shutdown_finish_cleanly() {
    let mut s = streaming(&["A1"]);
    assert!(matches!(s.step(Event::StreamEnded), Action::Close));
    assert!(matches!(s.step(Event::Released), Action::Finish(Ok(()))));
    let mut s = streaming(&["A1"]);
    assert!(matches!(s.step(Event::Shutdown), Action::Close));
    assert!(matches!(s.step(Event::Released), Action::Finish(Ok(()))));
    let (mut s, _) = open("wss://example.test/feed", &["A1"]);
    assert!(matches!(s.step(Event::Shutdown), Action::Finish(Ok(()))));
}

#[test]
fn run_sends_one_heartbeat_per_tick_after_subscription() {
    let (mut s, _) = open("wss://example.test/feed", &["A1"]);
    let mut events = vec![Event::Connected, Event::Sent];
    for k in 0..4 {
        events.push(Event::HeartbeatDue);
        if k % 2 == 0 {
            events.push(text(r#"{"marketId":"A1","price":0.1,"outcome":"YES","timestamp":1}"#));
        }
        events.push(Event::Sent);
    }
    events.push(Event::StreamEnded);
    events.push(Event::Released);
    events.push(Event::HeartbeatDue);
    let actions = s.run(events);
    let sends: Vec<&String> = actions
        .iter()
        .filter_map(|a| match a {
            Action::Send(t) => Some(t),
            _ => None,
        })
        .collect();
    assert_eq!(sends.len(), 5);
    assert_eq!(sends[0], r#"{"type":"market","assets_ids":["A1"]}"#);
    assert!(sends[1..].iter().all(|t| *t == "PING"));
    assert_eq!(actions.iter().filter(|a| matches!(a, Action::Deliver(_))).count(), 2);
    assert!(matches!(actions[actions.len() - 2], Action::Finish(Ok(()))));
    assert!(matches!(actions[actions.len() - 1], Action::Listen));
    assert_eq!(s.phase, Phase::Closed);
}
