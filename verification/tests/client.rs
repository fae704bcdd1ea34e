use rusido::error::SocketError;
use rusido::websocket::client::{
    ping_step, read_step, Incoming, LinkStep, ReadStep, ReconnectState, ReconnectStep, WebSocketClient,
    RECONNECT_ATTEMPTS, RECONNECT_DELAY_SECS,
};
use rusido::websocket::message::SendMessage;

#[test]
fn new_client_has_url_and_no_socket() {
    let client = WebSocketClient::new("ws://localhost:13785".to_string()).unwrap();
    assert_eq!(client.url(), "ws://localhost:13785");
    assert!(!client.is_connected());
    assert_eq!(client.next_step(), LinkStep::Reconnect);
}

#[test]
fn send_without_socket_fails() {
    let client = WebSocketClient::new("ws://x".to_string()).unwrap();
    match client.ensure_connected() {
        Err(SocketError::ErrorMessage(m)) => assert_eq!(m, "WebSocket 未连接"),
        _ => panic!("expected not connected"),
    }
}

#[test]
fn take_socket_of_unconnected_client() {
    let mut client = WebSocketClient::new("ws://x".to_string()).unwrap();
    assert!(client.take_socket().is_none());
    assert!(!client.is_connected());
}

#[test]
fn read_loop_stops_on_close_error_and_end() {
    assert_eq!(read_step(&Incoming::Close), ReadStep::Stop);
    assert_eq!(read_step(&Incoming::Failed("boom".to_string())), ReadStep::Stop);
    assert_eq!(read_step(&Incoming::Ended), ReadStep::Stop);
}

#[test]
fn read_loop_goes_on_otherwise() {
    assert_eq!(read_step(&Incoming::Text("hi".to_string())), ReadStep::Continue);
    assert_eq!(read_step(&Incoming::Binary), ReadStep::Continue);
    assert_eq!(read_step(&Incoming::Ping), ReadStep::Continue);
    assert_eq!(read_step(&Incoming::Pong), ReadStep::Continue);
    assert_eq!(read_step(&Incoming::Frame), ReadStep::Continue);
}

#[test]
fn reconnect_gives_up_after_five_failures() {
    let mut state = ReconnectState::new();
    assert_eq!(state.remaining(), RECONNECT_ATTEMPTS);
    assert_eq!(RECONNECT_ATTEMPTS, 5);
    let mut attempts = 0;
    let mut waits = 0;
    let mut gave_up = None;
    while state.can_attempt() {
        attempts += 1;
        match state.on_attempt(false) {
            ReconnectStep::RetryAfter(secs) => {
                assert_eq!(secs, RECONNECT_DELAY_SECS);
                assert_eq!(secs, 5);
                waits += 1;
            }
            ReconnectStep::GiveUp(e) => gave_up = Some(e),
            ReconnectStep::Connected => panic!("no attempt succeeded"),
        }
    }
    assert_eq!(attempts, 5);
    assert_eq!(waits, 4);
    match gave_up {
        Some(SocketError::ErrorMessage(m)) => assert_eq!(m, "重连失败，已达最大重试次数"),
        _ => panic!("expected the give-up error"),
    }
}

#[test]
fn reconnect_success_ends_the_loop() {
    let mut state = ReconnectState::new();
    assert!(matches!(state.on_attempt(false), ReconnectStep::RetryAfter(5)));
    assert!(matches!(state.on_attempt(false), ReconnectStep::RetryAfter(5)));
    assert!(matches!(state.on_attempt(true), ReconnectStep::Connected));
    assert_eq!(state.remaining(), 3);
}

#[test]
fn send_message_variants() {
    let messages = vec![
        SendMessage::Ping(),
        SendMessage::Binary(vec![1, 2]),
        SendMessage::Text("a".to_string()),
        SendMessage::Json("{}".to_string()),
    ];
    assert_eq!(messages.len(), 4);
    assert!(matches!(messages[1], SendMessage::Binary(ref b) if b == &vec![1, 2]));
}

#[test]
fn ping_loop_stops_when_a_ping_fails() {
    assert_eq!(ping_step(true), ReadStep::Continue);
    assert_eq!(ping_step(false), ReadStep::Stop);
}
