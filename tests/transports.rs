use libsqlite3_turso::bus::ResponseBus;
use libsqlite3_turso::codes::SQLITE_ERROR;
use libsqlite3_turso::protocol::SqlStatement;
use libsqlite3_turso::transport::{
    bearer, check_embedded_errors, correlation_key, execute_frame, hello_frame, key_text,
    open_stream_frame, pipeline_url, ws_url, AttemptOutcome, CorrelationKey, HttpRetry,
    InboundFrame, InboundKind, ReaderAction, RetryDecision, WebSocketConnState, WsConnection,
    WsFrame, WsRequest, MAX_ATTEMPTS,
};

#[test]
fn three_failures_then_success_after_backoff() {
    let mut retry = HttpRetry::new();
    let mut slept: u64 = 0;
    for _ in 0..3 {
        match retry.on_outcome(AttemptOutcome::Failed("HTTP error 500".to_string())) {
            RetryDecision::Retry { delay_ms } => slept += delay_ms,
            _ => panic!("a failure before the last attempt must be retried"),
        }
    }
    match retry.on_outcome(AttemptOutcome::Succeeded("{\"results\":[]}".to_string())) {
        RetryDecision::Accept(body) => assert_eq!(body, "{\"results\":[]}"),
        _ => panic!("a 2xx body must be accepted"),
    }
    assert_eq!(retry.attempts(), 4);
    assert!(slept >= 300);
}

#[test]
fn gives_up_after_five_attempts() {
    let mut retry = HttpRetry::new();
    for _ in 0..4 {
        assert!(matches!(
            retry.on_outcome(AttemptOutcome::Failed("x".to_string())),
            RetryDecision::Retry { delay_ms: 100 }
        ));
    }
    match retry.on_outcome(AttemptOutcome::Failed("Request failed: refused".to_string())) {
        RetryDecision::GiveUp(e) => {
            assert_eq!(e.code, SQLITE_ERROR);
            assert_eq!(e.message, "Request failed: refused");
        }
        _ => panic!("the last failure must end the request"),
    }
    assert_eq!(retry.attempts(), MAX_ATTEMPTS);
}

#[test]
fn embedded_errors_are_not_retried() {
    assert!(check_embedded_errors(&vec![None, None]).is_ok());
    match check_embedded_errors(&vec![None, Some("bad sql".to_string()), Some("later".to_string())]) {
        Ok(_) => panic!("embedded error missed"),
        Err(e) => {
            assert_eq!(e.code, SQLITE_ERROR);
            assert_eq!(e.message, "bad sql");
        }
    }
}

#[test]
fn endpoints_and_headers() {
    assert_eq!(pipeline_url("db.example"), "https://db.example/v2/pipeline");
    assert_eq!(ws_url("db.example"), "wss://db.example");
    assert_eq!(bearer("tok"), "Bearer tok");
}

#[test]
fn frames_carry_ids() {
    assert!(matches!(hello_frame("jwt-1"), WsFrame::Hello { jwt } if jwt == "jwt-1"));
    assert!(matches!(
        open_stream_frame(3, 9),
        WsFrame::Request { request_id: 3, request: WsRequest::OpenStream { stream_id: 9 } }
    ));
    let stmt = SqlStatement { sql: "SELECT 1".to_string(), args: Some(vec![]) };
    match execute_frame(4, 9, stmt) {
        WsFrame::Request { request_id, request: WsRequest::Execute { stmt, stream_id } } => {
            assert_eq!(request_id, 4);
            assert_eq!(stream_id, 9);
            assert_eq!(stmt.sql, "SELECT 1");
        }
        _ => panic!("wrong frame"),
    }
}

#[test]
fn correlation_keys_prefer_request_id() {
    let f = InboundFrame { request_id: Some(7), id: Some(2), frame_type: Some("response".to_string()) };
    let k = correlation_key(&f).unwrap();
    assert!(matches!(k, CorrelationKey::RequestId(7)));
    assert_eq!(key_text(&k), "request_id:7");
    let f = InboundFrame { request_id: None, id: Some(-2), frame_type: None };
    assert_eq!(key_text(&correlation_key(&f).unwrap()), "id:-2");
    let f = InboundFrame { request_id: None, id: None, frame_type: Some("hello_ok".to_string()) };
    assert_eq!(key_text(&correlation_key(&f).unwrap()), "type:hello_ok");
    let f = InboundFrame { request_id: None, id: None, frame_type: None };
    assert!(correlation_key(&f).is_none());
}

#[test]
fn close_frame_forces_reconnect_and_handshake() {
    let mut c = WsConnection::new();
    assert!(c.needs_connect());
    c.on_handshake_ok();
    assert!(!c.needs_connect());
    assert_eq!(c.on_inbound(InboundKind::Text), ReaderAction::Dispatch);
    assert_eq!(c.on_inbound(InboundKind::Binary), ReaderAction::Dispatch);
    assert_eq!(c.on_inbound(InboundKind::Other), ReaderAction::Skip);
    assert!(!c.needs_connect());
    assert_eq!(c.on_inbound(InboundKind::Close), ReaderAction::Stop);
    assert_eq!(c.state(), WebSocketConnState::Disconnected);
    assert!(c.needs_connect());
    c.on_handshake_ok();
    assert_eq!(c.state(), WebSocketConnState::Connected);
    assert_eq!(c.on_inbound(InboundKind::Failure), ReaderAction::Stop);
    assert!(c.needs_connect());
}

#[test]
fn bus_pairs_frames_with_waiters() {
    let mut bus: ResponseBus<u32> = ResponseBus::new();
    bus.wait_for("request_id:1".to_string(), 10);
    bus.wait_for("type:hello_ok".to_string(), 20);
    bus.wait_for("request_id:1".to_string(), 11);
    assert_eq!(bus.respond("request_id:2"), None);
    assert_eq!(bus.respond("request_id:1"), Some(11));
    assert_eq!(bus.respond("request_id:1"), None);
    assert_eq!(bus.respond("type:hello_ok"), Some(20));
}
