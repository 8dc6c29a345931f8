// The correlation and routing behavior of one session, end to end:
// submitted requests, matched and unmatched responses, malformed frames,
// the expiry sweep, and the reconnect policy.

use kanami::frame::Response;
use kanami::json::JsonValue;
use kanami::proto::send_group_msg_request;
use kanami::session::InboundAction;
use kanami::session::Session;
use kanami::session::EXPIRY_THRESHOLD_SECS;
use kanami::session::SWEEP_INTERVAL_SECS;
use kanami::supervisor::handshake;
use kanami::supervisor::HandshakeOutcome;
use kanami::supervisor::Supervisor;
use kanami::supervisor::RECONNECT_DELAY_SECS;
use kanami::message::Message;
use kanami::message::Segment;

fn group_hi_message() -> Message {
    Message::of_text("hi".to_string())
}

#[test]
fn encode_send_group_msg_exact_text() {
    let req = send_group_msg_request(123, group_hi_message(), "tok-1".to_string());
    let mut session = Session::new();
    let text = session.submit(req, 7, 0);
    assert_eq!(
        text,
        "{\"action\":\"send_group_msg\",\"params\":{\"group_id\":123,\"message\":[{\"type\":\"text\",\"data\":{\"text\":\"hi\"}}]},\"echo\":\"tok-1\"}"
    );
}

#[test]
fn matched_response_reaches_the_caller_once() {
    let mut session = Session::new();
    let req = send_group_msg_request(123, group_hi_message(), "tok-1".to_string());
    let _frame = session.submit(req, 7, 0);

    let reply = "{\"status\":\"ok\",\"retcode\":0,\"data\":{\"message_id\":456},\"echo\":\"tok-1\"}";
    match session.on_text(reply) {
        InboundAction::Resolve { slot, response } => {
            assert_eq!(slot, 7);
            assert_eq!(response.status, "ok");
            assert_eq!(response.retcode, 0);
            assert_eq!(response.data_i64("message_id"), Some(456));
            assert_eq!(response.message, None);
            assert_eq!(response.echo.as_deref(), Some("tok-1"));
        },
        _ => panic!("a matching response must resolve the caller"),
    }

    // The token is spent: the same frame again is an unknown token.
    match session.on_text(reply) {
        InboundAction::UnknownToken { token } => assert_eq!(token, "tok-1"),
        _ => panic!("a spent token must be dropped as unknown"),
    }
}

#[test]
fn unmatched_token_is_discarded_and_session_continues() {
    let mut session = Session::new();
    let req = send_group_msg_request(5, group_hi_message(), "tok-a".to_string());
    let _frame = session.submit(req, 1, 0);

    match session.on_text("{\"status\":\"ok\",\"retcode\":0,\"echo\":\"stranger\"}") {
        InboundAction::UnknownToken { token } => assert_eq!(token, "stranger"),
        _ => panic!("an unknown token must be dropped"),
    }

    // The pending entry is untouched; its own response still resolves.
    match session.on_text("{\"status\":\"ok\",\"retcode\":0,\"echo\":\"tok-a\"}") {
        InboundAction::Resolve { slot, .. } => assert_eq!(slot, 1),
        _ => panic!("the pending entry must survive a stranger's frame"),
    }
}

#[test]
fn malformed_frame_is_dropped_and_next_frame_processed() {
    let mut session = Session::new();
    let req = send_group_msg_request(5, group_hi_message(), "tok-b".to_string());
    let _frame = session.submit(req, 2, 0);

    match session.on_text("this is not json {") {
        InboundAction::Malformed => {},
        _ => panic!("non-JSON text must be dropped as malformed"),
    }

    // The very next well-formed frame is still processed.
    match session.on_text("{\"status\":\"ok\",\"retcode\":0,\"echo\":\"tok-b\"}") {
        InboundAction::Resolve { slot, .. } => assert_eq!(slot, 2),
        _ => panic!("the next well-formed frame must still be processed"),
    }
}

#[test]
fn uncorrelated_frame_dispatches_as_event() {
    let mut session = Session::new();
    let text = "{\"post_type\":\"message\",\"message_type\":\"private\",\"time\":1,\"self_id\":2,\
        \"sub_type\":\"friend\",\"message_id\":3,\"user_id\":4,\
        \"message\":[{\"type\":\"text\",\"data\":{\"text\":\"hello\"}}],\
        \"raw_message\":\"hello\",\"font\":0,\
        \"sender\":{\"user_id\":4,\"nickname\":\"n\"}}";
    match session.on_text(text) {
        InboundAction::Dispatch { event } => match event {
            kanami::events::Event::MessageEvent(me) => {
                assert_eq!(me.user_id(), 4);
                assert_eq!(me.raw_message(), "hello");
            },
            _ => panic!("expected a message event"),
        },
        _ => panic!("an uncorrelated frame must dispatch as an event"),
    }
}

#[test]
fn unknown_event_shape_is_dropped() {
    let mut session = Session::new();
    match session.on_text("{\"post_type\":\"mystery\"}") {
        InboundAction::UnknownEvent => {},
        _ => panic!("an unknown event shape must be dropped"),
    }
}

#[test]
fn sweep_times_out_exactly_the_stale_entries() {
    let mut session = Session::new();
    let fresh = send_group_msg_request(1, group_hi_message(), "fresh".to_string());
    let stale = send_group_msg_request(1, group_hi_message(), "tok-2".to_string());
    let _f = session.submit(stale, 10, 0);
    let _g = session.submit(fresh, 11, 140);

    // At the sweep tick past threshold + interval, only the old entry falls.
    assert_eq!(EXPIRY_THRESHOLD_SECS, 120);
    assert_eq!(SWEEP_INTERVAL_SECS, 30);
    let timed_out = session.sweep(150);
    assert_eq!(timed_out.len(), 1);
    let (slot, resp) = &timed_out[0];
    assert_eq!(*slot, 10);
    assert_eq!(resp.status, "timeout");
    assert_eq!(resp.retcode, -1);
    assert!(resp.data.is_none());
    assert_eq!(resp.message.as_deref(), Some("Request timeout"));
    assert_eq!(resp.echo.as_deref(), Some("tok-2"));

    // The fresh entry survives and still resolves.
    match session.on_text("{\"status\":\"ok\",\"retcode\":0,\"echo\":\"fresh\"}") {
        InboundAction::Resolve { slot, .. } => assert_eq!(slot, 11),
        _ => panic!("an unexpired entry must survive the sweep"),
    }

    // The swept token is gone.
    match session.on_text("{\"status\":\"ok\",\"retcode\":0,\"echo\":\"tok-2\"}") {
        InboundAction::UnknownToken { .. } => {},
        _ => panic!("a swept token must be gone"),
    }
}

#[test]
fn resubmitted_token_replaces_the_entry() {
    let mut session = Session::new();
    let one = send_group_msg_request(1, group_hi_message(), "dup".to_string());
    let two = send_group_msg_request(1, group_hi_message(), "dup".to_string());
    let _a = session.submit(one, 1, 0);
    let _b = session.submit(two, 2, 5);
    match session.on_text("{\"status\":\"ok\",\"retcode\":0,\"echo\":\"dup\"}") {
        InboundAction::Resolve { slot, .. } => assert_eq!(slot, 2),
        _ => panic!("the later registration must own the token"),
    }
}

#[test]
fn correlated_frame_that_is_no_response_spends_the_entry() {
    let mut session = Session::new();
    let req = send_group_msg_request(1, group_hi_message(), "tok-c".to_string());
    let _f = session.submit(req, 3, 0);
    // The echo matches but `status` is missing: the entry is spent with
    // nothing delivered.
    match session.on_text("{\"retcode\":0,\"echo\":\"tok-c\"}") {
        InboundAction::ResolveMalformed { slot } => assert_eq!(slot, 3),
        _ => panic!("a malformed correlated frame must spend the entry"),
    }
    match session.on_text("{\"status\":\"ok\",\"retcode\":0,\"echo\":\"tok-c\"}") {
        InboundAction::UnknownToken { .. } => {},
        _ => panic!("the spent token must be gone"),
    }
}

#[test]
fn handshake_accepts_success_response() {
    match handshake("{\"status\":\"ok\",\"retcode\":200,\"echo\":\"h\"}") {
        HandshakeOutcome::Accepted => {},
        _ => panic!("a correlated success response must be accepted"),
    }
}

#[test]
fn handshake_rejects_failure_retcode() {
    match handshake("{\"status\":\"failed\",\"retcode\":1403,\"echo\":\"h\"}") {
        HandshakeOutcome::RejectedRetcode { retcode } => assert_eq!(retcode, 1403),
        _ => panic!("a non-success return code must reject the attempt"),
    }
}

#[test]
fn handshake_logs_identity_announcement() {
    match handshake("{\"post_type\":\"meta_event\",\"self_id\":99}") {
        HandshakeOutcome::Identity { self_id } => assert_eq!(self_id, Some(99)),
        _ => panic!("an uncorrelated first frame is an identity announcement"),
    }
}

#[test]
fn handshake_rejects_non_json() {
    match handshake("hello") {
        HandshakeOutcome::NotJson => {},
        _ => panic!("non-JSON text must fail the attempt"),
    }
}

#[test]
fn reconnect_never_gives_up() {
    let mut sup = Supervisor::new();
    for n in 0..1000u64 {
        assert_eq!(sup.retry, n);
        let delay = sup.next_attempt();
        assert_eq!(delay, RECONNECT_DELAY_SECS);
        assert_eq!(delay, 3);
    }
    // After N consecutive failures, attempt N + 1 still occurs.
    assert_eq!(sup.retry, 1000);
    assert_eq!(sup.next_attempt(), 3);
}

#[test]
fn fresh_tokens_have_the_documented_shape() {
    let a = kanami::proto::fresh_token();
    let b = kanami::proto::fresh_token();
    assert_eq!(a.chars().count(), 36);
    assert_eq!(b.chars().count(), 36);
    assert_ne!(a, b);
}

#[test]
fn request_with_empty_params_renders_empty_object() {
    let p = kanami::proto::Protocol::new();
    let req = p.send_request("get_status", JsonValue::Obj(Vec::new()));
    assert_eq!(req.action, "get_status");
    let mut session = Session::new();
    let echo = req.echo.clone();
    let text = session.submit(req, 0, 0);
    assert_eq!(
        text,
        format!("{{\"action\":\"get_status\",\"params\":{{}},\"echo\":\"{}\"}}", echo)
    );
}

#[test]
fn timeout_response_fields_are_exact() {
    let r: Response = kanami::frame::timeout_response("t-9".to_string());
    assert_eq!(r.status, "timeout");
    assert_eq!(r.retcode, -1);
    assert!(r.data.is_none());
    assert_eq!(r.message.as_deref(), Some("Request timeout"));
    assert_eq!(r.echo.as_deref(), Some("t-9"));
}

#[test]
fn response_decode_rejects_missing_fields() {
    let mut session = Session::new();
    let req = send_group_msg_request(1, group_hi_message(), "t".to_string());
    let _f = session.submit(req, 0, 0);
    // retcode out of range for i32: the correlated frame is malformed.
    match session.on_text("{\"status\":\"ok\",\"retcode\":999999999999,\"echo\":\"t\"}") {
        InboundAction::ResolveMalformed { .. } => {},
        _ => panic!("an oversized return code must not decode"),
    }
}

#[test]
fn segment_reply_insertion_quotes_the_original() {
    let m = Message::of_text("pong".to_string());
    let mut q = kanami::events::quoted(m, 42, true);
    assert_eq!(q.len(), 2);
    match q.get(0) {
        Segment::Reply { id } => assert_eq!(id, "42"),
        _ => panic!("the quoted reference must stand first"),
    }
    q.push(Segment::text("x".to_string()));
    assert_eq!(q.len(), 3);
    assert!(!q.is_empty());
}
