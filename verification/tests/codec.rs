// The wire codec on its own: exact rendering of JSON documents and
// message segments, decimal text, and the event decoders.

use kanami::json::int_to_string;
use kanami::json::render;
use kanami::json::uint_to_string;
use kanami::json::JsonValue;
use kanami::message::message_to_json;
use kanami::message::segment_to_json;
use kanami::message::Message;
use kanami::message::Segment;

#[test]
fn render_scalars_exactly() {
    assert_eq!(render(&JsonValue::Null), "null");
    assert_eq!(render(&JsonValue::Bool(true)), "true");
    assert_eq!(render(&JsonValue::Bool(false)), "false");
    assert_eq!(render(&JsonValue::Int(0)), "0");
    assert_eq!(render(&JsonValue::Int(-42)), "-42");
    assert_eq!(render(&JsonValue::Int(i64::MIN)), "-9223372036854775808");
    assert_eq!(render(&JsonValue::Int(i64::MAX)), "9223372036854775807");
}

#[test]
fn render_escapes_strings_as_the_parser_expects() {
    let s = JsonValue::Str("a\"b\\c\nd\te\r\u{08}\u{0c}\u{01}".to_string());
    assert_eq!(render(&s), "\"a\\\"b\\\\c\\nd\\te\\r\\b\\f\\u0001\"");
    // What the library renders, the parser reads back.
    let parsed: serde_json::Value = serde_json::from_str(&render(&s)).unwrap();
    assert_eq!(parsed.as_str(), Some("a\"b\\c\nd\te\r\u{08}\u{0c}\u{01}"));
}

#[test]
fn render_arrays_and_objects_in_order() {
    let v = JsonValue::Arr(vec![
        JsonValue::Int(1),
        JsonValue::Str("x".to_string()),
        JsonValue::Null,
    ]);
    assert_eq!(render(&v), "[1,\"x\",null]");
    let o = JsonValue::Obj(vec![
        ("a".to_string(), JsonValue::Int(1)),
        ("b".to_string(), JsonValue::Bool(false)),
    ]);
    assert_eq!(render(&o), "{\"a\":1,\"b\":false}");
    assert_eq!(render(&JsonValue::Obj(Vec::new())), "{}");
    assert_eq!(render(&JsonValue::Arr(Vec::new())), "[]");
}

#[test]
fn decimal_text_is_exact() {
    assert_eq!(uint_to_string(0), "0");
    assert_eq!(uint_to_string(907), "907");
    assert_eq!(int_to_string(-1), "-1");
    assert_eq!(int_to_string(1234567890123), "1234567890123");
}

#[test]
fn segment_wire_forms_are_exact() {
    let t = Segment::text("hi".to_string());
    assert_eq!(render(&segment_to_json(&t)), "{\"type\":\"text\",\"data\":{\"text\":\"hi\"}}");

    let img = Segment::image("a.png".to_string());
    assert_eq!(render(&segment_to_json(&img)), "{\"type\":\"image\",\"data\":{\"file\":\"a.png\"}}");

    assert_eq!(render(&segment_to_json(&Segment::Rps)), "{\"type\":\"rps\"}");

    let at = Segment::At { qq: "all".to_string() };
    assert_eq!(render(&segment_to_json(&at)), "{\"type\":\"at\",\"data\":{\"qq\":\"all\"}}");

    let anon = Segment::Anonymous { ignore: None };
    assert_eq!(render(&segment_to_json(&anon)), "{\"type\":\"anonymous\",\"data\":{}}");

    let full = Segment::Image {
        file: "f".to_string(),
        kind: Some("flash".to_string()),
        url: None,
        cache: Some(true),
        proxy: None,
        timeout: Some(9),
    };
    assert_eq!(
        render(&segment_to_json(&full)),
        "{\"type\":\"image\",\"data\":{\"file\":\"f\",\"type\":\"flash\",\"cache\":true,\"timeout\":9}}"
    );
}

#[test]
fn forward_node_nests_a_message() {
    let inner = Message(vec![Segment::text("in".to_string())]);
    let node = Segment::Node {
        id: None,
        user_id: Some("7".to_string()),
        nickname: Some("n".to_string()),
        content: Some(inner),
    };
    assert_eq!(
        render(&segment_to_json(&node)),
        "{\"type\":\"node\",\"data\":{\"user_id\":\"7\",\"nickname\":\"n\",\"content\":[{\"type\":\"text\",\"data\":{\"text\":\"in\"}}]}}"
    );
}

#[test]
fn message_renders_as_segment_array() {
    let m = Message(vec![
        Segment::text("a".to_string()),
        Segment::Face { id: "1".to_string() },
    ]);
    assert_eq!(
        render(&message_to_json(&m)),
        "[{\"type\":\"text\",\"data\":{\"text\":\"a\"}},{\"type\":\"face\",\"data\":{\"id\":\"1\"}}]"
    );
}

#[test]
fn plain_text_concatenates_text_segments_only() {
    let m = Message(vec![
        Segment::text("a".to_string()),
        Segment::image("x".to_string()),
        Segment::text("b".to_string()),
    ]);
    assert_eq!(m.plain_text(), "ab");
    assert_eq!(m.display_text(), "a[image:x]b");
}

#[test]
fn display_text_follows_the_console_forms() {
    assert_eq!(
        Segment::Reply { id: "9".to_string() }.display_text(),
        "[回复:9]"
    );
    assert_eq!(
        Segment::At { qq: "all".to_string() }.display_text(),
        "[@全体成员]"
    );
    assert_eq!(
        Segment::At { qq: "5".to_string() }.display_text(),
        "[@5]"
    );
    assert_eq!(Segment::Dice.display_text(), "[掷骰子]");
}

fn decode_event_text(text: &str) -> Option<kanami::events::Event> {
    let v: serde_json::Value = serde_json::from_str(text).unwrap();
    kanami::event_decode::decode_event(&v)
}

#[test]
fn group_message_event_decodes_fully() {
    let text = "{\"post_type\":\"message\",\"message_type\":\"group\",\"time\":10,\"self_id\":20,\
        \"sub_type\":\"normal\",\"message_id\":30,\"group_id\":40,\"user_id\":50,\
        \"anonymous\":null,\
        \"message\":[{\"type\":\"text\",\"data\":{\"text\":\"hey\"}},{\"type\":\"at\",\"data\":{\"qq\":\"50\"}}],\
        \"raw_message\":\"hey\",\"font\":0,\
        \"sender\":{\"user_id\":50,\"nickname\":\"nick\",\"role\":\"admin\"}}";
    match decode_event_text(text) {
        Some(kanami::events::Event::MessageEvent(kanami::events::MessageEvent::Group(g))) => {
            assert_eq!(g.base.time, 10);
            assert_eq!(g.base.self_id, 20);
            assert_eq!(g.sub_type, "normal");
            assert_eq!(g.message_id, 30);
            assert_eq!(g.group_id, 40);
            assert_eq!(g.user_id, 50);
            assert!(g.anonymous.is_none());
            assert_eq!(g.message.len(), 2);
            assert_eq!(g.raw_message, "hey");
            assert_eq!(g.sender.nickname, "nick");
            assert_eq!(g.sender.role.as_deref(), Some("admin"));
        },
        _ => panic!("a well-formed group message must decode"),
    }
}

#[test]
fn notice_event_decodes_by_discriminator() {
    let text = "{\"post_type\":\"notice\",\"notice_type\":\"group_ban\",\"time\":1,\"self_id\":2,\
        \"sub_type\":\"ban\",\"group_id\":3,\"operator_id\":4,\"user_id\":5,\"duration\":600}";
    match decode_event_text(text) {
        Some(kanami::events::Event::Notice(kanami::events::Notice::GroupBan(b))) => {
            assert!(matches!(b.sub_type, kanami::events::GroupBanType::Ban));
            assert_eq!(b.duration, 600);
        },
        _ => panic!("a well-formed notice must decode"),
    }
}

#[test]
fn request_event_decodes() {
    let text = "{\"post_type\":\"request\",\"request_type\":\"friend\",\"time\":1,\"self_id\":2,\
        \"user_id\":3,\"comment\":\"hello\",\"flag\":\"flag-1\"}";
    match decode_event_text(text) {
        Some(kanami::events::Event::RequestEvent(kanami::events::Request::Friend(f))) => {
            assert_eq!(f.comment, "hello");
            assert_eq!(f.flag, "flag-1");
        },
        _ => panic!("a well-formed request must decode"),
    }
}

#[test]
fn meta_event_heartbeat_decodes_with_opaque_status() {
    let text = "{\"post_type\":\"meta_event\",\"meta_event_type\":\"heartbeat\",\"time\":1,\
        \"self_id\":2,\"status\":{\"online\":true}}";
    match decode_event_text(text) {
        Some(kanami::events::Event::MetaEvent(kanami::events::MetaEvent::HeartBeat(h))) => {
            assert_eq!(h.status.get("online").and_then(|v| v.as_bool()), Some(true));
        },
        _ => panic!("a heartbeat must decode"),
    }
}

#[test]
fn event_with_wrong_field_type_is_refused() {
    // `user_id` as a string is not the documented shape.
    let text = "{\"post_type\":\"message\",\"message_type\":\"private\",\"time\":1,\"self_id\":2,\
        \"sub_type\":\"friend\",\"message_id\":3,\"user_id\":\"four\",\
        \"message\":[],\"raw_message\":\"\",\"font\":0,\
        \"sender\":{\"user_id\":4,\"nickname\":\"n\"}}";
    assert!(decode_event_text(text).is_none());
}

#[test]
fn unknown_segment_kind_refuses_the_message() {
    let text = "{\"post_type\":\"message\",\"message_type\":\"private\",\"time\":1,\"self_id\":2,\
        \"sub_type\":\"friend\",\"message_id\":3,\"user_id\":4,\
        \"message\":[{\"type\":\"hologram\",\"data\":{}}],\"raw_message\":\"\",\"font\":0,\
        \"sender\":{\"user_id\":4,\"nickname\":\"n\"}}";
    assert!(decode_event_text(text).is_none());
}

#[test]
fn message_round_trips_through_the_wire() {
    let original = Message(vec![
        Segment::text("look ".to_string()),
        Segment::Image {
            file: "f.png".to_string(),
            kind: None,
            url: Some("http://img".to_string()),
            cache: Some(false),
            proxy: None,
            timeout: None,
        },
        Segment::Reply { id: "7".to_string() },
        Segment::Shake,
    ]);
    let wire = render(&message_to_json(&original));
    let parsed: serde_json::Value = serde_json::from_str(&wire).unwrap();
    let back = kanami::event_decode::decode_message_value(&parsed, 128)
        .expect("what the library renders, it decodes");
    assert_eq!(back.len(), original.len());
    assert_eq!(back.plain_text(), original.plain_text());
    assert_eq!(back.display_text(), original.display_text());
    match back.get(1) {
        Segment::Image { file, url, cache, .. } => {
            assert_eq!(file, "f.png");
            assert_eq!(url.as_deref(), Some("http://img"));
            assert_eq!(*cache, Some(false));
        },
        _ => panic!("the image survives the round trip"),
    }
}
