// The downstream bridge: translation of primary events into secondary
// packets, their exact binary-frame text, and the inbound command path.

use kanami::events::EventBase;
use kanami::events::GroupMessage;
use kanami::events::GroupSender;
use kanami::events::MessageEvent;
use kanami::gscore::decode_message_send;
use kanami::gscore::encode_message_receive;
use kanami::gscore::message_receive_from;
use kanami::gscore::parse_i64;
use kanami::gscore::plan_message_send;
use kanami::gscore::BridgePlan;
use kanami::gscore::GSCoreMessage;
use kanami::gscore::MessageSend;
use kanami::gscore::TargetType;
use kanami::message::Message;
use kanami::message::Segment;

fn group_event(text: &str) -> MessageEvent {
    MessageEvent::Group(GroupMessage {
        base: EventBase { time: 1, self_id: 777 },
        sub_type: "normal".to_string(),
        message_id: 42,
        group_id: 123,
        user_id: 456,
        anonymous: None,
        message: Message(vec![
            Segment::text(text.to_string()),
            Segment::Rps,
        ]),
        raw_message: text.to_string(),
        font: 0,
        sender: GroupSender {
            user_id: 456,
            nickname: "nick".to_string(),
            card: None,
            sex: None,
            age: None,
            area: None,
            level: None,
            role: Some("owner".to_string()),
            title: None,
        },
    })
}

#[test]
fn bridge_packet_carries_the_event() {
    let mr = message_receive_from(&group_event("hey"), "Bot");
    assert_eq!(mr.bot_id, "Bot");
    assert_eq!(mr.bot_self_id, "777");
    assert_eq!(mr.msg_id, "42");
    assert!(matches!(mr.user_type, TargetType::Group));
    assert_eq!(mr.group_id.as_deref(), Some("123"));
    assert_eq!(mr.user_id, "456");
    assert_eq!(mr.sender.nickname, "nick");
    assert_eq!(
        mr.sender.avatar,
        "http://q.qlogo.cn/headimg_dl?dst_uin=456&spec=640&img_type=jpg"
    );
    assert_eq!(mr.user_pm, 2);
    assert_eq!(mr.content.len(), 2);
    match &mr.content[0] {
        GSCoreMessage::Text(t) => assert_eq!(t, "hey"),
        _ => panic!("text must carry over"),
    }
    match &mr.content[1] {
        GSCoreMessage::Text(t) => assert_eq!(t, "<unsupp: rps>"),
        _ => panic!("an uncarried kind becomes a placeholder"),
    }
}

#[test]
fn bridge_packet_frame_text_is_exact() {
    let mr = message_receive_from(&group_event("hey"), "Bot");
    let frame = encode_message_receive(&mr);
    assert_eq!(
        frame,
        "{\"bot_id\":\"Bot\",\"bot_self_id\":\"777\",\"msg_id\":\"42\",\"user_type\":\"group\",\
         \"group_id\":\"123\",\"user_id\":\"456\",\
         \"sender\":{\"nickname\":\"nick\",\"avatar\":\"http://q.qlogo.cn/headimg_dl?dst_uin=456&spec=640&img_type=jpg\"},\
         \"user_pm\":2,\
         \"content\":[{\"type\":\"text\",\"data\":\"hey\"},{\"type\":\"text\",\"data\":\"<unsupp: rps>\"}]}"
    );
    // And the secondary side can read it back.
    let v: serde_json::Value = serde_json::from_str(&frame).unwrap();
    assert_eq!(v.get("user_pm").and_then(|x| x.as_i64()), Some(2));
}

fn decode_send(text: &str) -> Option<MessageSend> {
    let v: serde_json::Value = serde_json::from_str(text).unwrap();
    decode_message_send(&v)
}

#[test]
fn inbound_command_decodes() {
    let text = "{\"bot_id\":\"b\",\"bot_self_id\":\"777\",\"msg_id\":\"m\",\
        \"target_type\":\"group\",\"target_id\":\"123\",\
        \"content\":[{\"type\":\"text\",\"data\":\"out\"}]}";
    let ms = decode_send(text).expect("a well-formed command must decode");
    assert!(matches!(ms.target_type, Some(TargetType::Group)));
    assert_eq!(ms.target_id.as_deref(), Some("123"));
    assert_eq!(ms.content.as_ref().map(|c| c.len()), Some(1));
}

#[test]
fn inbound_command_with_unknown_target_kind_is_refused() {
    let text = "{\"bot_id\":\"b\",\"bot_self_id\":\"777\",\"msg_id\":\"m\",\
        \"target_type\":\"galaxy\",\"target_id\":\"123\",\"content\":[]}";
    assert!(decode_send(text).is_none());
}

#[test]
fn plan_drops_diagnostic_content() {
    let text = "{\"bot_id\":\"b\",\"bot_self_id\":\"777\",\"msg_id\":\"m\",\
        \"content\":[{\"type\":\"log\",\"data\":\"booted\"}]}";
    let ms = decode_send(text).unwrap();
    match plan_message_send(ms, "10000", "gateway") {
        BridgePlan::LogLine { text } => assert_eq!(text, "booted"),
        _ => panic!("a diagnostic payload is logged and dropped"),
    }
}

#[test]
fn plan_without_content_does_nothing() {
    let text = "{\"bot_id\":\"b\",\"bot_self_id\":\"777\",\"msg_id\":\"m\"}";
    let ms = decode_send(text).unwrap();
    assert!(matches!(plan_message_send(ms, "1", "n"), BridgePlan::Empty));
}

#[test]
fn plan_without_target_is_an_error() {
    let text = "{\"bot_id\":\"b\",\"bot_self_id\":\"777\",\"msg_id\":\"m\",\
        \"content\":[{\"type\":\"text\",\"data\":\"x\"}]}";
    let ms = decode_send(text).unwrap();
    assert!(matches!(plan_message_send(ms, "1", "n"), BridgePlan::MissingTarget));
}

#[test]
fn plan_with_unparsable_target_is_an_error() {
    let text = "{\"bot_id\":\"b\",\"bot_self_id\":\"777\",\"msg_id\":\"m\",\
        \"target_type\":\"group\",\"target_id\":\"12x\",\
        \"content\":[{\"type\":\"text\",\"data\":\"x\"}]}";
    let ms = decode_send(text).unwrap();
    assert!(matches!(plan_message_send(ms, "1", "n"), BridgePlan::MissingTarget));
}

#[test]
fn plan_sends_plain_content_directly() {
    let text = "{\"bot_id\":\"b\",\"bot_self_id\":\"777\",\"msg_id\":\"m\",\
        \"target_type\":\"direct\",\"target_id\":\"456\",\
        \"content\":[{\"type\":\"markdown\",\"data\":\"**hi**\"}]}";
    let ms = decode_send(text).unwrap();
    match plan_message_send(ms, "1", "n") {
        BridgePlan::Send { group, target, message, forward } => {
            assert!(!group);
            assert_eq!(target, 456);
            assert!(!forward);
            assert_eq!(message.len(), 1);
            match message.get(0) {
                Segment::Text { text } => assert_eq!(text, "**hi**"),
                _ => panic!("markdown travels as text"),
            }
        },
        _ => panic!("plain content becomes a direct send"),
    }
}

#[test]
fn plan_batches_forward_nodes() {
    let text = "{\"bot_id\":\"b\",\"bot_self_id\":\"777\",\"msg_id\":\"m\",\
        \"target_type\":\"group\",\"target_id\":\"123\",\
        \"content\":[{\"type\":\"node\",\"data\":[{\"type\":\"text\",\"data\":\"a\"},{\"type\":\"image\",\"data\":\"u\"}]}]}";
    let ms = decode_send(text).unwrap();
    match plan_message_send(ms, "10000", "gw") {
        BridgePlan::Send { group, target, message, forward } => {
            assert!(group);
            assert_eq!(target, 123);
            assert!(forward);
            assert_eq!(message.len(), 2);
            match message.get(0) {
                Segment::Node { id, user_id, nickname, content } => {
                    assert!(id.is_none());
                    assert_eq!(user_id.as_deref(), Some("10000"));
                    assert_eq!(nickname.as_deref(), Some("gw"));
                    let inner = content.as_ref().unwrap();
                    assert_eq!(inner.len(), 1);
                    match inner.get(0) {
                        Segment::Text { text } => assert_eq!(text, "a"),
                        _ => panic!("the node wraps its part"),
                    }
                },
                _ => panic!("forward content becomes node segments"),
            }
        },
        _ => panic!("node content becomes a batched forward"),
    }
}

#[test]
fn parse_i64_accepts_what_the_standard_parser_accepts() {
    assert_eq!(parse_i64("0"), Some(0));
    assert_eq!(parse_i64("123"), Some(123));
    assert_eq!(parse_i64("-123"), Some(-123));
    assert_eq!(parse_i64("+7"), Some(7));
    assert_eq!(parse_i64("9223372036854775807"), Some(i64::MAX));
    assert_eq!(parse_i64("-9223372036854775808"), Some(i64::MIN));
    assert_eq!(parse_i64("9223372036854775808"), None);
    assert_eq!(parse_i64("-9223372036854775809"), None);
    assert_eq!(parse_i64(""), None);
    assert_eq!(parse_i64("-"), None);
    assert_eq!(parse_i64("12x"), None);
    assert_eq!(parse_i64(" 12"), None);
    // The same cases through the standard parser agree.
    for s in ["0", "123", "-123", "+7", "9223372036854775808", "12x", ""] {
        assert_eq!(parse_i64(s), s.parse::<i64>().ok(), "case {:?}", s);
    }
}
