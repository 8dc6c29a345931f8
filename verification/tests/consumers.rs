// The consumer layer: the fan-out report, and each consumer's decisions
// on concrete events.

use kanami::apps::dispatch_event;
use kanami::apps::dispatch_load;
use kanami::apps::BuiltinApp;
use kanami::apps::CatApp;
use kanami::apps::ChatCommand;
use kanami::apps::Directive;
use kanami::apps::GSCoreAdapter;
use kanami::apps::GatewayContext;
use kanami::apps::MuriApp;
use kanami::apps::PingApp;
use kanami::apps::Registry;
use kanami::apps::cron_jobs;
use kanami::chat::get_mime_type;
use kanami::chat::parse_command;
use kanami::chat::trim_text;
use kanami::chat::ChatApp;
use kanami::events::Event;
use kanami::events::EventBase;
use kanami::events::GroupMessage;
use kanami::events::GroupSender;
use kanami::events::MessageEvent;
use kanami::events::PrivateMessage;
use kanami::events::PrivateMessageType;
use kanami::events::PrivateSender;
use kanami::message::Message;
use kanami::message::Segment;

fn ctx() -> GatewayContext {
    GatewayContext {
        owner: 1000,
        main_group: 123,
        reminder_user: 2000,
        white_groups: vec![123],
        bridge_groups: vec![123],
        bridge_bot_id: "Bot".to_string(),
        node_sender_id: "10000".to_string(),
        node_sender_nickname: "gateway".to_string(),
        now_ms: 5_000,
        round_start_ms: 3_000,
    }
}

fn private_event(user_id: i64, text: &str) -> Event {
    Event::MessageEvent(MessageEvent::Private(PrivateMessage {
        base: EventBase { time: 1, self_id: 2 },
        sub_type: PrivateMessageType::Friend,
        message_id: 3,
        user_id,
        message: Message(vec![Segment::text(text.to_string())]),
        raw_message: text.to_string(),
        font: 0,
        sender: PrivateSender {
            user_id,
            nickname: "nick".to_string(),
            sex: None,
            age: None,
        },
    }))
}

fn group_event(group_id: i64, user_id: i64, text: &str) -> Event {
    Event::MessageEvent(MessageEvent::Group(GroupMessage {
        base: EventBase { time: 1, self_id: 2 },
        sub_type: "normal".to_string(),
        message_id: 3,
        group_id,
        user_id,
        anonymous: None,
        message: Message(vec![Segment::text(text.to_string())]),
        raw_message: text.to_string(),
        font: 0,
        sender: GroupSender {
            user_id,
            nickname: "nick".to_string(),
            card: None,
            sex: None,
            age: None,
            area: None,
            level: None,
            role: None,
            title: None,
        },
    }))
}

#[test]
fn every_consumer_receives_every_event() {
    let mut reg = Registry::new();
    let c = ctx();
    let reports = dispatch_event(&mut reg, &group_event(123, 5, "hello"), &c);
    assert_eq!(reports.len(), 6);
    let names: Vec<&str> = reports.iter().map(|r| r.0).collect();
    assert_eq!(names, ["builtin", "ping", "gscore adapter", "cat", "cron", "chat"]);
    // Whatever each consumer returned, every other consumer's outcome is
    // present: a failure of one removes nothing from the rest.
    for (_, outcome) in &reports {
        assert!(outcome.is_ok());
    }
    let load_reports = dispatch_load(&mut reg, &c);
    assert_eq!(load_reports.len(), 6);
}

#[test]
fn builtin_fetches_then_logs_group_names() {
    let mut reg = Registry::new();
    let c = ctx();
    let event = group_event(123, 5, "hello");
    let first = dispatch_event(&mut reg, &event, &c);
    match &first[0].1.as_ref().unwrap()[..] {
        [Directive::FetchGroupName { group_id }] => assert_eq!(*group_id, 123),
        _ => panic!("an unknown group asks for its name first"),
    }
    reg.builtin.note_group_name(123, "The Group".to_string());
    let second = dispatch_event(&mut reg, &event, &c);
    match &second[0].1.as_ref().unwrap()[..] {
        [Directive::Log { line }] => {
            assert_eq!(line, "The Group(123): nick(5) -> hello");
        },
        _ => panic!("a known group logs its line"),
    }
}

#[test]
fn builtin_logs_private_messages_directly() {
    let app = BuiltinApp::new();
    let plan = app.plan(&private_event(5, "hi"));
    match &plan[..] {
        [Directive::Log { line }] => assert_eq!(line, "nick(5) -> hi"),
        _ => panic!("a private message logs one line"),
    }
}

#[test]
fn ping_answers_the_owner_only() {
    let app = PingApp::new();
    let c = ctx();
    let owner_plan = app.plan(&private_event(1000, "ping"), &c);
    assert_eq!(owner_plan.len(), 1);
    match &owner_plan[0] {
        Directive::Submit { request } => {
            assert_eq!(request.action, "send_private_msg");
            let text = kanami::json::render(&request.params);
            assert!(text.contains("\"text\":\"pong\""), "got {}", text);
            assert!(text.contains("\"type\":\"reply\""), "got {}", text);
        },
        _ => panic!("the owner's ping gets a quoted pong"),
    }
    let stranger_plan = app.plan(&private_event(9, "ping"), &c);
    assert_eq!(stranger_plan.len(), 0);
}

#[test]
fn ping_reports_round_time() {
    let app = PingApp::new();
    let c = ctx();
    let plan = app.plan(&private_event(9, "!perf"), &c);
    assert_eq!(plan.len(), 1);
    match &plan[0] {
        Directive::Submit { request } => {
            let text = kanami::json::render(&request.params);
            assert!(text.contains("\"text\":\"tpr: 2000ms\""), "got {}", text);
        },
        _ => panic!("the perf probe replies with the round time"),
    }
}

#[test]
fn fortune_table_answers_from_its_list() {
    let app = MuriApp::new();
    let plan = app.plan(&private_event(5, "中午吃啥"));
    assert_eq!(plan.len(), 1);
    match &plan[0] {
        Directive::Submit { request } => {
            assert_eq!(request.action, "send_private_msg");
            let text = kanami::json::render(&request.params);
            // One of the configured lunches, never a quote.
            assert!(!text.contains("\"type\":\"reply\""));
        },
        _ => panic!("a trigger phrase draws one reply"),
    }
    assert_eq!(app.plan(&private_event(5, "别的话")).len(), 0);
}

#[test]
fn cat_consumer_counts_meows_inside_the_list() {
    let app = CatApp::new();
    let c = ctx();
    match &app.plan(&group_event(123, 5, "喵喵喵喵喵"), &c)[..] {
        [Directive::FetchCatImages { fetch, want }] => {
            assert_eq!(*fetch, 3);
            assert_eq!(*want, 5);
        },
        _ => panic!("five meows fetch three images and want five"),
    }
    // Outside the listed groups nothing happens.
    assert_eq!(app.plan(&group_event(999, 5, "喵"), &c).len(), 0);
    // Without a meow nothing happens.
    assert_eq!(app.plan(&group_event(123, 5, "hello"), &c).len(), 0);
}

#[test]
fn cat_reply_takes_at_most_the_wanted_images() {
    let urls = vec!["a".to_string(), "b".to_string()];
    let m = CatApp::cat_images_message(&urls, 5);
    assert_eq!(m.len(), 2);
    let m2 = CatApp::cat_images_message(&urls, 1);
    assert_eq!(m2.len(), 1);
    match m2.get(0) {
        Segment::Image { file, .. } => assert_eq!(file, "a"),
        _ => panic!("images in order"),
    }
}

#[test]
fn bridge_adapter_forwards_only_when_connected_and_enabled() {
    let mut app = GSCoreAdapter::new();
    let c = ctx();
    let event = group_event(123, 5, "hey");
    assert_eq!(app.plan(&event, &c).len(), 0);
    app.note_connected();
    match &app.plan(&event, &c)[..] {
        [Directive::BridgeSend { frame }] => {
            assert!(frame.starts_with("{\"bot_id\":\"Bot\""), "got {}", frame);
        },
        _ => panic!("a connected bridge forwards the event"),
    }
    // A group outside the enabled list is not forwarded.
    assert_eq!(app.plan(&group_event(999, 5, "hey"), &c).len(), 0);
    // A send failure forgets the connection and asks for a restart.
    match app.on_send_failure() {
        Directive::BridgeRestart => {},
        _ => panic!("a send failure restarts the bridge"),
    }
    assert_eq!(app.plan(&event, &c).len(), 0);
}

#[test]
fn chat_gates_commands_and_rate() {
    let mut app = ChatApp::new();
    let c = ctx();
    // A non-command says nothing.
    assert_eq!(kanami::apps::chat_plan(&mut app, &private_event(5, "hello"), &c).len(), 0);
    // The switch command obeys the owner gate.
    assert_eq!(
        kanami::apps::chat_plan(&mut app, &private_event(5, "!switch gpt"), &c).len(),
        0
    );
    match &kanami::apps::chat_plan(&mut app, &private_event(1000, "!switch gpt"), &c)[..] {
        [Directive::ChatPrompt { command, user_id, prompt, images }] => {
            assert!(matches!(command, ChatCommand::SwitchModel));
            assert_eq!(*user_id, 1000);
            assert_eq!(prompt, "gpt");
            assert!(images.is_empty());
        },
        _ => panic!("the owner may switch"),
    }
    // An empty ask is dropped, though it still counts against the window.
    assert_eq!(kanami::apps::chat_plan(&mut app, &private_event(5, "!ai"), &c).len(), 0);
    // Two more asks pass; the fourth request in the window is refused.
    for _ in 0..2 {
        match &kanami::apps::chat_plan(&mut app, &private_event(5, "!ai hi"), &c)[..] {
            [Directive::ChatPrompt { command, prompt, .. }] => {
                assert!(matches!(command, ChatCommand::Ask));
                assert_eq!(prompt, "hi");
            },
            _ => panic!("an ask inside the limit goes through"),
        }
    }
    match &kanami::apps::chat_plan(&mut app, &private_event(5, "!ai hi"), &c)[..] {
        [Directive::Submit { .. }] => {},
        _ => panic!("the fourth ask inside the window is refused with a notice"),
    }
    // The history-keeping ask is distinguished.
    match &kanami::apps::chat_plan(&mut app, &private_event(6, "!aip talk"), &c)[..] {
        [Directive::ChatPrompt { command, .. }] => {
            assert!(matches!(command, ChatCommand::AskWithHistory));
        },
        _ => panic!("a history ask goes through for another user"),
    }
}

#[test]
fn chat_rate_window_forgets_old_requests() {
    let mut app = ChatApp::new();
    assert!(app.check_rate_limit(5, 0));
    assert!(app.check_rate_limit(5, 1));
    assert!(app.check_rate_limit(5, 2));
    assert!(!app.check_rate_limit(5, 3));
    // Sixty seconds later the window is clear again.
    assert!(app.check_rate_limit(5, 62));
}

#[test]
fn command_parsing_trims_and_splits() {
    assert_eq!(trim_text("  a b  "), "a b");
    assert_eq!(trim_text("\t\n"), "");
    let (cmd, prompt) = parse_command(&"  !ai   tell me  ".to_string());
    assert_eq!(cmd, "!ai");
    assert_eq!(prompt, "tell me");
    let (cmd2, prompt2) = parse_command(&"!switch".to_string());
    assert_eq!(cmd2, "!switch");
    assert_eq!(prompt2, "");
}

#[test]
fn mime_type_follows_the_extension() {
    assert_eq!(get_mime_type(&"a.png".to_string()), "image/png");
    assert_eq!(get_mime_type(&"a.b.jpg".to_string()), "image/jpeg");
    assert_eq!(get_mime_type(&"x.jpeg".to_string()), "image/jpeg");
    assert_eq!(get_mime_type(&"x.gif".to_string()), "image/gif");
    assert_eq!(get_mime_type(&"x.webp".to_string()), "image/webp");
    assert_eq!(get_mime_type(&"archive.zip".to_string()), "application/octet-stream");
    assert_eq!(get_mime_type(&"noext".to_string()), "application/octet-stream");
}

#[test]
fn chat_extracts_prompt_and_images() {
    let segs = vec![
        Segment::text("!ai look ".to_string()),
        Segment::Image {
            file: "f.png".to_string(),
            kind: None,
            url: Some("http://img".to_string()),
            cache: None,
            proxy: None,
            timeout: None,
        },
        Segment::text("now".to_string()),
    ];
    let (text, images) = kanami::chat::extract_text_and_images(&segs);
    assert_eq!(text, "!ai look now");
    assert_eq!(images.len(), 1);
    assert_eq!(images[0].0, "f.png");
    assert_eq!(images[0].1, "http://img");
}

#[test]
fn scheduled_announcements_are_the_configured_three() {
    let c = ctx();
    let jobs = cron_jobs(&c);
    assert_eq!(jobs.len(), 3);
    assert_eq!(jobs[0].schedule, "0 0 0 * * 5");
    assert_eq!(jobs[0].group_id, Some(123));
    assert_eq!(jobs[0].text, "周五啦！");
    assert_eq!(jobs[1].schedule, "0 0 0 * * 1");
    assert_eq!(jobs[1].text, "周一啦！");
    assert_eq!(jobs[2].schedule, "0 0 13 * * *");
    assert_eq!(jobs[2].user_id, Some(2000));
    assert_eq!(jobs[2].text, "晚上好！今天记得打卡哦~");
}

#[test]
fn fortune_reply_is_always_from_the_configured_list() {
    // The draw is random: whatever index comes back, the reply must be
    // one of the configured lunches.
    let app = MuriApp::new();
    for _ in 0..20 {
        let plan = app.plan(&private_event(5, "我想吃牡蛎"));
        assert_eq!(plan.len(), 1);
        match &plan[0] {
            Directive::Submit { request } => {
                let text = kanami::json::render(&request.params);
                assert!(text.contains("牡蛎") || text.contains("生蚝"), "got {}", text);
            },
            _ => panic!("a trigger phrase draws one reply"),
        }
    }
}
