//! The consumer layer: the fixed registry of pluggable consumers, the
//! directives they hand back to the shell that runs them, and the event
//! fan-out that delivers every decoded event to every consumer.

use crate::chat::ChatApp;
use crate::events::Event;
use crate::events::GroupMessage;
use crate::events::MessageEvent;
use crate::events::PrivateMessage;
use crate::frame::Request;
use crate::json::int_text;
use crate::json::int_to_string;
use crate::json::json_text;
use crate::json::fld_str;
use crate::message::Message;
use crate::message::Segment;
use crate::message::msg_display;
use crate::message::segment_text;
use crate::message::segs_text_from;
use crate::message::tagged;
use crate::events::reply_seg_text;
use vstd::prelude::*;
use vstd::string::StrSliceExecFns;
use vstd::string::StringExecFns;

verus! {

/// The configuration and clock snapshot the shell hands to every
/// dispatch: read once at startup, plus the two instants the perf probe
/// compares.
pub struct GatewayContext {
    pub owner: i64,
    pub main_group: i64,
    pub reminder_user: i64,
    pub white_groups: Vec<i64>,
    pub bridge_groups: Vec<i64>,
    pub bridge_bot_id: String,
    pub node_sender_id: String,
    pub node_sender_nickname: String,
    pub now_ms: u64,
    pub round_start_ms: u64,
}

/// Which chat exchange a prompt asks for.
#[derive(PartialEq, Eq, Structural)]
pub enum ChatCommand {
    /// A one-shot exchange with a fresh history.
    Ask,
    /// An exchange appended to the user's running history.
    AskWithHistory,
    /// Switch or show the served model; the owner alone may ask.
    SwitchModel,
}

/// What a consumer asks the shell to do; the shell performs these
/// outside the library.
pub enum Directive {
    /// Print one console line.
    Log { line: String },
    /// Queue one correlated request on the primary connection.
    Submit { request: Request },
    /// Look a group's name up, then hand it back through
    /// `BuiltinApp::note_group_name`.
    FetchGroupName { group_id: i64 },
    /// Fetch up to `fetch` cat images, then reply with up to `want` of
    /// them through `cat_images_message`.
    FetchCatImages { fetch: usize, want: usize },
    /// Transmit one binary frame of JSON text on the bridge.
    BridgeSend { frame: String },
    /// (Re)open the bridge connection.
    BridgeRestart,
    /// Run one chat exchange for `user_id` with the given prompt and
    /// images.
    ChatPrompt { command: ChatCommand, user_id: i64, prompt: String, images: Vec<(String, String)> },
}

/// A pluggable consumer: named, loaded once per session, and handed
/// every decoded event.
pub trait Application {
    fn name(&self) -> (r: &'static str);

    fn on_load(&mut self, ctx: &GatewayContext) -> (r: Result<Vec<Directive>, String>);

    fn on_event(&mut self, event: &Event, ctx: &GatewayContext) -> (r: Result<
        Vec<Directive>,
        String,
    >);
}

/// Whether a group is listed.
pub fn contains_i64(v: &Vec<i64>, x: i64) -> (r: bool)
    ensures
        r == v@.contains(x),
{
    let n = v.len();
    let mut i: usize = 0;
    while i < n
        invariant
            n == v@.len(),
            i <= n,
            forall|j: int| 0 <= j < i ==> v@[j] != x,
        decreases n - i,
    {
        if v[i] == x {
            assert(v@[i as int] == x);
            return true;
        }
        i = i + 1;
    }
    false
}

/// The wire text of a one-part plain-text message.
pub open spec fn single_text_message_text(s: Seq<char>) -> Seq<char> {
    seq!['['] + tagged("text"@, fld_str("text"@, s)) + seq![']']
}

/// The wire text of a quoted one-part plain-text reply.
pub open spec fn quoted_single_text(mid: i32, s: Seq<char>) -> Seq<char> {
    seq!['['] + reply_seg_text(mid) + seq![','] + tagged("text"@, fld_str("text"@, s)) + seq![']']
}

/// The parameter text of the reply that sends plain text `s` back to
/// the sender of `me`, quoting the original.
pub open spec fn quoted_text_reply_params(me: MessageEvent, s: Seq<char>) -> Seq<char> {
    match me {
        MessageEvent::Private(p) => crate::proto::send_private_params_text(
            p.user_id,
            quoted_single_text(p.message_id, s),
        ),
        MessageEvent::Group(g) => crate::proto::send_group_params_text(
            g.group_id,
            quoted_single_text(g.message_id, s),
        ),
    }
}

/// The parameter text of the unquoted plain-text reply.
pub open spec fn plain_text_reply_params(me: MessageEvent, s: Seq<char>) -> Seq<char> {
    match me {
        MessageEvent::Private(p) => crate::proto::send_private_params_text(
            p.user_id,
            single_text_message_text(s),
        ),
        MessageEvent::Group(g) => crate::proto::send_group_params_text(
            g.group_id,
            single_text_message_text(s),
        ),
    }
}

/// Builds the quoted plain-text reply to a message event.
pub fn text_reply(me: &MessageEvent, s: String, quote: bool) -> (r: Request)
    ensures
        r.echo@.len() == 36,
        json_text(r.params) == if quote {
            quoted_text_reply_params(*me, s@)
        } else {
            plain_text_reply_params(*me, s@)
        },
        match *me {
            MessageEvent::Private(_) => r.action@ == "send_private_msg"@,
            MessageEvent::Group(_) => r.action@ == "send_group_msg"@,
        },
{
    let ghost sv = s@;
    let msg = Message::of_text(s);
    proof {
        let seg = msg.0@[0];
        assert(segs_text_from(msg.0@, 0) == segment_text(seg));
        assert(segment_text(seg) == tagged("text"@, fld_str("text"@, sv)));
        match me {
            MessageEvent::Private(p) => {
                if quote {
                    assert(crate::events::quoted_message_text(msg, p.message_id, true)
                        =~= quoted_single_text(p.message_id, sv));
                } else {
                    assert(crate::events::quoted_message_text(msg, p.message_id, false)
                        =~= single_text_message_text(sv));
                }
            },
            MessageEvent::Group(g) => {
                if quote {
                    assert(crate::events::quoted_message_text(msg, g.message_id, true)
                        =~= quoted_single_text(g.message_id, sv));
                } else {
                    assert(crate::events::quoted_message_text(msg, g.message_id, false)
                        =~= single_text_message_text(sv));
                }
            },
        }
    }
    me.reply_request(msg, quote, crate::proto::fresh_token())
}

/// The group names one session has learned, keyed by group.
pub struct BuiltinApp {
    group_map: Vec<(i64, String)>,
}

/// The name recorded for a group, if any.
pub open spec fn group_name_of(m: Seq<(i64, String)>, group_id: i64) -> Option<Seq<char>>
    decreases m.len(),
{
    if m.len() == 0 {
        None
    } else if m.first().0 == group_id {
        Some(m.first().1@)
    } else {
        group_name_of(m.drop_first(), group_id)
    }
}

/// The console line for a received group message:
/// `name(group): nick(user) -> message`.
pub open spec fn group_line_text(g: GroupMessage, name: Seq<char>) -> Seq<char> {
    name + "("@ + int_text(g.group_id as int) + "): "@ + g.sender.nickname@ + "("@ + int_text(
        g.user_id as int,
    ) + ") -> "@ + msg_display(g.message.0@)
}

/// The console line for a received private message:
/// `nick(user) -> message`.
pub open spec fn private_line_text(p: PrivateMessage) -> Seq<char> {
    p.sender.nickname@ + "("@ + int_text(p.user_id as int) + ") -> "@ + msg_display(p.message.0@)
}

impl BuiltinApp {
    /// The name this session has learned for a group, if any.
    pub closed spec fn known_group_name(self, group_id: i64) -> Option<Seq<char>> {
        group_name_of(self.group_map@, group_id)
    }

    /// The console-logging consumer, with nothing learned yet.
    pub fn new() -> (a: BuiltinApp)
        ensures
            forall|g: i64| a.known_group_name(g) is None,
    {
        let a = BuiltinApp { group_map: Vec::new() };
        proof {
            assert(a.group_map@.len() == 0);
        }
        a
    }

    /// The cached name of a group, if this session has learned it.
    pub fn lookup(&self, group_id: i64) -> (r: Option<&String>)
        ensures
            match r {
                Some(s) => self.known_group_name(group_id) == Some(s@),
                None => self.known_group_name(group_id) is None,
            },
    {
        let n = self.group_map.len();
        let mut i: usize = 0;
        while i < n
            invariant
                n == self.group_map@.len(),
                i <= n,
                forall|j: int| 0 <= j < i ==> (#[trigger] self.group_map@[j]).0 != group_id,
            decreases n - i,
        {
            if self.group_map[i].0 == group_id {
                proof {
                    lemma_group_name_at(self.group_map@, i as int);
                }
                return Some(&self.group_map[i].1);
            }
            i = i + 1;
        }
        proof {
            lemma_group_name_absent(self.group_map@, group_id);
        }
        None
    }

    /// Records a fetched group name; a later lookup finds it.
    pub fn note_group_name(&mut self, group_id: i64, name: String)
        ensures
            final(self).known_group_name(group_id) == Some(name@),
    {
        self.group_map.insert(0, (group_id, name));
        proof {
            assert(self.group_map@.first().0 == group_id);
        }
    }

    /// The console line for a group message under a known group name.
    pub fn group_log_line(g: &GroupMessage, name: &String) -> (r: String)
        ensures
            r@ == group_line_text(*g, name@),
    {
        let mut out = String::new();
        out.append(name.as_str());
        out.append("(");
        let gid = int_to_string(g.group_id);
        out.append(gid.as_str());
        out.append("): ");
        out.append(g.sender.nickname.as_str());
        out.append("(");
        let uid = int_to_string(g.user_id);
        out.append(uid.as_str());
        out.append(") -> ");
        let disp = g.message.display_text();
        out.append(disp.as_str());
        out
    }

    /// The console line for a private message.
    pub fn private_log_line(p: &PrivateMessage) -> (r: String)
        ensures
            r@ == private_line_text(*p),
    {
        let mut out = String::new();
        out.append(p.sender.nickname.as_str());
        out.append("(");
        let uid = int_to_string(p.user_id);
        out.append(uid.as_str());
        out.append(") -> ");
        let disp = p.message.display_text();
        out.append(disp.as_str());
        out
    }

    /// What one event asks of the logger: a finished line for a known
    /// sender, or the group-name fetch that precedes one.
    pub fn plan(&self, event: &Event) -> (r: Vec<Directive>)
        ensures
            match *event {
                Event::MessageEvent(MessageEvent::Group(ref g)) => {
                    match self.known_group_name(g.group_id) {
                        Some(name) => r@.len() == 1 && (r@[0] matches Directive::Log { line }
                            && line@ == group_line_text(*g, name)),
                        None => r@.len() == 1 && r@[0] == (Directive::FetchGroupName {
                            group_id: g.group_id,
                        }),
                    }
                },
                Event::MessageEvent(MessageEvent::Private(ref p)) => r@.len() == 1 && (r@[0]
                    matches Directive::Log { line } && line@ == private_line_text(*p)),
                _ => r@.len() == 0,
            },
    {
        let mut out: Vec<Directive> = Vec::new();
        match event {
            Event::MessageEvent(MessageEvent::Group(g)) => {
                match self.lookup(g.group_id) {
                    Some(name) => {
                        let line = BuiltinApp::group_log_line(g, name);
                        out.push(Directive::Log { line });
                    },
                    None => {
                        out.push(Directive::FetchGroupName { group_id: g.group_id });
                    },
                }
            },
            Event::MessageEvent(MessageEvent::Private(p)) => {
                let line = BuiltinApp::private_log_line(p);
                out.push(Directive::Log { line });
            },
            _ => {},
        }
        out
    }
}

/// A lookup hit is the recorded name.
proof fn lemma_group_name_at(m: Seq<(i64, String)>, i: int)
    requires
        0 <= i < m.len(),
        forall|j: int| 0 <= j < i ==> (#[trigger] m[j]).0 != m[i].0,
    ensures
        group_name_of(m, m[i].0) == Some(m[i].1@),
    decreases m.len(),
{
    if i > 0 {
        assert(m.drop_first()[i - 1] == m[i]);
        assert forall|j: int| 0 <= j < i - 1 implies (#[trigger] m.drop_first()[j]).0
            != m.drop_first()[i - 1].0 by {
            assert(m.drop_first()[j] == m[j + 1]);
        }
        lemma_group_name_at(m.drop_first(), i - 1);
    }
}

/// A group with no entry has no recorded name.
proof fn lemma_group_name_absent(m: Seq<(i64, String)>, group_id: i64)
    requires
        forall|j: int| 0 <= j < m.len() ==> (#[trigger] m[j]).0 != group_id,
    ensures
        group_name_of(m, group_id) is None,
    decreases m.len(),
{
    if m.len() > 0 {
        assert forall|j: int| 0 <= j < m.drop_first().len() implies (
        #[trigger] m.drop_first()[j]).0 != group_id by {
            assert(m.drop_first()[j] == m[j + 1]);
        }
        lemma_group_name_absent(m.drop_first(), group_id);
    }
}

impl Application for BuiltinApp {
    fn name(&self) -> (r: &'static str) {
        "builtin"
    }

    fn on_load(&mut self, ctx: &GatewayContext) -> (r: Result<Vec<Directive>, String>) {
        Ok(Vec::new())
    }

    fn on_event(&mut self, event: &Event, ctx: &GatewayContext) -> (r: Result<
        Vec<Directive>,
        String,
    >) {
        Ok(self.plan(event))
    }
}

/// The liveness probe.
pub struct PingApp {}

impl PingApp {
    /// A fresh probe.
    pub fn new() -> (a: PingApp) {
        PingApp {}
    }

    /// What one event asks of the probe: `pong` for the owner's ping,
    /// and the time since the round started for the perf probe.
    pub fn plan(&self, event: &Event, ctx: &GatewayContext) -> (r: Vec<Directive>)
        ensures
            match *event {
                Event::MessageEvent(ref me) => {
                    let raw = match *me {
                        MessageEvent::Private(ref p) => p.raw_message@,
                        MessageEvent::Group(ref g) => g.raw_message@,
                    };
                    let uid = match *me {
                        MessageEvent::Private(ref p) => p.user_id,
                        MessageEvent::Group(ref g) => g.user_id,
                    };
                    let pong = uid == ctx.owner && raw == "ping"@;
                    let perf = raw == "!perf"@;
                    let dur = if ctx.now_ms >= ctx.round_start_ms {
                        (ctx.now_ms - ctx.round_start_ms) as u64
                    } else {
                        0u64
                    };
                    &&& r@.len() == (if pong { 1int } else { 0int }) + (if perf { 1int } else { 0int })
                    &&& (pong ==> (r@[0] matches Directive::Submit { request }
                        && request.echo@.len() == 36 && json_text(request.params)
                        == quoted_text_reply_params(*me, "pong"@)))
                    &&& (perf ==> (r@[r@.len() - 1] matches Directive::Submit { request }
                        && request.echo@.len() == 36 && json_text(request.params)
                        == quoted_text_reply_params(
                        *me,
                        "tpr: "@ + crate::json::dec_digits(dur as nat) + "ms"@,
                    )))
                },
                _ => r@.len() == 0,
            },
    {
        let mut out: Vec<Directive> = Vec::new();
        match event {
            Event::MessageEvent(me) => {
                let raw = me.raw_message();
                if me.user_id() == ctx.owner && crate::event_decode::str_is(raw, "ping") {
                    let request = text_reply(me, "pong".to_owned(), true);
                    out.push(Directive::Submit { request });
                }
                if crate::event_decode::str_is(raw, "!perf") {
                    let dur: u64 = if ctx.now_ms >= ctx.round_start_ms {
                        ctx.now_ms - ctx.round_start_ms
                    } else {
                        0
                    };
                    let mut text = String::new();
                    text.append("tpr: ");
                    let d = crate::json::uint_to_string(dur);
                    text.append(d.as_str());
                    text.append("ms");
                    let request = text_reply(me, text, true);
                    out.push(Directive::Submit { request });
                }
            },
            _ => {},
        }
        out
    }
}

impl Application for PingApp {
    fn name(&self) -> (r: &'static str) {
        "ping"
    }

    fn on_load(&mut self, ctx: &GatewayContext) -> (r: Result<Vec<Directive>, String>) {
        Ok(Vec::new())
    }

    fn on_event(&mut self, event: &Event, ctx: &GatewayContext) -> (r: Result<
        Vec<Directive>,
        String,
    >) {
        Ok(self.plan(event, ctx))
    }
}

/// Relies on `rand::random_range`: an index below `n`, drawn from the
/// thread's generator. Nothing more is promised of a random value.
#[verifier::external_body]
fn pick_index(n: usize) -> (r: usize)
    requires
        n > 0,
    ensures
        r < n,
{
    rand::random_range(0..n)
}

/// The fortune-table consumer: fixed trigger phrases, each with a list
/// of replies to draw from.
pub struct MuriApp {
    table: Vec<(String, Vec<String>)>,
}

/// The fortune reply is one of the configured list.
pub open spec fn muri_reply_ok(me: MessageEvent, list: Seq<String>, request: Request) -> bool {
    exists|j: int|
        0 <= j < list.len() && json_text(request.params) == plain_text_reply_params(
            me,
            (#[trigger] list[j])@,
        )
}

/// The reply list configured for a trigger phrase, if any.
pub open spec fn replies_for(table: Seq<(String, Vec<String>)>, key: Seq<char>) -> Option<
    Seq<String>,
>
    decreases table.len(),
{
    if table.len() == 0 {
        None
    } else if table.first().0@ == key {
        Some(table.first().1@)
    } else {
        replies_for(table.drop_first(), key)
    }
}

impl MuriApp {
    /// The reply list configured for a phrase, if any.
    pub closed spec fn configured_replies(self, key: Seq<char>) -> Option<Seq<String>> {
        replies_for(self.table@, key)
    }

    /// The fortune tables, as configured.
    pub fn new() -> (a: MuriApp) {
        let mut table: Vec<(String, Vec<String>)> = Vec::new();
    {
        let mut v: Vec<String> = Vec::new();
        v.push("你的当归在摆烂".to_owned());
        v.push("你的当归在摸鱼".to_owned());
        v.push("你的当归在认真画画".to_owned());
        v.push("你随到了在第五人格被追的吱哇乱叫的当归".to_owned());
        v.push("你的当归压好一刀斩了".to_owned());
        v.push("你的当归觉得你好闲，所以告诉你该写作业了".to_owned());
        v.push("你随到了凹深渊的当归".to_owned());
        v.push("你的当归说你出门时会下雨".to_owned());
        v.push("你的当归新建了一个画布".to_owned());
        v.push("你的当归新建了一个图层".to_owned());
        v.push("你的当归一边看直播一边听歌一边新建图层".to_owned());
        v.push("你打死这个当归她今天都不会再动一笔了！".to_owned());
        v.push("你随到了女装当归".to_owned());
        v.push("你的当归正在直播".to_owned());
        v.push("你的当归口嗨说自己画完啦".to_owned());
        v.push("你的当归在须弥迷路啦！".to_owned());
        v.push("当归和弁天婚礼进行时…".to_owned());
        v.push("当归正在煮牡蛎，不给你吃".to_owned());
        v.push("当归提醒喝水小助手，多喝热水".to_owned());
        v.push("当归被45℃的太阳烤干惹".to_owned());
        v.push("当归啪给你一拳".to_owned());
        table.push(("随机当归".to_owned(), v));
    }
    {
        let mut v: Vec<String> = Vec::new();
        v.push("你吃了一个蒜蓉粉丝蒸牡蛎".to_owned());
        v.push("你吃了一个蒜香牡蛎".to_owned());
        v.push("你吃了一个原味生蚝".to_owned());
        v.push("你来了一碗牡蛎豆腐汤".to_owned());
        v.push("你吃了一个捞汁儿小牡蛎".to_owned());
        v.push("你吃了一个椒盐海牡蛎".to_owned());
        v.push("你的牡蛎卧沙啦！".to_owned());
        v.push("你吃了一个清蒸生蚝".to_owned());
        v.push("你来了一碗牡蛎口蘑汤".to_owned());
        v.push("你把牡蛎放进了麻辣烫加麻加辣".to_owned());
        v.push("你的牡蛎哭了，哭的好大声".to_owned());
        v.push("你的牡蛎被暴雨冲走了".to_owned());
        v.push("你的牡蛎被当归吃了，你没得吃".to_owned());
        table.push(("我想吃牡蛎".to_owned(), v));
    }
    {
        let mut v: Vec<String> = Vec::new();
        v.push("牡蛎被禁言1分钟".to_owned());
        v.push("牡蛎被禁言3分钟".to_owned());
        v.push("牡蛎被禁言5分钟".to_owned());
        v.push("牡蛎被禁言10分钟".to_owned());
        v.push("牡蛎被禁言30分钟".to_owned());
        v.push("牡蛎被禁言1小时".to_owned());
        v.push("牡蛎被禁言8小时".to_owned());
        v.push("牡蛎被禁言10小时".to_owned());
        v.push("牡蛎被禁言29天23小时59分".to_owned());
        v.push("牡蛎的管理又不见啦！".to_owned());
        v.push("牡蛎排队食堂两天没饭吃了，呜呜".to_owned());
        v.push("牡蛎出门没带伞突然下暴雨".to_owned());
        v.push("牡蛎抽卡大保底".to_owned());
        v.push("牡蛎睡醒才想起昨晚作业ddl忘了交".to_owned());
        v.push("牡蛎被六点喊起来做核酸".to_owned());
        table.push(("欺负一下牡蛎".to_owned(), v));
    }
    {
        let mut v: Vec<String> = Vec::new();
        v.push("你的外卖送丢了".to_owned());
        v.push("你的外卖被人偷走啦！".to_owned());
        v.push("清汤麻辣烫".to_owned());
        v.push("番茄麻辣烫".to_owned());
        v.push("麻辣烫加麻加辣".to_owned());
        v.push("麻辣烫不麻不辣".to_owned());
        v.push("麻辣烫，但是莴笋+1+1+1+1+1".to_owned());
        v.push("牛肉麻辣香锅".to_owned());
        v.push("鸡肉麻辣香锅".to_owned());
        v.push("火锅冒菜".to_owned());
        v.push("乡村基儿童套餐".to_owned());
        v.push("肯德基疯狂星期四".to_owned());
        v.push("麦当劳".to_owned());
        v.push("汉堡王".to_owned());
        v.push("干锅鱼豆腐".to_owned());
        v.push("干锅千页豆腐".to_owned());
        v.push("什锦炒饭".to_owned());
        v.push("扬州炒饭".to_owned());
        v.push("蛋包饭".to_owned());
        v.push("咖喱鸡肉饭".to_owned());
        v.push("照烧鸡肉饭".to_owned());
        v.push("茭白肉丝盖饭".to_owned());
        v.push("罐罐米线".to_owned());
        v.push("土豆肉丝盖饭".to_owned());
        v.push("青椒炒蛋盖饭".to_owned());
        v.push("白粥".to_owned());
        v.push("莎 县 小 吃".to_owned());
        v.push("出门撸串吧".to_owned());
        v.push("串串火锅！".to_owned());
        v.push("过桥米线".to_owned());
        v.push("渔粉".to_owned());
        v.push("饵丝".to_owned());
        v.push("别吃饭了吃当归吧".to_owned());
        v.push("火锅！鸳鸯锅".to_owned());
        v.push("火锅！番茄锅".to_owned());
        v.push("火锅！九宫格".to_owned());
        v.push("榴莲芝士披萨".to_owned());
        v.push("焗饭".to_owned());
        v.push("意大利面".to_owned());
        v.push("酸辣粉".to_owned());
        v.push("冰粉".to_owned());
        v.push("凉糕".to_owned());
        v.push("香菜新地".to_owned());
        v.push("石锅拌饭".to_owned());
        v.push("重庆鸡公煲".to_owned());
        v.push("重庆小面".to_owned());
        v.push("豌杂小面".to_owned());
        v.push("牛肉小面".to_owned());
        v.push("肥肠小面".to_owned());
        v.push("牡蛎炖大鹅".to_owned());
        v.push("螺蛳粉".to_owned());
        v.push("抄手面".to_owned());
        v.push("鲜虾净云吞".to_owned());
        v.push("小笼包".to_owned());
        v.push("华莱士".to_owned());
        v.push("正新鸡排".to_owned());
        v.push("手抓饼豪华版".to_owned());
        v.push("手抓饼加鸡蛋".to_owned());
        v.push("肉夹馍".to_owned());
        v.push("老麻抄手".to_owned());
        v.push("烤冷面".to_owned());
        v.push("炸鸡可乐".to_owned());
        v.push("炒冰淇淋".to_owned());
        v.push("水果拼盘".to_owned());
        v.push("蔬菜沙拉".to_owned());
        v.push("铁板鱿鱼".to_owned());
        v.push("冷面".to_owned());
        v.push("凉面".to_owned());
        v.push("凉皮".to_owned());
        v.push("口水鸡".to_owned());
        v.push("大盘鸡拌面".to_owned());
        v.push("地三鲜".to_owned());
        v.push("红烧茄子".to_owned());
        v.push("宫保鸡丁".to_owned());
        v.push("鱼香肉丝".to_owned());
        table.push(("中午吃啥".to_owned(), v));
    }
        MuriApp { table }
    }

    /// What one event asks: for a triggering phrase, one unquoted reply
    /// drawn from that phrase's list; for anything else, nothing.
    pub fn plan(&self, event: &Event) -> (r: Vec<Directive>)
        ensures
            match *event {
                Event::MessageEvent(ref me) => {
                    let raw = match *me {
                        MessageEvent::Private(ref p) => p.raw_message@,
                        MessageEvent::Group(ref g) => g.raw_message@,
                    };
                    match self.configured_replies(raw) {
                        Some(list) => if list.len() > 0 {
                            r@.len() == 1 && (r@[0] matches Directive::Submit { request }
                                && request.echo@.len() == 36 && muri_reply_ok(*me, list, request))
                        } else {
                            r@.len() == 0
                        },
                        None => r@.len() == 0,
                    }
                },
                _ => r@.len() == 0,
            },
    {
        let mut out: Vec<Directive> = Vec::new();
        match event {
            Event::MessageEvent(me) => {
                let raw = me.raw_message();
                match self.find_replies(raw) {
                    Some(list) => {
                        if list.len() > 0 {
                            let j = pick_index(list.len());
                            let choice = list[j].clone();
                            proof {
                                assert(choice@ == list@[j as int]@);
                            }
                            let request = text_reply(me, choice, false);
                            proof {
                                assert(0 <= j < list@.len() && json_text(request.params)
                                    == plain_text_reply_params(*me, list@[j as int]@));
                                assert(muri_reply_ok(*me, list@, request));
                            }
                            out.push(Directive::Submit { request });
                        }
                    },
                    None => {},
                }
            },
            _ => {},
        }
        out
    }

    /// The reply list for a phrase.
    fn find_replies(&self, key: &String) -> (r: Option<&Vec<String>>)
        ensures
            match r {
                Some(v) => replies_for(self.table@, key@) == Some(v@),
                None => replies_for(self.table@, key@) is None,
            },
    {
        let n = self.table.len();
        let mut i: usize = 0;
        while i < n
            invariant
                n == self.table@.len(),
                i <= n,
                forall|j: int| 0 <= j < i ==> (#[trigger] self.table@[j]).0@ != key@,
            decreases n - i,
        {
            if crate::event_decode::str_is(&self.table[i].0, key.as_str()) {
                proof {
                    lemma_replies_at(self.table@, i as int);
                }
                return Some(&self.table[i].1);
            }
            i = i + 1;
        }
        proof {
            lemma_replies_absent(self.table@, key@);
        }
        None
    }
}

/// A lookup hit is the recorded list.
proof fn lemma_replies_at(table: Seq<(String, Vec<String>)>, i: int)
    requires
        0 <= i < table.len(),
        forall|j: int| 0 <= j < i ==> (#[trigger] table[j]).0@ != table[i].0@,
    ensures
        replies_for(table, table[i].0@) == Some(table[i].1@),
    decreases table.len(),
{
    if i > 0 {
        assert(table.drop_first()[i - 1] == table[i]);
        assert forall|j: int| 0 <= j < i - 1 implies (#[trigger] table.drop_first()[j]).0@
            != table.drop_first()[i - 1].0@ by {
            assert(table.drop_first()[j] == table[j + 1]);
        }
        lemma_replies_at(table.drop_first(), i - 1);
    }
}

/// A phrase with no entry has no list.
proof fn lemma_replies_absent(table: Seq<(String, Vec<String>)>, key: Seq<char>)
    requires
        forall|j: int| 0 <= j < table.len() ==> (#[trigger] table[j]).0@ != key,
    ensures
        replies_for(table, key) is None,
    decreases table.len(),
{
    if table.len() > 0 {
        assert forall|j: int| 0 <= j < table.drop_first().len() implies (
        #[trigger] table.drop_first()[j]).0@ != key by {
            assert(table.drop_first()[j] == table[j + 1]);
        }
        lemma_replies_absent(table.drop_first(), key);
    }
}

impl Application for MuriApp {
    fn name(&self) -> (r: &'static str) {
        "template"
    }

    fn on_load(&mut self, ctx: &GatewayContext) -> (r: Result<Vec<Directive>, String>) {
        Ok(Vec::new())
    }

    fn on_event(&mut self, event: &Event, ctx: &GatewayContext) -> (r: Result<
        Vec<Directive>,
        String,
    >) {
        Ok(self.plan(event))
    }
}

/// The cat-picture consumer.
pub struct CatApp {}

/// The occurrences of `c` in `s`.
pub open spec fn count_char(s: Seq<char>, c: char) -> int
    decreases s.len(),
{
    if s.len() == 0 {
        0
    } else {
        count_char(s.drop_last(), c) + (if s.last() == c {
            1int
        } else {
            0int
        })
    }
}

impl CatApp {
    /// A fresh cat consumer.
    pub fn new() -> (a: CatApp) {
        CatApp {}
    }

    /// Counts the meows in a received text.
    fn count_meows(s: &str) -> (r: usize)
        ensures
            r == count_char(s@, '\u{55b5}'),
    {
        let n = s.unicode_len();
        let mut r: usize = 0;
        let mut i: usize = 0;
        while i < n
            invariant
                n == s@.len(),
                i <= n,
                r <= i,
                r == count_char(s@.take(i as int), '\u{55b5}'),
            decreases n - i,
        {
            proof {
                assert(s@.take(i + 1).drop_last() =~= s@.take(i as int));
                assert(s@.take(i + 1).last() == s@[i as int]);
            }
            if s.get_char(i) == '\u{55b5}' {
                r = r + 1;
            }
            i = i + 1;
        }
        proof {
            assert(s@.take(n as int) =~= s@);
        }
        r
    }

    /// What one event asks of the cat consumer: fetch up to three images
    /// when a listed sender meows, one wanted per meow.
    pub fn plan(&self, event: &Event, ctx: &GatewayContext) -> (r: Vec<Directive>)
        ensures
            match *event {
                Event::MessageEvent(ref me) => {
                    let raw = match *me {
                        MessageEvent::Private(ref p) => p.raw_message@,
                        MessageEvent::Group(ref g) => g.raw_message@,
                    };
                    let in_scope = match *me {
                        MessageEvent::Private(_) => true,
                        MessageEvent::Group(ref g) => ctx.white_groups@.contains(g.group_id),
                    };
                    let c = count_char(raw, '\u{55b5}');
                    if in_scope && c > 0 {
                        r@.len() == 1 && r@[0] == (Directive::FetchCatImages {
                            fetch: (if c > 3 {
                                3usize
                            } else {
                                c as usize
                            }),
                            want: c as usize,
                        })
                    } else {
                        r@.len() == 0
                    }
                },
                _ => r@.len() == 0,
            },
    {
        let mut out: Vec<Directive> = Vec::new();
        match event {
            Event::MessageEvent(me) => {
                match me {
                    MessageEvent::Group(g) => {
                        if !contains_i64(&ctx.white_groups, g.group_id) {
                            return out;
                        }
                    },
                    MessageEvent::Private(_) => {},
                }
                let count = CatApp::count_meows(me.raw_message().as_str());
                if count > 0 {
                    let fetch: usize = if count > 3 {
                        3
                    } else {
                        count
                    };
                    out.push(Directive::FetchCatImages { fetch, want: count });
                }
            },
            _ => {},
        }
        out
    }

    /// The reply for fetched image URLs: one image segment per URL, at
    /// most `want` of them, in order.
    pub fn cat_images_message(urls: &Vec<String>, want: usize) -> (m: Message)
        ensures
            m.0@.len() == (if want <= urls@.len() {
                want as int
            } else {
                urls@.len() as int
            }),
            forall|i: int|
                0 <= i < m.0@.len() ==> #[trigger] m.0@[i] == (Segment::Image {
                    file: urls@[i],
                    kind: None::<String>,
                    url: None::<String>,
                    cache: None::<bool>,
                    proxy: None::<bool>,
                    timeout: None::<u32>,
                }),
    {
        let n = if want <= urls.len() {
            want
        } else {
            urls.len()
        };
        let mut segs: Vec<Segment> = Vec::new();
        let mut i: usize = 0;
        while i < n
            invariant
                n <= urls@.len(),
                i <= n,
                segs@.len() == i,
                forall|j: int|
                    0 <= j < i ==> #[trigger] segs@[j] == (Segment::Image {
                        file: urls@[j],
                        kind: None::<String>,
                        url: None::<String>,
                        cache: None::<bool>,
                        proxy: None::<bool>,
                        timeout: None::<u32>,
                    }),
            decreases n - i,
        {
            segs.push(Segment::image(urls[i].clone()));
            i = i + 1;
        }
        Message(segs)
    }
}

impl Application for CatApp {
    fn name(&self) -> (r: &'static str) {
        "cat"
    }

    fn on_load(&mut self, ctx: &GatewayContext) -> (r: Result<Vec<Directive>, String>) {
        Ok(Vec::new())
    }

    fn on_event(&mut self, event: &Event, ctx: &GatewayContext) -> (r: Result<
        Vec<Directive>,
        String,
    >) {
        Ok(self.plan(event, ctx))
    }
}

/// One scheduled announcement: a cron schedule and its fixed message,
/// sent to a group or to a user.
pub struct CronJob {
    pub schedule: String,
    pub group_id: Option<i64>,
    pub user_id: Option<i64>,
    pub text: String,
}

/// The scheduled-announcement consumer; the shell registers its jobs
/// once at load.
pub struct CronApp {}

/// The configured announcements: the weekday reminders into the main
/// group, and the daily private reminder.
pub fn cron_jobs(ctx: &GatewayContext) -> (r: Vec<CronJob>)
    ensures
        r@.len() == 3,
        r@[0].schedule@ == "0 0 0 * * 5"@ && r@[0].group_id == Some(ctx.main_group)
            && r@[0].user_id is None && r@[0].text@ == "\u{5468}\u{4e94}\u{5566}\u{ff01}"@,
        r@[1].schedule@ == "0 0 0 * * 1"@ && r@[1].group_id == Some(ctx.main_group)
            && r@[1].user_id is None && r@[1].text@ == "\u{5468}\u{4e00}\u{5566}\u{ff01}"@,
        r@[2].schedule@ == "0 0 13 * * *"@ && r@[2].group_id is None && r@[2].user_id == Some(
            ctx.reminder_user,
        ) && r@[2].text@
            == "\u{665a}\u{4e0a}\u{597d}\u{ff01}\u{4eca}\u{5929}\u{8bb0}\u{5f97}\u{6253}\u{5361}\u{54e6}~"@,
{
    let mut r: Vec<CronJob> = Vec::new();
    r.push(
        CronJob {
            schedule: "0 0 0 * * 5".to_owned(),
            group_id: Some(ctx.main_group),
            user_id: None,
            text: "\u{5468}\u{4e94}\u{5566}\u{ff01}".to_owned(),
        },
    );
    r.push(
        CronJob {
            schedule: "0 0 0 * * 1".to_owned(),
            group_id: Some(ctx.main_group),
            user_id: None,
            text: "\u{5468}\u{4e00}\u{5566}\u{ff01}".to_owned(),
        },
    );
    r.push(
        CronJob {
            schedule: "0 0 13 * * *".to_owned(),
            group_id: None,
            user_id: Some(ctx.reminder_user),
            text:
                "\u{665a}\u{4e0a}\u{597d}\u{ff01}\u{4eca}\u{5929}\u{8bb0}\u{5f97}\u{6253}\u{5361}\u{54e6}~".to_owned(),
        },
    );
    r
}

impl CronApp {
    /// A fresh scheduler consumer.
    pub fn new() -> (a: CronApp) {
        CronApp {}
    }
}

impl Application for CronApp {
    fn name(&self) -> (r: &'static str) {
        "cron"
    }

    fn on_load(&mut self, ctx: &GatewayContext) -> (r: Result<Vec<Directive>, String>) {
        Ok(Vec::new())
    }

    fn on_event(&mut self, event: &Event, ctx: &GatewayContext) -> (r: Result<
        Vec<Directive>,
        String,
    >) {
        Ok(Vec::new())
    }
}

/// The bridge-owning consumer: forwards message events to the secondary
/// backend while its connection stands, and restarts it on send failure.
pub struct GSCoreAdapter {
    connected: bool,
}

impl GSCoreAdapter {
    /// Whether the bridge connection is believed up.
    pub closed spec fn is_connected(self) -> bool {
        self.connected
    }

    /// A fresh adapter with no connection yet.
    pub fn new() -> (a: GSCoreAdapter)
        ensures
            !a.is_connected(),
    {
        GSCoreAdapter { connected: false }
    }

    /// The shell reports the bridge connection as standing.
    pub fn note_connected(&mut self)
        ensures
            final(self).is_connected(),
    {
        self.connected = true;
    }

    /// A send failed: the bridge's receiving end is gone. Forget the
    /// connection and ask for an asynchronous restart rather than
    /// treating the failure as fatal.
    pub fn on_send_failure(&mut self) -> (d: Directive)
        ensures
            !final(self).is_connected(),
            d == Directive::BridgeRestart,
    {
        self.connected = false;
        Directive::BridgeRestart
    }

    /// What one event asks of the bridge: for a message event in an
    /// enabled group (or any private message) while connected, one
    /// binary frame carrying the translated packet.
    pub fn plan(&self, event: &Event, ctx: &GatewayContext) -> (r: Vec<Directive>)
        ensures
            match *event {
                Event::MessageEvent(ref me) => {
                    let gated = match *me {
                        MessageEvent::Private(_) => true,
                        MessageEvent::Group(ref g) => ctx.bridge_groups@.contains(g.group_id),
                    };
                    if gated && self.is_connected() {
                        r@.len() == 1 && (r@[0] matches Directive::BridgeSend { frame }
                            && exists|mr: crate::gscore::MessageReceive|
                            crate::gscore::mr_matches_event(mr, *me, ctx.bridge_bot_id@)
                                && frame@ == crate::gscore::message_receive_text(mr))
                    } else {
                        r@.len() == 0
                    }
                },
                _ => r@.len() == 0,
            },
    {
        let mut out: Vec<Directive> = Vec::new();
        match event {
            Event::MessageEvent(me) => {
                match me {
                    MessageEvent::Group(g) => {
                        if !contains_i64(&ctx.bridge_groups, g.group_id) {
                            return out;
                        }
                    },
                    MessageEvent::Private(_) => {},
                }
                if self.connected {
                    let mr = crate::gscore::message_receive_from(me, ctx.bridge_bot_id.as_str());
                    let frame = crate::gscore::encode_message_receive(&mr);
                    out.push(Directive::BridgeSend { frame });
                }
            },
            _ => {},
        }
        out
    }
}

impl Application for GSCoreAdapter {
    fn name(&self) -> (r: &'static str) {
        "gscore adapter"
    }

    fn on_load(&mut self, ctx: &GatewayContext) -> (r: Result<Vec<Directive>, String>) {
        let mut out: Vec<Directive> = Vec::new();
        out.push(Directive::BridgeRestart);
        Ok(out)
    }

    fn on_event(&mut self, event: &Event, ctx: &GatewayContext) -> (r: Result<
        Vec<Directive>,
        String,
    >) {
        Ok(self.plan(event, ctx))
    }
}

/// A consumer scaffold that reacts to nothing.
pub struct TemplateApp {}

impl TemplateApp {
    /// A fresh scaffold.
    pub fn new() -> (a: TemplateApp) {
        TemplateApp {}
    }
}

impl Application for TemplateApp {
    fn name(&self) -> (r: &'static str) {
        "template"
    }

    fn on_load(&mut self, ctx: &GatewayContext) -> (r: Result<Vec<Directive>, String>) {
        Ok(Vec::new())
    }

    fn on_event(&mut self, event: &Event, ctx: &GatewayContext) -> (r: Result<
        Vec<Directive>,
        String,
    >) {
        Ok(Vec::new())
    }
}

/// What one event asks of the chat consumer.
pub fn chat_plan(app: &mut ChatApp, event: &Event, ctx: &GatewayContext) -> (r: Vec<Directive>)
    ensures
        match *event {
            Event::MessageEvent(ref me) => {
                let raw_segs = match *me {
                    MessageEvent::Private(ref p) => p.message.0@,
                    MessageEvent::Group(ref g) => g.message.0@,
                };
                let uid = match *me {
                    MessageEvent::Private(ref p) => p.user_id,
                    MessageEvent::Group(ref g) => g.user_id,
                };
                let in_scope = match *me {
                    MessageEvent::Private(_) => true,
                    MessageEvent::Group(ref g) => ctx.white_groups@.contains(g.group_id),
                };
                let text = crate::message::plain_text_of(raw_segs);
                let cmd = crate::chat::cmd_of(text);
                let prompt = crate::chat::prompt_of(text);
                let imgs = crate::chat::images_of(raw_segs);
                if !in_scope {
                    r@.len() == 0
                } else if cmd == "!switch"@ {
                    if uid != ctx.owner {
                        r@.len() == 0
                    } else {
                        r@.len() == 1 && (r@[0] matches Directive::ChatPrompt {
                            command,
                            user_id,
                            prompt: p2,
                            images,
                        } && command == ChatCommand::SwitchModel && user_id == uid && p2@ == prompt
                            && images@.len() == 0)
                    }
                } else if cmd == "!ai"@ || cmd == "!aip"@ {
                    let admitted = old(app).times_of(uid).filter(
                        |t: u64| crate::chat::in_window(t, ctx.now_ms / 1000),
                    ).len() < crate::chat::RATE_LIMIT_MAX;
                    if !admitted {
                        r@.len() == 1 && (r@[0] matches Directive::Submit { request }
                            && json_text(request.params) == quoted_text_reply_params(
                            *me,
                            "\u{4f60}\u{95ee}\u{5f97}\u{592a}\u{5feb}\u{4e86}\u{ff0c}\u{4f11}\u{606f}\u{4e00}\u{4e0b}\u{5427}~"@,
                        ))
                    } else if prompt.len() == 0 && imgs.len() == 0 {
                        r@.len() == 0
                    } else {
                        r@.len() == 1 && (r@[0] matches Directive::ChatPrompt {
                            command,
                            user_id,
                            prompt: p2,
                            images,
                        } && command == (if cmd == "!ai"@ {
                            ChatCommand::Ask
                        } else {
                            ChatCommand::AskWithHistory
                        }) && user_id == uid && p2@ == prompt && images@.len() == imgs.len() && (
                        forall|i: int|
                            0 <= i < images@.len() ==> ((#[trigger] images@[i]).0@, images@[i].1@)
                                == imgs[i]))
                    }
                } else {
                    r@.len() == 0
                }
            },
            _ => r@.len() == 0,
        },
{
    let mut out: Vec<Directive> = Vec::new();
    match event {
        Event::MessageEvent(me) => {
            match me {
                MessageEvent::Group(g) => {
                    if !contains_i64(&ctx.white_groups, g.group_id) {
                        return out;
                    }
                },
                MessageEvent::Private(_) => {},
            }
            let (text, images) = crate::chat::extract_text_and_images(me.message().segments());
            let (cmd, prompt) = crate::chat::parse_command(&text);
            let uid = me.user_id();
            if crate::event_decode::str_is(&cmd, "!switch") {
                if uid == ctx.owner {
                    out.push(
                        Directive::ChatPrompt {
                            command: ChatCommand::SwitchModel,
                            user_id: uid,
                            prompt,
                            images: Vec::new(),
                        },
                    );
                }
            } else if crate::event_decode::str_is(&cmd, "!ai") || crate::event_decode::str_is(
                &cmd,
                "!aip",
            ) {
                let admitted = app.check_rate_limit(uid, ctx.now_ms / 1000);
                if !admitted {
                    let request = text_reply(
                        me,
                        "\u{4f60}\u{95ee}\u{5f97}\u{592a}\u{5feb}\u{4e86}\u{ff0c}\u{4f11}\u{606f}\u{4e00}\u{4e0b}\u{5427}~".to_owned(),
                        true,
                    );
                    out.push(Directive::Submit { request });
                } else if prompt.unicode_len() == 0 && images.len() == 0 {
                } else {
                    let command = if crate::event_decode::str_is(&cmd, "!ai") {
                        ChatCommand::Ask
                    } else {
                        ChatCommand::AskWithHistory
                    };
                    out.push(Directive::ChatPrompt { command, user_id: uid, prompt, images });
                }
            }
        },
        _ => {},
    }
    out
}

impl Application for ChatApp {
    fn name(&self) -> (r: &'static str) {
        "chat"
    }

    fn on_load(&mut self, ctx: &GatewayContext) -> (r: Result<Vec<Directive>, String>) {
        Ok(Vec::new())
    }

    fn on_event(&mut self, event: &Event, ctx: &GatewayContext) -> (r: Result<
        Vec<Directive>,
        String,
    >) {
        Ok(chat_plan(self, event, ctx))
    }
}

/// The fixed consumer registry, set at process start.
pub struct Registry {
    pub builtin: BuiltinApp,
    pub ping: PingApp,
    pub bridge: GSCoreAdapter,
    pub cat: CatApp,
    pub cron: CronApp,
    pub chat: ChatApp,
}

impl Registry {
    /// The configured consumers, all fresh.
    pub fn new() -> (r: Registry) {
        Registry {
            builtin: BuiltinApp::new(),
            ping: PingApp::new(),
            bridge: GSCoreAdapter::new(),
            cat: CatApp::new(),
            cron: CronApp::new(),
            chat: ChatApp::new(),
        }
    }
}

/// Fans one decoded event out to every consumer: each of the six
/// receives it and contributes exactly one outcome to the report,
/// whatever the others returned — one consumer's failure removes nothing
/// from the rest, and the session state is not touched here at all.
pub fn dispatch_event(reg: &mut Registry, event: &Event, ctx: &GatewayContext) -> (reports: Vec<
    (&'static str, Result<Vec<Directive>, String>),
>)
    ensures
        reports@.len() == 6,
        reports@[0].0@ == "builtin"@,
        reports@[1].0@ == "ping"@,
        reports@[2].0@ == "gscore adapter"@,
        reports@[3].0@ == "cat"@,
        reports@[4].0@ == "cron"@,
        reports@[5].0@ == "chat"@,
{
    let mut reports: Vec<(&'static str, Result<Vec<Directive>, String>)> = Vec::new();
    let r0 = self_name_report(&mut reg.builtin, event, ctx, "builtin");
    reports.push(r0);
    let r1 = self_name_report(&mut reg.ping, event, ctx, "ping");
    reports.push(r1);
    let r2 = self_name_report(&mut reg.bridge, event, ctx, "gscore adapter");
    reports.push(r2);
    let r3 = self_name_report(&mut reg.cat, event, ctx, "cat");
    reports.push(r3);
    let r4 = self_name_report(&mut reg.cron, event, ctx, "cron");
    reports.push(r4);
    let r5 = self_name_report(&mut reg.chat, event, ctx, "chat");
    reports.push(r5);
    reports
}

/// Delivers one event to one consumer and tags its outcome.
fn self_name_report<A: Application>(
    app: &mut A,
    event: &Event,
    ctx: &GatewayContext,
    name: &'static str,
) -> (r: (&'static str, Result<Vec<Directive>, String>))
    ensures
        r.0 == name,
{
    let outcome = app.on_event(event, ctx);
    (name, outcome)
}

/// Loads every consumer once, at session start, with the same
/// one-outcome-per-consumer report.
pub fn dispatch_load(reg: &mut Registry, ctx: &GatewayContext) -> (reports: Vec<
    (&'static str, Result<Vec<Directive>, String>),
>)
    ensures
        reports@.len() == 6,
{
    let mut reports: Vec<(&'static str, Result<Vec<Directive>, String>)> = Vec::new();
    let r0 = reg.builtin.on_load(ctx);
    reports.push(("builtin", r0));
    let r1 = reg.ping.on_load(ctx);
    reports.push(("ping", r1));
    let r2 = reg.bridge.on_load(ctx);
    reports.push(("gscore adapter", r2));
    let r3 = reg.cat.on_load(ctx);
    reports.push(("cat", r3));
    let r4 = reg.cron.on_load(ctx);
    reports.push(("cron", r4));
    let r5 = reg.chat.on_load(ctx);
    reports.push(("chat", r5));
    reports
}

} // verus!
