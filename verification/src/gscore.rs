//! The downstream bridge's message schema and translation layer: primary
//! events become `MessageReceive` packets for the secondary backend, and
//! its `MessageSend` packets become primary send commands.

use crate::event_decode::m_opt_str_ok;
use crate::event_decode::m_opt_str_val;
use crate::event_decode::m_req_str_ok;
use crate::event_decode::m_req_str_val;
use crate::event_decode::opt_str;
use crate::event_decode::req_str;
use crate::event_decode::str_is;
use crate::event_decode::view_opt_str;
use crate::events::MessageEvent;
use crate::jmodel::JsonData;
use crate::jmodel::jv_as_array;
use crate::jmodel::jv_get;
use crate::jmodel::jv_is_null;
use crate::jmodel::m_as_str;
use crate::jmodel::m_has_key;
use crate::jmodel::m_key;
use crate::jmodel::value_model;
use crate::json::JsonValue;
use crate::json::fld;
use crate::json::fld_int;
use crate::json::fld_str;
use crate::json::int_text;
use crate::json::int_to_string;
use crate::json::json_text;
use crate::json::null_text;
use crate::json::obj_json;
use crate::json::obj_of_fields;
use crate::json::push_field;
use crate::json::str_text;
use crate::message::Message;
use crate::message::Segment;
use vstd::prelude::*;
use vstd::string::StringExecFns;

verus! {

/// The kinds of target the secondary backend addresses.
#[derive(PartialEq, Eq, Structural)]
pub enum TargetType {
    Group,
    Direct,
    Channel,
    SubChannel,
}

/// One content part of a secondary-backend message.
pub enum GSCoreMessage {
    Log(String),
    Text(String),
    Markdown(String),
    Image(String),
    At(String),
    Reply(String),
    Node(Vec<GSCoreMessageWithoutNode>),
}

/// A content part that may stand inside a forward node.
pub enum GSCoreMessageWithoutNode {
    Text(String),
    Markdown(String),
    Image(String),
    At(String),
    Reply(String),
}

/// The sender identity carried to the secondary backend.
pub struct MessageSender {
    pub nickname: String,
    pub avatar: String,
}

/// The packet sent to the secondary backend for one primary event.
pub struct MessageReceive {
    pub bot_id: String,
    pub bot_self_id: String,
    pub msg_id: String,
    pub user_type: TargetType,
    pub group_id: Option<String>,
    pub user_id: String,
    pub sender: MessageSender,
    pub user_pm: i32,
    pub content: Vec<GSCoreMessage>,
}

/// The packet received from the secondary backend.
pub struct MessageSend {
    pub bot_id: String,
    pub bot_self_id: String,
    pub msg_id: String,
    pub target_type: Option<TargetType>,
    pub target_id: Option<String>,
    pub content: Option<Vec<GSCoreMessage>>,
}

/// The wire name of a target kind.
pub open spec fn target_type_text(t: TargetType) -> Seq<char> {
    match t {
        TargetType::Group => "group"@,
        TargetType::Direct => "direct"@,
        TargetType::Channel => "channel"@,
        TargetType::SubChannel => "sub_channel"@,
    }
}

/// The permission rank the bridge reports for a group role: the owner,
/// an administrator, or an ordinary member.
pub open spec fn pm_of_role(role: Option<String>) -> i32 {
    match role {
        Some(r) => if r@ == "owner"@ {
            2
        } else if r@ == "admin"@ {
            3
        } else {
            6
        },
        None => 6,
    }
}

/// The avatar URL the bridge reports for a user.
pub open spec fn avatar_text(user_id: i64) -> Seq<char> {
    "http://q.qlogo.cn/headimg_dl?dst_uin="@ + int_text(user_id as int)
        + "&spec=640&img_type=jpg"@
}

/// The placeholder name for a segment kind the bridge cannot carry.
pub open spec fn seg_kind_name(s: Segment) -> Seq<char> {
    match s {
        Segment::Text { .. } => "text"@,
        Segment::Face { .. } => "face"@,
        Segment::Image { .. } => "image"@,
        Segment::Record { .. } => "record"@,
        Segment::Video { .. } => "video"@,
        Segment::At { .. } => "at"@,
        Segment::Rps => "rps"@,
        Segment::Dice => "dice"@,
        Segment::Shake => "shake"@,
        Segment::Poke { .. } => "poke"@,
        Segment::Anonymous { .. } => "anonymous"@,
        Segment::Share { .. } => "share"@,
        Segment::Contact { .. } => "contact"@,
        Segment::Location { .. } => "location"@,
        Segment::Music { .. } => "music"@,
        Segment::Reply { .. } => "reply"@,
        Segment::Forward { .. } => "forward"@,
        Segment::Node { .. } => "node"@,
        Segment::Xml { .. } => "xml"@,
        Segment::Json { .. } => "json"@,
    }
}

/// The placeholder text for a segment kind the bridge cannot carry.
pub open spec fn unsupp_text(s: Segment) -> Seq<char> {
    "<unsupp: "@ + seg_kind_name(s) + ">"@
}

/// What one primary segment becomes on the bridge: text, image,
/// at-mention and reply reference carry over, everything else becomes a
/// marked placeholder text.
pub open spec fn gm_matches_segment(s: Segment, g: GSCoreMessage) -> bool {
    match s {
        Segment::Text { text } => g == GSCoreMessage::Text(text),
        Segment::Image { file, .. } => g == GSCoreMessage::Image(file),
        Segment::At { qq } => g == GSCoreMessage::At(qq),
        Segment::Reply { id } => g == GSCoreMessage::Reply(id),
        _ => g matches GSCoreMessage::Text(t) && t@ == unsupp_text(s),
    }
}

/// Translates one primary segment for the bridge.
pub fn gm_of_segment(s: &Segment) -> (g: GSCoreMessage)
    ensures
        gm_matches_segment(*s, g),
{
    match s {
        Segment::Text { text } => GSCoreMessage::Text(text.clone()),
        Segment::Image { file, .. } => GSCoreMessage::Image(file.clone()),
        Segment::At { qq } => GSCoreMessage::At(qq.clone()),
        Segment::Reply { id } => GSCoreMessage::Reply(id.clone()),
        _ => {
            let mut t = String::new();
            t.append("<unsupp: ");
            t.append(seg_kind_name_exec(s));
            t.append(">");
            GSCoreMessage::Text(t)
        },
    }
}

/// The wire tag naming a segment's kind.
fn seg_kind_name_exec(s: &Segment) -> (r: &'static str)
    ensures
        r@ == seg_kind_name(*s),
{
    match s {
        Segment::Text { .. } => "text",
        Segment::Face { .. } => "face",
        Segment::Image { .. } => "image",
        Segment::Record { .. } => "record",
        Segment::Video { .. } => "video",
        Segment::At { .. } => "at",
        Segment::Rps => "rps",
        Segment::Dice => "dice",
        Segment::Shake => "shake",
        Segment::Poke { .. } => "poke",
        Segment::Anonymous { .. } => "anonymous",
        Segment::Share { .. } => "share",
        Segment::Contact { .. } => "contact",
        Segment::Location { .. } => "location",
        Segment::Music { .. } => "music",
        Segment::Reply { .. } => "reply",
        Segment::Forward { .. } => "forward",
        Segment::Node { .. } => "node",
        Segment::Xml { .. } => "xml",
        Segment::Json { .. } => "json",
    }
}

/// Translates a whole message's segments for the bridge, in order.
pub fn content_of_message(m: &Message) -> (r: Vec<GSCoreMessage>)
    ensures
        r@.len() == m.0@.len(),
        forall|i: int| 0 <= i < r@.len() ==> gm_matches_segment(m.0@[i], #[trigger] r@[i]),
{
    let mut r: Vec<GSCoreMessage> = Vec::new();
    let n = m.0.len();
    let mut i: usize = 0;
    while i < n
        invariant
            n == m.0@.len(),
            i <= n,
            r@.len() == i,
            forall|j: int| 0 <= j < i ==> gm_matches_segment(m.0@[j], #[trigger] r@[j]),
        decreases n - i,
    {
        let g = gm_of_segment(&m.0[i]);
        r.push(g);
        i = i + 1;
    }
    r
}

/// What one bridge content part becomes as a primary segment, under the
/// configured node sender identity: a forward node wraps its parts in
/// one node segment each carrying a one-part message.
pub open spec fn seg_matches_wn(w: GSCoreMessageWithoutNode, s: Segment) -> bool {
    match w {
        GSCoreMessageWithoutNode::Text(t) => s == (Segment::Text { text: t }),
        GSCoreMessageWithoutNode::Markdown(t) => s == (Segment::Text { text: t }),
        GSCoreMessageWithoutNode::Image(u) => s == (Segment::Image {
            file: u,
            kind: None::<String>,
            url: None::<String>,
            cache: None::<bool>,
            proxy: None::<bool>,
            timeout: None::<u32>,
        }),
        GSCoreMessageWithoutNode::At(q) => s == (Segment::At { qq: q }),
        GSCoreMessageWithoutNode::Reply(i) => s == (Segment::Reply { id: i }),
    }
}

/// Translates one node-safe bridge part into a primary segment.
pub fn segment_of_wn(w: &GSCoreMessageWithoutNode) -> (s: Segment)
    ensures
        seg_matches_wn(*w, s),
{
    match w {
        GSCoreMessageWithoutNode::Text(t) => Segment::Text { text: t.clone() },
        GSCoreMessageWithoutNode::Markdown(t) => Segment::Text { text: t.clone() },
        GSCoreMessageWithoutNode::Image(u) => Segment::image(u.clone()),
        GSCoreMessageWithoutNode::At(q) => Segment::At { qq: q.clone() },
        GSCoreMessageWithoutNode::Reply(i) => Segment::Reply { id: i.clone() },
    }
}

/// The primary packet the bridge builds for one message event: identity
/// and target as decimal strings, the configured avatar URL, the
/// permission rank of the sender's role, and the translated content.
/// How the bridge packet relates to the event it was built from: every
/// field is pinned.
pub open spec fn mr_matches_event(r: MessageReceive, event: MessageEvent, bot_id: Seq<char>) -> bool {
    &&& r.bot_id@ == bot_id
    &&& match event {
            MessageEvent::Group(ref g) => {
                &&& r.bot_self_id@ == int_text(g.base.self_id as int)
                &&& r.msg_id@ == int_text(g.message_id as int)
                &&& r.user_type == TargetType::Group
                &&& r.group_id matches Some(gid) && gid@ == int_text(g.group_id as int)
                &&& r.user_id@ == int_text(g.user_id as int)
                &&& r.sender.nickname@ == g.sender.nickname@
                &&& r.sender.avatar@ == avatar_text(g.user_id)
                &&& r.user_pm == pm_of_role(g.sender.role)
                &&& r.content@.len() == g.message.0@.len()
                &&& forall|i: int|
                    0 <= i < r.content@.len() ==> gm_matches_segment(
                        g.message.0@[i],
                        #[trigger] r.content@[i],
                    )
            },
            MessageEvent::Private(ref p) => {
                &&& r.bot_self_id@ == int_text(p.base.self_id as int)
                &&& r.msg_id@ == int_text(p.message_id as int)
                &&& r.user_type == TargetType::Direct
                &&& r.group_id is None
                &&& r.user_id@ == int_text(p.user_id as int)
                &&& r.sender.nickname@ == p.sender.nickname@
                &&& r.sender.avatar@ == avatar_text(p.user_id)
                &&& r.user_pm == 6
                &&& r.content@.len() == p.message.0@.len()
                &&& forall|i: int|
                    0 <= i < r.content@.len() ==> gm_matches_segment(
                        p.message.0@[i],
                        #[trigger] r.content@[i],
                    )
            },
        }
}

/// The primary packet the bridge builds for one message event: identity
/// and target as decimal strings, the configured avatar URL, the
/// permission rank of the sender's role, and the translated content.
pub fn message_receive_from(event: &MessageEvent, bot_id: &str) -> (r: MessageReceive)
    ensures
        mr_matches_event(r, *event, bot_id@),
{
    match event {
        MessageEvent::Group(g) => {
            let mut avatar = String::new();
            avatar.append("http://q.qlogo.cn/headimg_dl?dst_uin=");
            let uid = int_to_string(g.user_id);
            avatar.append(uid.as_str());
            avatar.append("&spec=640&img_type=jpg");
            let user_pm: i32 = match &g.sender.role {
                Some(role) => {
                    if str_is(role, "owner") {
                        2
                    } else if str_is(role, "admin") {
                        3
                    } else {
                        6
                    }
                },
                None => 6,
            };
            MessageReceive {
                bot_id: bot_id.to_owned(),
                bot_self_id: int_to_string(g.base.self_id),
                msg_id: int_to_string(g.message_id as i64),
                user_type: TargetType::Group,
                group_id: Some(int_to_string(g.group_id)),
                user_id: int_to_string(g.user_id),
                sender: MessageSender { nickname: g.sender.nickname.clone(), avatar },
                user_pm,
                content: content_of_message(&g.message),
            }
        },
        MessageEvent::Private(p) => {
            let mut avatar = String::new();
            avatar.append("http://q.qlogo.cn/headimg_dl?dst_uin=");
            let uid = int_to_string(p.user_id);
            avatar.append(uid.as_str());
            avatar.append("&spec=640&img_type=jpg");
            MessageReceive {
                bot_id: bot_id.to_owned(),
                bot_self_id: int_to_string(p.base.self_id),
                msg_id: int_to_string(p.message_id as i64),
                user_type: TargetType::Direct,
                group_id: None,
                user_id: int_to_string(p.user_id),
                sender: MessageSender { nickname: p.sender.nickname.clone(), avatar },
                user_pm: 6,
                content: content_of_message(&p.message),
            }
        },
    }
}

/// The wire text of one bridge content part:
/// `{"type":tag,"data":payload}`.
pub open spec fn gm_text(g: GSCoreMessage) -> Seq<char> {
    match g {
        GSCoreMessage::Log(s) => obj_of_fields(
            fld_str("type"@, "log"@) + fld_str("data"@, s@),
        ),
        GSCoreMessage::Text(s) => obj_of_fields(
            fld_str("type"@, "text"@) + fld_str("data"@, s@),
        ),
        GSCoreMessage::Markdown(s) => obj_of_fields(
            fld_str("type"@, "markdown"@) + fld_str("data"@, s@),
        ),
        GSCoreMessage::Image(s) => obj_of_fields(
            fld_str("type"@, "image"@) + fld_str("data"@, s@),
        ),
        GSCoreMessage::At(s) => obj_of_fields(fld_str("type"@, "at"@) + fld_str("data"@, s@)),
        GSCoreMessage::Reply(s) => obj_of_fields(
            fld_str("type"@, "reply"@) + fld_str("data"@, s@),
        ),
        GSCoreMessage::Node(parts) => obj_of_fields(
            fld_str("type"@, "node"@) + fld("data"@, seq!['['] + wn_list_text(parts@, 0) + seq![']']),
        ),
    }
}

/// The wire text of one node-safe part.
pub open spec fn wn_text(w: GSCoreMessageWithoutNode) -> Seq<char> {
    match w {
        GSCoreMessageWithoutNode::Text(s) => obj_of_fields(
            fld_str("type"@, "text"@) + fld_str("data"@, s@),
        ),
        GSCoreMessageWithoutNode::Markdown(s) => obj_of_fields(
            fld_str("type"@, "markdown"@) + fld_str("data"@, s@),
        ),
        GSCoreMessageWithoutNode::Image(s) => obj_of_fields(
            fld_str("type"@, "image"@) + fld_str("data"@, s@),
        ),
        GSCoreMessageWithoutNode::At(s) => obj_of_fields(
            fld_str("type"@, "at"@) + fld_str("data"@, s@),
        ),
        GSCoreMessageWithoutNode::Reply(s) => obj_of_fields(
            fld_str("type"@, "reply"@) + fld_str("data"@, s@),
        ),
    }
}

/// The comma-separated wire text of node-safe parts from `i` on.
pub open spec fn wn_list_text(ws: Seq<GSCoreMessageWithoutNode>, i: int) -> Seq<char>
    decreases ws.len() - i,
{
    if i < 0 || i >= ws.len() {
        Seq::empty()
    } else if i == ws.len() - 1 {
        wn_text(ws[i])
    } else {
        wn_text(ws[i]) + seq![','] + wn_list_text(ws, i + 1)
    }
}

/// The comma-separated wire text of bridge parts from `i` on.
pub open spec fn gm_list_text(gs: Seq<GSCoreMessage>, i: int) -> Seq<char>
    decreases gs.len() - i,
{
    if i < 0 || i >= gs.len() {
        Seq::empty()
    } else if i == gs.len() - 1 {
        gm_text(gs[i])
    } else {
        gm_text(gs[i]) + seq![','] + gm_list_text(gs, i + 1)
    }
}

/// The exact frame text of a `MessageReceive` packet, fields in their
/// declared order, an absent group as null.
pub open spec fn message_receive_text(r: MessageReceive) -> Seq<char> {
    obj_of_fields(
        fld_str("bot_id"@, r.bot_id@) + fld_str("bot_self_id"@, r.bot_self_id@) + fld_str(
            "msg_id"@,
            r.msg_id@,
        ) + fld_str("user_type"@, target_type_text(r.user_type)) + fld(
            "group_id"@,
            match r.group_id {
                Some(g) => str_text(g@),
                None => null_text(),
            },
        ) + fld_str("user_id"@, r.user_id@) + fld(
            "sender"@,
            obj_of_fields(
                fld_str("nickname"@, r.sender.nickname@) + fld_str("avatar"@, r.sender.avatar@),
            ),
        ) + fld_int("user_pm"@, r.user_pm as int) + fld(
            "content"@,
            seq!['['] + gm_list_text(r.content@, 0) + seq![']'],
        ),
    )
}


/// Appending a node-safe part appends its text after a comma.
proof fn lemma_wn_push_from(ws: Seq<GSCoreMessageWithoutNode>, w: GSCoreMessageWithoutNode, i: int)
    requires
        0 <= i <= ws.len(),
    ensures
        wn_list_text(ws.push(w), i) == if i == ws.len() {
            wn_text(w)
        } else {
            wn_list_text(ws, i) + seq![','] + wn_text(w)
        },
    decreases ws.len() - i,
{
    if i == ws.len() {
        assert(ws.push(w)[i] == w);
    } else {
        lemma_wn_push_from(ws, w, i + 1);
        assert(ws.push(w)[i] == ws[i]);
        if i == ws.len() - 1 {
            assert(wn_list_text(ws.push(w), i) =~= wn_list_text(ws, i) + seq![','] + wn_text(w));
        } else {
            assert(wn_list_text(ws.push(w), i) =~= wn_list_text(ws, i) + seq![','] + wn_text(w));
        }
    }
}

/// Appending a bridge part appends its text after a comma.
proof fn lemma_gm_push_from(gs: Seq<GSCoreMessage>, g: GSCoreMessage, i: int)
    requires
        0 <= i <= gs.len(),
    ensures
        gm_list_text(gs.push(g), i) == if i == gs.len() {
            gm_text(g)
        } else {
            gm_list_text(gs, i) + seq![','] + gm_text(g)
        },
    decreases gs.len() - i,
{
    if i == gs.len() {
        assert(gs.push(g)[i] == g);
    } else {
        lemma_gm_push_from(gs, g, i + 1);
        assert(gs.push(g)[i] == gs[i]);
        if i == gs.len() - 1 {
            assert(gm_list_text(gs.push(g), i) =~= gm_list_text(gs, i) + seq![','] + gm_text(g));
        } else {
            assert(gm_list_text(gs.push(g), i) =~= gm_list_text(gs, i) + seq![','] + gm_text(g));
        }
    }
}

/// A `{"type":tag,"data":"payload"}` part document.
fn tagged_str_json(tag: &str, payload: &String) -> (r: JsonValue)
    ensures
        json_text(r) == obj_of_fields(fld_str("type"@, tag@) + fld_str("data"@, payload@)),
{
    let mut ps: Vec<(String, JsonValue)> = Vec::new();
    let g = push_field(&mut ps, "type", JsonValue::Str(tag.to_owned()), Ghost(Seq::empty()));
    let g = push_field(&mut ps, "data", JsonValue::Str(payload.clone()), g);
    obj_json(ps, g)
}

/// Encodes one node-safe part.
fn wn_to_json(w: &GSCoreMessageWithoutNode) -> (r: JsonValue)
    ensures
        json_text(r) == wn_text(*w),
{
    match w {
        GSCoreMessageWithoutNode::Text(s) => tagged_str_json("text", s),
        GSCoreMessageWithoutNode::Markdown(s) => tagged_str_json("markdown", s),
        GSCoreMessageWithoutNode::Image(s) => tagged_str_json("image", s),
        GSCoreMessageWithoutNode::At(s) => tagged_str_json("at", s),
        GSCoreMessageWithoutNode::Reply(s) => tagged_str_json("reply", s),
    }
}

/// Encodes one bridge part.
fn gm_to_json(g: &GSCoreMessage) -> (r: JsonValue)
    ensures
        json_text(r) == gm_text(*g),
{
    match g {
        GSCoreMessage::Log(s) => tagged_str_json("log", s),
        GSCoreMessage::Text(s) => tagged_str_json("text", s),
        GSCoreMessage::Markdown(s) => tagged_str_json("markdown", s),
        GSCoreMessage::Image(s) => tagged_str_json("image", s),
        GSCoreMessage::At(s) => tagged_str_json("at", s),
        GSCoreMessage::Reply(s) => tagged_str_json("reply", s),
        GSCoreMessage::Node(parts) => {
            let mut items: Vec<JsonValue> = Vec::new();
            let n = parts.len();
            let mut i: usize = 0;
            while i < n
                invariant
                    n == parts@.len(),
                    i <= n,
                    items@.len() == i,
                    crate::json::arr_text_from(items@, 0) == wn_list_text(
                        parts@.take(i as int),
                        0,
                    ),
                decreases n - i,
            {
                let wj = wn_to_json(&parts[i]);
                proof {
                    crate::json::lemma_arr_push_from(items@, wj, 0);
                    lemma_wn_push_from(parts@.take(i as int), parts@[i as int], 0);
                    assert(parts@.take(i + 1) =~= parts@.take(i as int).push(parts@[i as int]));
                }
                items.push(wj);
                i = i + 1;
            }
            proof {
                assert(parts@.take(n as int) =~= parts@);
            }
            let data = JsonValue::Arr(items);
            let ghost dtext = seq!['['] + wn_list_text(parts@, 0) + seq![']'];
            assert(json_text(data) =~= dtext);
            let mut ps: Vec<(String, JsonValue)> = Vec::new();
            let gg = push_field(
                &mut ps,
                "type",
                JsonValue::Str("node".to_owned()),
                Ghost(Seq::empty()),
            );
            let gg = push_field(&mut ps, "data", data, gg);
            obj_json(ps, gg)
        },
    }
}

/// The exec name of a target kind.
fn target_type_str(t: &TargetType) -> (r: &'static str)
    ensures
        r@ == target_type_text(*t),
{
    match t {
        TargetType::Group => "group",
        TargetType::Direct => "direct",
        TargetType::Channel => "channel",
        TargetType::SubChannel => "sub_channel",
    }
}

/// Encodes a `MessageReceive` packet to its exact frame text; the bridge
/// transmits it as one binary frame of JSON text.
#[verifier::rlimit(100)]
pub fn encode_message_receive(r: &MessageReceive) -> (s: String)
    ensures
        s@ == message_receive_text(*r),
{
    let mut ps: Vec<(String, JsonValue)> = Vec::new();
    let g = push_field(&mut ps, "bot_id", JsonValue::Str(r.bot_id.clone()), Ghost(Seq::empty()));
    let g = push_field(&mut ps, "bot_self_id", JsonValue::Str(r.bot_self_id.clone()), g);
    let g = push_field(&mut ps, "msg_id", JsonValue::Str(r.msg_id.clone()), g);
    let g = push_field(
        &mut ps,
        "user_type",
        JsonValue::Str(target_type_str(&r.user_type).to_owned()),
        g,
    );
    let gid: JsonValue = match &r.group_id {
        Some(x) => JsonValue::Str(x.clone()),
        None => JsonValue::Null,
    };
    let g = push_field(&mut ps, "group_id", gid, g);
    let g = push_field(&mut ps, "user_id", JsonValue::Str(r.user_id.clone()), g);
    let sender: JsonValue = {
        let mut sp: Vec<(String, JsonValue)> = Vec::new();
        let sg = push_field(
            &mut sp,
            "nickname",
            JsonValue::Str(r.sender.nickname.clone()),
            Ghost(Seq::empty()),
        );
        let sg = push_field(&mut sp, "avatar", JsonValue::Str(r.sender.avatar.clone()), sg);
        obj_json(sp, sg)
    };
    let g = push_field(&mut ps, "sender", sender, g);
    let g = push_field(&mut ps, "user_pm", JsonValue::Int(r.user_pm as i64), g);
    let content: JsonValue = {
        let mut items: Vec<JsonValue> = Vec::new();
        let n = r.content.len();
        let mut i: usize = 0;
        while i < n
            invariant
                n == r.content@.len(),
                i <= n,
                items@.len() == i,
                crate::json::arr_text_from(items@, 0) == gm_list_text(r.content@.take(i as int), 0),
            decreases n - i,
        {
            let gj = gm_to_json(&r.content[i]);
            proof {
                crate::json::lemma_arr_push_from(items@, gj, 0);
                lemma_gm_push_from(r.content@.take(i as int), r.content@[i as int], 0);
                assert(r.content@.take(i + 1) =~= r.content@.take(i as int).push(
                    r.content@[i as int],
                ));
            }
            items.push(gj);
            i = i + 1;
        }
        proof {
            assert(r.content@.take(n as int) =~= r.content@);
        }
        JsonValue::Arr(items)
    };
    let g = push_field(&mut ps, "content", content, g);
    let obj = obj_json(ps, g);
    let out = crate::json::render(&obj);
    proof {
        assert(out@ =~= message_receive_text(*r));
    }
    out
}

/// The numeric value of a run of decimal digits, most significant first;
/// nothing if any character is no digit or the run is empty.
pub open spec fn digits_val(s: Seq<char>) -> Option<int>
    decreases s.len(),
{
    if s.len() == 0 {
        None
    } else if s.len() == 1 {
        if '0' <= s[0] <= '9' {
            Some(s[0] as int - '0' as int)
        } else {
            None
        }
    } else {
        match digits_val(s.drop_last()) {
            Some(v) => if '0' <= s.last() <= '9' {
                Some(v * 10 + (s.last() as int - '0' as int))
            } else {
                None
            },
            None => None,
        }
    }
}

/// What `str::parse::<i64>` accepts: an optional sign, then decimal
/// digits, the value fitting the type.
pub open spec fn parse_i64_spec(s: Seq<char>) -> Option<i64> {
    let (neg, ds) = if s.len() > 0 && s[0] == '-' {
        (true, s.drop_first())
    } else if s.len() > 0 && s[0] == '+' {
        (false, s.drop_first())
    } else {
        (false, s)
    };
    match digits_val(ds) {
        Some(v) => {
            let signed = if neg {
                -v
            } else {
                v
            };
            if i64::MIN <= signed <= i64::MAX {
                Some(signed as i64)
            } else {
                None
            }
        },
        None => None,
    }
}

/// Parses a decimal integer exactly as the standard parser does.
pub fn parse_i64(s: &str) -> (r: Option<i64>)
    ensures
        r == parse_i64_spec(s@),
{
    let n = s.unicode_len();
    if n == 0 {
        return None;
    }
    let first = s.get_char(0);
    let neg = first == '-';
    let mut i: usize = if first == '-' || first == '+' {
        1
    } else {
        0
    };
    let ghost ds = if neg || first == '+' {
        s@.drop_first()
    } else {
        s@
    };
    let ghost start = i as int;
    if i >= n {
        assert(ds.len() == 0);
        return None;
    }
    let bound: u64 = if neg {
        9223372036854775808u64
    } else {
        9223372036854775807u64
    };
    let mut acc: u64 = 0;
    let mut over = false;
    while i < n
        invariant
            n == s@.len(),
            n > 0,
            neg == (s@[0] == '-'),
            ds == (if s@[0] == '-' || s@[0] == '+' {
                s@.drop_first()
            } else {
                s@
            }),
            start <= i <= n,
            start == (if ds.len() < n { 1int } else { 0int }),
            ds =~= s@.subrange(start, n as int),
            start < n,
            bound == (if neg {
                9223372036854775808u64
            } else {
                9223372036854775807u64
            }),
            i > start ==> (match digits_val(ds.take(i - start)) {
                Some(v) => if over {
                    v > bound
                } else {
                    v == acc && acc <= bound
                },
                None => false,
            }),
            i == start ==> !over && acc == 0,
        decreases n - i,
    {
        let c = s.get_char(i);
        if c < '0' || c > '9' {
            proof {
                lemma_digits_bad(ds, i - start);
            }
            return None;
        }
        let d = (c as u32 - '0' as u32) as u64;
        proof {
            assert(ds[i - start] == c);
            assert(ds.take(i + 1 - start).drop_last() =~= ds.take(i - start));
            assert(ds.take(i + 1 - start).last() == c);
        }
        if over {
            proof {
                let prev = digits_val(ds.take(i - start)).unwrap();
                assert(digits_val(ds.take(i + 1 - start)) == Some(
                    prev * 10 + (c as int - '0' as int),
                ));
            }
        } else {
            if acc > (bound - d) / 10 {
                over = true;
                proof {
                    let prev = digits_val(ds.take(i - start)).unwrap();
                    assert(prev == acc);
                    assert(digits_val(ds.take(i + 1 - start)) == Some(
                        prev * 10 + (c as int - '0' as int),
                    ));
                    assert(acc * 10 + d > bound) by (nonlinear_arith)
                        requires
                            acc > (bound - d) / 10,
                            d <= 9,
                            bound >= 9,
                            acc <= u64::MAX,
                    ;
                }
            } else {
                proof {
                    assert(acc * 10 + d <= bound) by (nonlinear_arith)
                        requires
                            acc <= (bound - d) / 10,
                            d <= 9,
                            bound >= 9,
                    ;
                }
                acc = acc * 10 + d;
            }
        }
        i = i + 1;
    }
    proof {
        assert(ds.take(n - start) =~= ds);
    }
    if over {
        proof {
            let v = digits_val(ds).unwrap();
            assert(v > bound);
        }
        return None;
    }
    if neg {
        if acc == 9223372036854775808u64 {
            Some(i64::MIN)
        } else {
            Some(-(acc as i64))
        }
    } else {
        Some(acc as i64)
    }
}

/// A non-digit anywhere refutes the whole run.
proof fn lemma_digits_bad(s: Seq<char>, j: int)
    requires
        0 <= j < s.len(),
        !('0' <= s[j] <= '9'),
    ensures
        digits_val(s) is None,
    decreases s.len(),
{
    if s.len() > 1 {
        if j < s.len() - 1 {
            lemma_digits_bad(s.drop_last(), j);
        }
    }
}


/// What one bridge part becomes as a primary segment under the
/// configured node sender identity: a forward node wraps each of its
/// parts into a one-part message under one node segment; a diagnostic
/// part becomes a placeholder text.
pub open spec fn seg_matches_gm(
    g: GSCoreMessage,
    s: Segment,
    id: Seq<char>,
    nick: Seq<char>,
) -> bool {
    match g {
        GSCoreMessage::Text(t) => s == (Segment::Text { text: t }),
        GSCoreMessage::Markdown(t) => s == (Segment::Text { text: t }),
        GSCoreMessage::Image(u) => s == (Segment::Image {
            file: u,
            kind: None::<String>,
            url: None::<String>,
            cache: None::<bool>,
            proxy: None::<bool>,
            timeout: None::<u32>,
        }),
        GSCoreMessage::At(q) => s == (Segment::At { qq: q }),
        GSCoreMessage::Reply(i) => s == (Segment::Reply { id: i }),
        GSCoreMessage::Node(xs) => {
            &&& s matches Segment::Node { id: nid, user_id, nickname, content }
            &&& nid is None
            &&& user_id matches Some(u) && u@ == id
            &&& nickname matches Some(n) && n@ == nick
            &&& content matches Some(m) && m.0@.len() == xs@.len() && (forall|k: int|
                0 <= k < xs@.len() ==> seg_matches_wn(xs@[k], #[trigger] m.0@[k]))
        },
        GSCoreMessage::Log(_) => s matches Segment::Text { text } && text@ == "<unsupp: log>"@,
    }
}

/// Translates one inbound bridge part into a primary segment.
pub fn segment_of_gscore(g: &GSCoreMessage, id: &str, nick: &str) -> (s: Segment)
    ensures
        seg_matches_gm(*g, s, id@, nick@),
{
    match g {
        GSCoreMessage::Text(t) => Segment::Text { text: t.clone() },
        GSCoreMessage::Markdown(t) => Segment::Text { text: t.clone() },
        GSCoreMessage::Image(u) => Segment::image(u.clone()),
        GSCoreMessage::At(q) => Segment::At { qq: q.clone() },
        GSCoreMessage::Reply(i) => Segment::Reply { id: i.clone() },
        GSCoreMessage::Node(xs) => {
            let mut inner: Vec<Segment> = Vec::new();
            let n = xs.len();
            let mut k: usize = 0;
            while k < n
                invariant
                    n == xs@.len(),
                    k <= n,
                    inner@.len() == k,
                    forall|j: int| 0 <= j < k ==> seg_matches_wn(xs@[j], #[trigger] inner@[j]),
                decreases n - k,
            {
                let seg = segment_of_wn(&xs[k]);
                inner.push(seg);
                k = k + 1;
            }
            Segment::Node {
                id: None,
                user_id: Some(id.to_owned()),
                nickname: Some(nick.to_owned()),
                content: Some(Message(inner)),
            }
        },
        GSCoreMessage::Log(_) => Segment::Text { text: "<unsupp: log>".to_owned() },
    }
}

/// Translates inbound bridge content into a primary message, in order.
pub fn message_of_gscore(content: &Vec<GSCoreMessage>, id: &str, nick: &str) -> (m: Message)
    ensures
        m.0@.len() == content@.len(),
        forall|i: int|
            0 <= i < content@.len() ==> seg_matches_gm(
                content@[i],
                #[trigger] m.0@[i],
                id@,
                nick@,
            ),
{
    let mut segs: Vec<Segment> = Vec::new();
    let n = content.len();
    let mut i: usize = 0;
    while i < n
        invariant
            n == content@.len(),
            i <= n,
            segs@.len() == i,
            forall|j: int|
                0 <= j < i ==> seg_matches_gm(content@[j], #[trigger] segs@[j], id@, nick@),
        decreases n - i,
    {
        let seg = segment_of_gscore(&content[i], id, nick);
        segs.push(seg);
        i = i + 1;
    }
    Message(segs)
}

/// The node-safe parts of the first `i` content elements, flattened in
/// order: what the batched forward carries.
pub open spec fn flat_prefix(
    content: Seq<GSCoreMessage>,
    i: int,
) -> Seq<GSCoreMessageWithoutNode>
    decreases i,
{
    if i <= 0 {
        Seq::empty()
    } else {
        flat_prefix(content, i - 1) + (match content[i - 1] {
            GSCoreMessage::Node(xs) => xs@,
            _ => Seq::empty(),
        })
    }
}

/// One forward node wrapping one node-safe part.
pub open spec fn node_wraps(
    w: GSCoreMessageWithoutNode,
    s: Segment,
    id: Seq<char>,
    nick: Seq<char>,
) -> bool {
    &&& s matches Segment::Node { id: nid, user_id, nickname, content }
    &&& nid is None
    &&& user_id matches Some(u) && u@ == id
    &&& nickname matches Some(n) && n@ == nick
    &&& content matches Some(m) && m.0@.len() == 1 && seg_matches_wn(w, m.0@[0])
}

/// Collects the forward nodes of inbound content: one node segment per
/// node-safe part found inside the content's forward nodes, in order.
pub fn forward_segments(content: &Vec<GSCoreMessage>, id: &str, nick: &str) -> (r: Vec<Segment>)
    ensures
        r@.len() == flat_prefix(content@, content@.len() as int).len(),
        forall|k: int|
            0 <= k < r@.len() ==> node_wraps(
                flat_prefix(content@, content@.len() as int)[k],
                #[trigger] r@[k],
                id@,
                nick@,
            ),
{
    let mut r: Vec<Segment> = Vec::new();
    let n = content.len();
    let mut i: usize = 0;
    while i < n
        invariant
            n == content@.len(),
            i <= n,
            r@.len() == flat_prefix(content@, i as int).len(),
            forall|k: int|
                0 <= k < r@.len() ==> node_wraps(
                    flat_prefix(content@, i as int)[k],
                    #[trigger] r@[k],
                    id@,
                    nick@,
                ),
        decreases n - i,
    {
        match &content[i] {
            GSCoreMessage::Node(xs) => {
                let m = xs.len();
                let mut k: usize = 0;
                while k < m
                    invariant
                        n == content@.len(),
                        i < n,
                        content@[i as int] matches GSCoreMessage::Node(ys) && ys@ == xs@,
                        m == xs@.len(),
                        k <= m,
                        r@.len() == flat_prefix(content@, i as int).len() + k,
                        forall|j: int|
                            0 <= j < flat_prefix(content@, i as int).len() ==> node_wraps(
                                flat_prefix(content@, i as int)[j],
                                #[trigger] r@[j],
                                id@,
                                nick@,
                            ),
                        forall|j: int|
                            flat_prefix(content@, i as int).len() <= j < r@.len() ==> node_wraps(
                                xs@[j - flat_prefix(content@, i as int).len()],
                                #[trigger] r@[j],
                                id@,
                                nick@,
                            ),
                    decreases m - k,
                {
                    let mut inner: Vec<Segment> = Vec::new();
                    let seg = segment_of_wn(&xs[k]);
                    inner.push(seg);
                    let node = Segment::Node {
                        id: None,
                        user_id: Some(id.to_owned()),
                        nickname: Some(nick.to_owned()),
                        content: Some(Message(inner)),
                    };
                    r.push(node);
                    k = k + 1;
                }
            },
            _ => {},
        }
        proof {
            assert(flat_prefix(content@, i + 1) =~= flat_prefix(content@, i as int) + (
            match content@[i as int] {
                GSCoreMessage::Node(xs) => xs@,
                _ => Seq::empty(),
            }));
            let l = flat_prefix(content@, i as int).len() as int;
            assert forall|k: int| 0 <= k < r@.len() implies node_wraps(
                flat_prefix(content@, i + 1)[k],
                #[trigger] r@[k],
                id@,
                nick@,
            ) by {
                if k < l {
                    assert(flat_prefix(content@, i + 1)[k] == flat_prefix(content@, i as int)[k]);
                } else {
                    assert(flat_prefix(content@, i + 1)[k] == (match content@[i as int] {
                        GSCoreMessage::Node(xs) => xs@,
                        _ => Seq::<GSCoreMessageWithoutNode>::empty(),
                    })[k - l]);
                }
            }
        }
        i = i + 1;
    }
    r
}

/// What the bridge decides for one inbound packet.
pub enum BridgePlan {
    /// The packet carried no content: nothing to do.
    Empty,
    /// The packet was a diagnostic line: log it and drop it.
    LogLine { text: String },
    /// The packet named no usable target: the command is dropped with an
    /// error.
    MissingTarget,
    /// Send `message` to the target; batched as a forward when the
    /// content carried forward nodes.
    Send { group: bool, target: i64, message: Message, forward: bool },
}

/// Whether inbound content opens with a diagnostic part.
pub open spec fn starts_with_log(content: Seq<GSCoreMessage>) -> bool {
    content.len() > 0 && content[0] is Log
}

/// Decides what one inbound bridge packet asks of the primary
/// connection, translating its content under the configured node sender
/// identity.
pub fn plan_message_send(send: MessageSend, id: &str, nick: &str) -> (r: BridgePlan)
    ensures
        match send.content {
            None => r == BridgePlan::Empty,
            Some(content) => {
                if starts_with_log(content@) {
                    r matches BridgePlan::LogLine { text } && content@[0] matches
                        GSCoreMessage::Log(t) && text == t
                } else if send.target_type is None {
                    r == BridgePlan::MissingTarget
                } else if send.target_id is None {
                    r == BridgePlan::MissingTarget
                } else if parse_i64_spec(send.target_id.unwrap()@) is None {
                    r == BridgePlan::MissingTarget
                } else {
                    &&& r matches BridgePlan::Send { group, target, message, forward }
                    &&& group == (send.target_type.unwrap() == TargetType::Group)
                    &&& Some(target) == parse_i64_spec(send.target_id.unwrap()@)
                    &&& forward == (flat_prefix(content@, content@.len() as int).len() > 0)
                    &&& if forward {
                        message.0@.len() == flat_prefix(content@, content@.len() as int).len()
                            && (forall|k: int|
                            0 <= k < message.0@.len() ==> node_wraps(
                                flat_prefix(content@, content@.len() as int)[k],
                                #[trigger] message.0@[k],
                                id@,
                                nick@,
                            ))
                    } else {
                        message.0@.len() == content@.len() && (forall|k: int|
                            0 <= k < content@.len() ==> seg_matches_gm(
                                content@[k],
                                #[trigger] message.0@[k],
                                id@,
                                nick@,
                            ))
                    }
                }
            },
        },
{
    let content: Vec<GSCoreMessage> = match send.content {
        Some(c) => c,
        None => {
            return BridgePlan::Empty;
        },
    };
    if content.len() > 0 {
        match &content[0] {
            GSCoreMessage::Log(t) => {
                return BridgePlan::LogLine { text: t.clone() };
            },
            _ => {},
        }
    }
    let group: bool = match &send.target_type {
        Some(t) => match t {
            TargetType::Group => true,
            _ => false,
        },
        None => {
            return BridgePlan::MissingTarget;
        },
    };
    let target: i64 = match &send.target_id {
        Some(tid) => match parse_i64(tid.as_str()) {
            Some(t) => t,
            None => {
                return BridgePlan::MissingTarget;
            },
        },
        None => {
            return BridgePlan::MissingTarget;
        },
    };
    let forwards = forward_segments(&content, id, nick);
    if forwards.len() > 0 {
        BridgePlan::Send { group, target, message: Message(forwards), forward: true }
    } else {
        let message = message_of_gscore(&content, id, nick);
        BridgePlan::Send { group, target, message, forward: false }
    }
}


/// The grammar of one node-safe part: a known tag and a string payload.
pub open spec fn is_wn_model(d: JsonData) -> bool {
    match m_req_str_val(d, "type"@) {
        Some(tag) => (tag == "text"@ || tag == "markdown"@ || tag == "image"@ || tag == "at"@
            || tag == "reply"@) && m_req_str_ok(d, "data"@),
        None => false,
    }
}

/// The decoded node-safe part is pinned by its object.
pub open spec fn wn_matches(d: JsonData, w: GSCoreMessageWithoutNode) -> bool {
    match w {
        GSCoreMessageWithoutNode::Text(s) => m_req_str_val(d, "type"@) == Some("text"@)
            && m_req_str_val(d, "data"@) == Some(s@),
        GSCoreMessageWithoutNode::Markdown(s) => m_req_str_val(d, "type"@) == Some("markdown"@)
            && m_req_str_val(d, "data"@) == Some(s@),
        GSCoreMessageWithoutNode::Image(s) => m_req_str_val(d, "type"@) == Some("image"@)
            && m_req_str_val(d, "data"@) == Some(s@),
        GSCoreMessageWithoutNode::At(s) => m_req_str_val(d, "type"@) == Some("at"@)
            && m_req_str_val(d, "data"@) == Some(s@),
        GSCoreMessageWithoutNode::Reply(s) => m_req_str_val(d, "type"@) == Some("reply"@)
            && m_req_str_val(d, "data"@) == Some(s@),
    }
}

/// Decodes one node-safe part.
pub fn decode_wn(v: &serde_json::Value) -> (r: Option<GSCoreMessageWithoutNode>)
    ensures
        match r {
            Some(w) => is_wn_model(value_model(*v)) && wn_matches(value_model(*v), w),
            None => !is_wn_model(value_model(*v)),
        },
{
    let tag = match req_str(v, "type") {
        Some(t) => t,
        None => {
            return None;
        },
    };
    let data = match req_str(v, "data") {
        Some(x) => x,
        None => {
            return None;
        },
    };
    if str_is(&tag, "text") {
        Some(GSCoreMessageWithoutNode::Text(data))
    } else if str_is(&tag, "markdown") {
        Some(GSCoreMessageWithoutNode::Markdown(data))
    } else if str_is(&tag, "image") {
        Some(GSCoreMessageWithoutNode::Image(data))
    } else if str_is(&tag, "at") {
        Some(GSCoreMessageWithoutNode::At(data))
    } else if str_is(&tag, "reply") {
        Some(GSCoreMessageWithoutNode::Reply(data))
    } else {
        None
    }
}

/// Every element from `i` on is a node-safe part.
pub open spec fn is_wn_list_model(items: Seq<JsonData>, i: int) -> bool
    decreases items.len() - i,
{
    i >= items.len() || (is_wn_model(items[i]) && is_wn_list_model(items, i + 1))
}

/// The decoded node-safe parts match the elements pointwise.
pub open spec fn wn_list_matches(items: Seq<JsonData>, ws: Seq<GSCoreMessageWithoutNode>) -> bool {
    items.len() == ws.len() && (forall|k: int|
        0 <= k < items.len() ==> wn_matches(items[k], #[trigger] ws[k]))
}

/// Pointwise well-formedness gives the recursive form.
proof fn lemma_wn_list_all(items: Seq<JsonData>, i: int)
    requires
        0 <= i <= items.len(),
        forall|j: int| i <= j < items.len() ==> is_wn_model(#[trigger] items[j]),
    ensures
        is_wn_list_model(items, i),
    decreases items.len() - i,
{
    if i < items.len() {
        lemma_wn_list_all(items, i + 1);
    }
}

/// One ill-formed element refutes the recursive form.
proof fn lemma_wn_list_bad(items: Seq<JsonData>, i: int, j: int)
    requires
        0 <= i <= j < items.len(),
        !is_wn_model(items[j]),
    ensures
        !is_wn_list_model(items, i),
    decreases j - i,
{
    if i < j {
        lemma_wn_list_bad(items, i + 1, j);
    }
}

/// Decodes a node payload: an array of node-safe parts.
pub fn decode_wn_list(v: &serde_json::Value) -> (r: Option<Vec<GSCoreMessageWithoutNode>>)
    ensures
        match r {
            Some(ws) => value_model(*v) matches JsonData::Arr(items) && is_wn_list_model(items, 0)
                && wn_list_matches(items, ws@),
            None => !(value_model(*v) matches JsonData::Arr(items) && is_wn_list_model(items, 0)),
        },
{
    let a = match jv_as_array(v) {
        Some(a) => a,
        None => {
            return None;
        },
    };
    let ghost items = a@.map_values(|x: serde_json::Value| value_model(x));
    let n = a.len();
    let mut ws: Vec<GSCoreMessageWithoutNode> = Vec::new();
    let mut i: usize = 0;
    while i < n
        invariant
            n == a@.len(),
            value_model(*v) == JsonData::Arr(items),
            items == a@.map_values(|x: serde_json::Value| value_model(x)),
            items.len() == n,
            i <= n,
            ws@.len() == i,
            forall|j: int|
                0 <= j < i ==> is_wn_model(#[trigger] items[j]) && wn_matches(items[j], ws@[j]),
        decreases n - i,
    {
        assert(items[i as int] == value_model(a@[i as int]));
        match decode_wn(&a[i]) {
            Some(w) => {
                ws.push(w);
            },
            None => {
                proof {
                    lemma_wn_list_bad(items, 0, i as int);
                }
                return None;
            },
        }
        i = i + 1;
    }
    proof {
        lemma_wn_list_all(items, 0);
    }
    Some(ws)
}

/// The grammar of one bridge content part.
pub open spec fn is_gm_model(d: JsonData) -> bool {
    match m_req_str_val(d, "type"@) {
        Some(tag) => if tag == "log"@ || tag == "text"@ || tag == "markdown"@ || tag == "image"@
            || tag == "at"@ || tag == "reply"@ {
            m_req_str_ok(d, "data"@)
        } else if tag == "node"@ {
            m_has_key(d, "data"@) && (m_key(d, "data"@) matches JsonData::Arr(items)
                && is_wn_list_model(items, 0))
        } else {
            false
        },
        None => false,
    }
}

/// The decoded bridge part is pinned by its object.
pub open spec fn gm_matches(d: JsonData, g: GSCoreMessage) -> bool {
    match g {
        GSCoreMessage::Log(s) => m_req_str_val(d, "type"@) == Some("log"@) && m_req_str_val(
            d,
            "data"@,
        ) == Some(s@),
        GSCoreMessage::Text(s) => m_req_str_val(d, "type"@) == Some("text"@) && m_req_str_val(
            d,
            "data"@,
        ) == Some(s@),
        GSCoreMessage::Markdown(s) => m_req_str_val(d, "type"@) == Some("markdown"@)
            && m_req_str_val(d, "data"@) == Some(s@),
        GSCoreMessage::Image(s) => m_req_str_val(d, "type"@) == Some("image"@) && m_req_str_val(
            d,
            "data"@,
        ) == Some(s@),
        GSCoreMessage::At(s) => m_req_str_val(d, "type"@) == Some("at"@) && m_req_str_val(
            d,
            "data"@,
        ) == Some(s@),
        GSCoreMessage::Reply(s) => m_req_str_val(d, "type"@) == Some("reply"@) && m_req_str_val(
            d,
            "data"@,
        ) == Some(s@),
        GSCoreMessage::Node(ws) => m_req_str_val(d, "type"@) == Some("node"@) && m_has_key(
            d,
            "data"@,
        ) && (m_key(d, "data"@) matches JsonData::Arr(items) && wn_list_matches(items, ws@)),
    }
}

/// Decodes one bridge content part.
pub fn decode_gm(v: &serde_json::Value) -> (r: Option<GSCoreMessage>)
    ensures
        match r {
            Some(g) => is_gm_model(value_model(*v)) && gm_matches(value_model(*v), g),
            None => !is_gm_model(value_model(*v)),
        },
{
    let tag = match req_str(v, "type") {
        Some(t) => t,
        None => {
            return None;
        },
    };
    if str_is(&tag, "log") || str_is(&tag, "text") || str_is(&tag, "markdown") || str_is(
        &tag,
        "image",
    ) || str_is(&tag, "at") || str_is(&tag, "reply") {
        let data = match req_str(v, "data") {
            Some(x) => x,
            None => {
                return None;
            },
        };
        if str_is(&tag, "log") {
            Some(GSCoreMessage::Log(data))
        } else if str_is(&tag, "text") {
            Some(GSCoreMessage::Text(data))
        } else if str_is(&tag, "markdown") {
            Some(GSCoreMessage::Markdown(data))
        } else if str_is(&tag, "image") {
            Some(GSCoreMessage::Image(data))
        } else if str_is(&tag, "at") {
            Some(GSCoreMessage::At(data))
        } else {
            Some(GSCoreMessage::Reply(data))
        }
    } else if str_is(&tag, "node") {
        let dv = match jv_get(v, "data") {
            Some(d) => d,
            None => {
                return None;
            },
        };
        match decode_wn_list(dv) {
            Some(ws) => Some(GSCoreMessage::Node(ws)),
            None => None,
        }
    } else {
        None
    }
}

/// Every element from `i` on is a bridge content part.
pub open spec fn is_gm_list_model(items: Seq<JsonData>, i: int) -> bool
    decreases items.len() - i,
{
    i >= items.len() || (is_gm_model(items[i]) && is_gm_list_model(items, i + 1))
}

/// The decoded parts match the elements pointwise.
pub open spec fn gm_list_matches(items: Seq<JsonData>, gs: Seq<GSCoreMessage>) -> bool {
    items.len() == gs.len() && (forall|k: int|
        0 <= k < items.len() ==> gm_matches(items[k], #[trigger] gs[k]))
}

/// Pointwise well-formedness gives the recursive form.
proof fn lemma_gm_list_all(items: Seq<JsonData>, i: int)
    requires
        0 <= i <= items.len(),
        forall|j: int| i <= j < items.len() ==> is_gm_model(#[trigger] items[j]),
    ensures
        is_gm_list_model(items, i),
    decreases items.len() - i,
{
    if i < items.len() {
        lemma_gm_list_all(items, i + 1);
    }
}

/// One ill-formed element refutes the recursive form.
proof fn lemma_gm_list_bad(items: Seq<JsonData>, i: int, j: int)
    requires
        0 <= i <= j < items.len(),
        !is_gm_model(items[j]),
    ensures
        !is_gm_list_model(items, i),
    decreases j - i,
{
    if i < j {
        lemma_gm_list_bad(items, i + 1, j);
    }
}

/// The name of a target kind, read back from the wire.
pub open spec fn target_type_of(t: Seq<char>) -> Option<TargetType> {
    if t == "group"@ {
        Some(TargetType::Group)
    } else if t == "direct"@ {
        Some(TargetType::Direct)
    } else if t == "channel"@ {
        Some(TargetType::Channel)
    } else if t == "sub_channel"@ {
        Some(TargetType::SubChannel)
    } else {
        None
    }
}

/// The grammar of an inbound bridge packet: three required string
/// identities, an optional known target kind, an optional string target,
/// and optional content of bridge parts.
pub open spec fn is_message_send_model(d: JsonData) -> bool {
    &&& m_req_str_ok(d, "bot_id"@)
    &&& m_req_str_ok(d, "bot_self_id"@)
    &&& m_req_str_ok(d, "msg_id"@)
    &&& m_has_key(d, "target_type"@) ==> (m_key(d, "target_type"@) is Null || (match m_as_str(
        m_key(d, "target_type"@),
    ) {
        Some(t) => target_type_of(t) is Some,
        None => false,
    }))
    &&& m_opt_str_ok(d, "target_id"@)
    &&& m_has_key(d, "content"@) ==> (m_key(d, "content"@) is Null || (m_key(d, "content"@)
        matches JsonData::Arr(items) && is_gm_list_model(items, 0)))
}

/// The decoded packet is pinned by its frame.
pub open spec fn message_send_matches(d: JsonData, ms: MessageSend) -> bool {
    &&& m_req_str_val(d, "bot_id"@) == Some(ms.bot_id@)
    &&& m_req_str_val(d, "bot_self_id"@) == Some(ms.bot_self_id@)
    &&& m_req_str_val(d, "msg_id"@) == Some(ms.msg_id@)
    &&& match ms.target_type {
        Some(t) => m_has_key(d, "target_type"@) && (match m_as_str(m_key(d, "target_type"@)) {
            Some(s) => target_type_of(s) == Some(t),
            None => false,
        }),
        None => !m_has_key(d, "target_type"@) || m_key(d, "target_type"@) is Null,
    }
    &&& view_opt_str(ms.target_id) == m_opt_str_val(d, "target_id"@)
    &&& match ms.content {
        Some(gs) => m_has_key(d, "content"@) && (m_key(d, "content"@) matches JsonData::Arr(items)
            && gm_list_matches(items, gs@)),
        None => !m_has_key(d, "content"@) || m_key(d, "content"@) is Null,
    }
}

/// Decodes an inbound bridge packet, failing exactly where the grammar
/// fails.
pub fn decode_message_send(v: &serde_json::Value) -> (r: Option<MessageSend>)
    ensures
        match r {
            Some(ms) => is_message_send_model(value_model(*v)) && message_send_matches(
                value_model(*v),
                ms,
            ),
            None => !is_message_send_model(value_model(*v)),
        },
{
    let bot_id = match req_str(v, "bot_id") {
        Some(x) => x,
        None => {
            return None;
        },
    };
    let bot_self_id = match req_str(v, "bot_self_id") {
        Some(x) => x,
        None => {
            return None;
        },
    };
    let msg_id = match req_str(v, "msg_id") {
        Some(x) => x,
        None => {
            return None;
        },
    };
    let target_type: Option<TargetType> = match jv_get(v, "target_type") {
        Some(tv) => {
            if jv_is_null(tv) {
                None
            } else {
                match crate::jmodel::jv_as_str(tv) {
                    Some(t) => {
                        let ts = t.to_owned();
                        if str_is(&ts, "group") {
                            Some(TargetType::Group)
                        } else if str_is(&ts, "direct") {
                            Some(TargetType::Direct)
                        } else if str_is(&ts, "channel") {
                            Some(TargetType::Channel)
                        } else if str_is(&ts, "sub_channel") {
                            Some(TargetType::SubChannel)
                        } else {
                            return None;
                        }
                    },
                    None => {
                        return None;
                    },
                }
            }
        },
        None => None,
    };
    let target_id = match opt_str(v, "target_id") {
        Some(x) => x,
        None => {
            return None;
        },
    };
    let content: Option<Vec<GSCoreMessage>> = match jv_get(v, "content") {
        Some(cv) => {
            if jv_is_null(cv) {
                None
            } else {
                let a = match jv_as_array(cv) {
                    Some(a) => a,
                    None => {
                        return None;
                    },
                };
                let ghost items = a@.map_values(|x: serde_json::Value| value_model(x));
                let n = a.len();
                let mut gs: Vec<GSCoreMessage> = Vec::new();
                let mut i: usize = 0;
                while i < n
                    invariant
                        n == a@.len(),
                        value_model(*cv) == JsonData::Arr(items),
                        m_has_key(value_model(*v), "content"@),
                        m_key(value_model(*v), "content"@) == JsonData::Arr(items),
                        items == a@.map_values(|x: serde_json::Value| value_model(x)),
                        items.len() == n,
                        i <= n,
                        gs@.len() == i,
                        forall|j: int|
                            0 <= j < i ==> is_gm_model(#[trigger] items[j]) && gm_matches(
                                items[j],
                                gs@[j],
                            ),
                    decreases n - i,
                {
                    assert(items[i as int] == value_model(a@[i as int]));
                    match decode_gm(&a[i]) {
                        Some(g) => {
                            gs.push(g);
                        },
                        None => {
                            proof {
                                lemma_gm_list_bad(items, 0, i as int);
                            }
                            return None;
                        },
                    }
                    i = i + 1;
                }
                proof {
                    lemma_gm_list_all(items, 0);
                }
                Some(gs)
            }
        },
        None => None,
    };
    Some(MessageSend { bot_id, bot_self_id, msg_id, target_type, target_id, content })
}

} // verus!
