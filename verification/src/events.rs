//! The inbound event model: every uncorrelated backend notification, as a
//! tagged union over message, notice, request and meta-event kinds.

use crate::json::json_text;
use crate::message::Message;
use crate::message::Segment;
use crate::message::message_text;
use crate::message::segment_text;
use crate::message::segs_text_from;
use vstd::prelude::*;

verus! {

/// The fields every event carries: its timestamp and the bot's identity.
pub struct EventBase {
    pub time: i64,
    pub self_id: i64,
}

#[derive(PartialEq, Eq, Structural)]
pub enum PrivateMessageType {
    Friend,
    Group,
    Other,
}

pub struct PrivateSender {
    pub user_id: i64,
    pub nickname: String,
    pub sex: Option<String>,
    pub age: Option<i32>,
}

pub struct PrivateMessage {
    pub base: EventBase,
    pub sub_type: PrivateMessageType,
    pub message_id: i32,
    pub user_id: i64,
    pub message: Message,
    pub raw_message: String,
    pub font: i32,
    pub sender: PrivateSender,
}

#[derive(PartialEq, Eq, Structural)]
pub enum GroupMessageType {
    Normal,
    Anonymous,
    Notice,
}

pub struct GroupSender {
    pub user_id: i64,
    pub nickname: String,
    pub card: Option<String>,
    pub sex: Option<String>,
    pub age: Option<i32>,
    pub area: Option<String>,
    pub level: Option<String>,
    pub role: Option<String>,
    pub title: Option<String>,
}

pub struct Anonymous {
    pub id: i64,
    pub name: String,
    pub flag: String,
}

pub struct GroupMessage {
    pub base: EventBase,
    pub sub_type: String,
    pub message_id: i32,
    pub group_id: i64,
    pub user_id: i64,
    pub anonymous: Option<Anonymous>,
    pub message: Message,
    pub raw_message: String,
    pub font: i32,
    pub sender: GroupSender,
}

pub enum MessageEvent {
    Private(PrivateMessage),
    Group(GroupMessage),
}

pub struct File {
    pub id: String,
    pub name: String,
    pub size: i64,
    pub busid: i64,
}

pub struct GroupUploadNotice {
    pub base: EventBase,
    pub group_id: i64,
    pub user_id: i64,
    pub file: File,
}

#[derive(PartialEq, Eq, Structural)]
pub enum GroupAdminType {
    SetAdmin,
    UnsetAdmin,
}

pub struct GroupAdminNotice {
    pub base: EventBase,
    pub sub_type: GroupAdminType,
    pub group_id: i64,
    pub user_id: i64,
}

#[derive(PartialEq, Eq, Structural)]
pub enum GroupDecreaseType {
    Leave,
    Kick,
    KickMe,
}

pub struct GroupDecreaseNotice {
    pub base: EventBase,
    pub sub_type: GroupDecreaseType,
    pub group_id: i64,
    pub operator_id: i64,
    pub user_id: i64,
}

#[derive(PartialEq, Eq, Structural)]
pub enum GroupIncreaseType {
    Approve,
    Invite,
}

pub struct GroupIncreaseNotice {
    pub base: EventBase,
    pub sub_type: GroupIncreaseType,
    pub group_id: i64,
    pub operator_id: i64,
    pub user_id: i64,
}

#[derive(PartialEq, Eq, Structural)]
pub enum GroupBanType {
    Ban,
    LiftBan,
}

pub struct GroupBanNotice {
    pub base: EventBase,
    pub sub_type: GroupBanType,
    pub group_id: i64,
    pub operator_id: i64,
    pub user_id: i64,
    pub duration: i64,
}

pub struct FriendAddNotice {
    pub base: EventBase,
    pub user_id: i64,
}

pub struct GroupRecallNotice {
    pub base: EventBase,
    pub group_id: i64,
    pub user_id: i64,
    pub operator_id: i64,
    pub message_id: i64,
}

pub struct FriendRecallNotice {
    pub base: EventBase,
    pub user_id: i64,
    pub message_id: i64,
}

pub struct PokeNotify {
    pub base: EventBase,
    pub group_id: i64,
    pub user_id: i64,
    pub target_id: i64,
}

pub struct LuckyKingNotify {
    pub base: EventBase,
    pub group_id: i64,
    pub user_id: i64,
    pub target_id: i64,
}

#[derive(PartialEq, Eq, Structural)]
pub enum HonorType {
    Talkative,
    Performer,
    Emotion,
}

pub struct HonorNotify {
    pub base: EventBase,
    pub group_id: i64,
    pub honor_type: HonorType,
    pub user_id: i64,
}

pub enum NotifyEvent {
    Poke(PokeNotify),
    LuckyKing(LuckyKingNotify),
    Honor(HonorNotify),
}

pub struct GroupCardNotice {
    pub base: EventBase,
    pub group_id: i64,
    pub user_id: i64,
    pub card_new: String,
    pub card_old: String,
}

pub enum Notice {
    GroupUpload(GroupUploadNotice),
    GroupAdmin(GroupAdminNotice),
    GroupDecrease(GroupDecreaseNotice),
    GroupIncrease(GroupIncreaseNotice),
    GroupBan(GroupBanNotice),
    FriendAdd(FriendAddNotice),
    GroupRecall(GroupRecallNotice),
    FriendRecall(FriendRecallNotice),
    Notify(NotifyEvent),
    GroupCard(GroupCardNotice),
}

pub struct FriendRequest {
    pub base: EventBase,
    pub user_id: i64,
    pub comment: String,
    pub flag: String,
}

#[derive(PartialEq, Eq, Structural)]
pub enum GroupRequestType {
    Add,
    Invite,
}

pub struct GroupRequest {
    pub base: EventBase,
    pub sub_type: GroupRequestType,
    pub group_id: i64,
    pub user_id: i64,
    pub comment: String,
    pub flag: String,
}

pub enum Request {
    Friend(FriendRequest),
    Group(GroupRequest),
}

pub struct LifeCycle {
    pub base: EventBase,
    pub sub_type: String,
}

pub struct HeartBeat {
    pub base: EventBase,
    pub status: serde_json::Value,
}

pub enum MetaEvent {
    LifeCycle(LifeCycle),
    HeartBeat(HeartBeat),
}

/// An unsolicited backend notification, selected by the frame's
/// discriminator field.
pub enum Event {
    MessageEvent(MessageEvent),
    Notice(Notice),
    RequestEvent(Request),
    MetaEvent(MetaEvent),
}

impl MessageEvent {
    /// The sending user, for either message kind.
    pub fn user_id(&self) -> (r: i64)
        ensures
            r == (match *self {
                MessageEvent::Private(ref p) => p.user_id,
                MessageEvent::Group(ref g) => g.user_id,
            }),
    {
        match self {
            MessageEvent::Private(p) => p.user_id,
            MessageEvent::Group(g) => g.user_id,
        }
    }

    /// The raw text form of the message.
    pub fn raw_message(&self) -> (r: &String)
        ensures
            r@ == (match *self {
                MessageEvent::Private(ref p) => p.raw_message@,
                MessageEvent::Group(ref g) => g.raw_message@,
            }),
    {
        match self {
            MessageEvent::Private(p) => &p.raw_message,
            MessageEvent::Group(g) => &g.raw_message,
        }
    }

    /// The structured message content.
    pub fn message(&self) -> (r: &Message)
        ensures
            *r == (match *self {
                MessageEvent::Private(ref p) => p.message,
                MessageEvent::Group(ref g) => g.message,
            }),
    {
        match self {
            MessageEvent::Private(p) => &p.message,
            MessageEvent::Group(g) => &g.message,
        }
    }

    /// The request that replies to this message: a private send for a
    /// private message, a group send for a group message, quoting the
    /// message when asked to.
    pub fn reply_request(&self, message: Message, quote: bool, echo: String) -> (r:
        crate::frame::Request)
        ensures
            r.echo == echo,
            match *self {
                MessageEvent::Private(ref p) => r.action@ == "send_private_msg"@ && json_text(
                    r.params,
                ) == crate::proto::send_private_params_text(
                    p.user_id,
                    quoted_message_text(message, p.message_id, quote),
                ),
                MessageEvent::Group(ref g) => r.action@ == "send_group_msg"@ && json_text(r.params)
                    == crate::proto::send_group_params_text(
                    g.group_id,
                    quoted_message_text(message, g.message_id, quote),
                ),
            },
    {
        match self {
            MessageEvent::Private(p) => p.reply_request(message, quote, echo),
            MessageEvent::Group(g) => g.reply_request(message, quote, echo),
        }
    }
}

/// The wire text of the reference segment quoting message `mid`.
pub open spec fn reply_seg_text(mid: i32) -> Seq<char> {
    crate::message::tagged("reply"@, crate::json::fld_str("id"@, crate::json::int_text(mid as int)))
}

/// The wire text of a reply's content: the quoted reference first when
/// quoting, then the message itself.
pub open spec fn quoted_message_text(m: Message, mid: i32, quote: bool) -> Seq<char> {
    if quote {
        if m.0@.len() == 0 {
            seq!['['] + reply_seg_text(mid) + seq![']']
        } else {
            seq!['['] + reply_seg_text(mid) + seq![','] + segs_text_from(m.0@, 0) + seq![']']
        }
    } else {
        message_text(m)
    }
}

/// Prepending a segment shifts the rendering of the rest by one.
proof fn lemma_segs_shift(x: Segment, s: Seq<Segment>, i: int)
    requires
        0 <= i <= s.len(),
    ensures
        segs_text_from(seq![x] + s, i + 1) == segs_text_from(s, i),
    decreases s.len() - i,
{
    let c = seq![x] + s;
    if i < s.len() {
        assert(c[i + 1] == s[i]);
        lemma_segs_shift(x, s, i + 1);
    }
}

/// The reply content: the quoted reference segment inserted first when
/// quoting.
pub fn quoted(message: Message, message_id: i32, quote: bool) -> (r: Message)
    ensures
        message_text(r) == quoted_message_text(message, message_id, quote),
{
    let mut message = message;
    if quote {
        let rid = crate::json::int_to_string(message_id as i64);
        let seg = Segment::Reply { id: rid };
        let ghost s0 = message.0@;
        message.insert(0, seg);
        proof {
            assert(message.0@ =~= seq![seg] + s0);
            assert(segment_text(seg) == reply_seg_text(message_id));
            if s0.len() == 0 {
                assert(message_text(message) =~= seq!['['] + reply_seg_text(message_id)
                    + seq![']']);
            } else {
                lemma_segs_shift(seg, s0, 0);
                assert(message_text(message) =~= seq!['['] + reply_seg_text(message_id)
                    + seq![','] + segs_text_from(s0, 0) + seq![']']);
            }
        }
    }
    message
}

impl PrivateMessage {
    /// The request that replies privately to this message's sender.
    pub fn reply_request(&self, message: Message, quote: bool, echo: String) -> (r:
        crate::frame::Request)
        ensures
            r.echo == echo,
            r.action@ == "send_private_msg"@,
            json_text(r.params) == crate::proto::send_private_params_text(
                self.user_id,
                quoted_message_text(message, self.message_id, quote),
            ),
    {
        let m = quoted(message, self.message_id, quote);
        crate::proto::send_private_msg_request(self.user_id, m, echo)
    }
}

impl GroupMessage {
    /// The request that replies into this message's group.
    pub fn reply_request(&self, message: Message, quote: bool, echo: String) -> (r:
        crate::frame::Request)
        ensures
            r.echo == echo,
            r.action@ == "send_group_msg"@,
            json_text(r.params) == crate::proto::send_group_params_text(
                self.group_id,
                quoted_message_text(message, self.message_id, quote),
            ),
    {
        let m = quoted(message, self.message_id, quote);
        crate::proto::send_group_msg_request(self.group_id, m, echo)
    }
}

} // verus!
