//! The consumer-facing command API: each operation builds exactly one
//! outbound request frame, parameters pinned to their wire text, carrying
//! a fresh correlation token.
//!
//! The parameter objects render with their keys in lexicographic order,
//! which is the order a JSON object map serializes in.

use crate::frame::Request;
use crate::json::JsonValue;
use crate::json::bool_text;
use crate::json::fld;
use crate::json::fld_int;
use crate::json::fld_str;
use crate::json::json_text;
use crate::json::obj_of_fields;
use crate::json::push_field;
use crate::json::obj_json;
use crate::message::Message;
use crate::message::message_text;
use crate::message::message_to_json;
use vstd::prelude::*;
use vstd::string::StringExecFns;

verus! {

/// Relies on `uuid::Uuid::new_v4` and its hyphenated rendering: a fresh
/// random correlation token of 36 characters. Nothing more is promised of
/// a random value.
#[verifier::external_body]
pub fn fresh_token() -> (r: String)
    ensures
        r@.len() == 36,
{
    uuid::Uuid::new_v4().to_string()
}

/// The parameter text of a private send: `{"message":M,"user_id":N}`.
pub open spec fn send_private_params_text(user_id: i64, mtext: Seq<char>) -> Seq<char> {
    obj_of_fields(fld("message"@, mtext) + fld_int("user_id"@, user_id as int))
}

/// The parameter text of a group send: `{"group_id":N,"message":M}`.
pub open spec fn send_group_params_text(group_id: i64, mtext: Seq<char>) -> Seq<char> {
    obj_of_fields(fld_int("group_id"@, group_id as int) + fld("message"@, mtext))
}

/// A request frame from its parts.
fn req(action: &str, params: JsonValue, echo: String) -> (r: Request)
    ensures
        r.action@ == action@,
        r.params == params,
        r.echo == echo,
{
    Request { action: action.to_owned(), params, echo }
}

/// The private-send request under a given correlation token.
pub fn send_private_msg_request(user_id: i64, message: Message, echo: String) -> (r: Request)
    ensures
        r.action@ == "send_private_msg"@,
        r.echo == echo,
        json_text(r.params) == send_private_params_text(user_id, message_text(message)),
{
    let mut ps: Vec<(String, JsonValue)> = Vec::new();
    let g: Ghost<Seq<char>> = Ghost(Seq::empty());
    let g = push_field(&mut ps, "message", message_to_json(&message), g);
    let g = push_field(&mut ps, "user_id", JsonValue::Int(user_id), g);
    let params = obj_json(ps, g);
    req("send_private_msg", params, echo)
}

/// The group-send request under a given correlation token.
pub fn send_group_msg_request(group_id: i64, message: Message, echo: String) -> (r: Request)
    ensures
        r.action@ == "send_group_msg"@,
        r.echo == echo,
        json_text(r.params) == send_group_params_text(group_id, message_text(message)),
{
    let mut ps: Vec<(String, JsonValue)> = Vec::new();
    let g: Ghost<Seq<char>> = Ghost(Seq::empty());
    let g = push_field(&mut ps, "group_id", JsonValue::Int(group_id), g);
    let g = push_field(&mut ps, "message", message_to_json(&message), g);
    let params = obj_json(ps, g);
    req("send_group_msg", params, echo)
}

/// The optional target fields shared by the flexible send operations,
/// keys in their serialized order.
pub open spec fn target_fields_text(
    message_type: Option<&str>,
    user_id: Option<i64>,
    group_id: Option<i64>,
    mtext: Seq<char>,
) -> Seq<char> {
    (match group_id {
        Some(g) => fld_int("group_id"@, g as int),
        None => Seq::<char>::empty(),
    }) + fld("message"@, mtext) + (match message_type {
        Some(t) => fld_str("message_type"@, t@),
        None => Seq::<char>::empty(),
    }) + (match user_id {
        Some(u) => fld_int("user_id"@, u as int),
        None => Seq::<char>::empty(),
    })
}

/// The command-building face of the gateway: every operation of the
/// backend's API becomes one correlated request frame.
pub struct Protocol {}

impl Protocol {
    /// A fresh handle.
    pub fn new() -> (p: Protocol) {
        Protocol {}
    }

    /// Builds a request for an arbitrary action under a fresh token.
    pub fn send_request(&self, action: &str, params: JsonValue) -> (r: Request)
        ensures
            r.action@ == action@,
            r.params == params,
            r.echo@.len() == 36,
    {
        req(action, params, fresh_token())
    }

    /// Builds the `send_msg` request, targets chosen by the optional
    /// fields as the backend documents.
    pub fn send_message(
        &self,
        message_type: Option<&str>,
        user_id: Option<i64>,
        group_id: Option<i64>,
        message: Message,
    ) -> (r: Request)
        ensures
            r.action@ == "send_msg"@,
            r.echo@.len() == 36,
            json_text(r.params) == obj_of_fields(
                target_fields_text(message_type, user_id, group_id, message_text(message)),
            ),
    {
        let mut ps: Vec<(String, JsonValue)> = Vec::new();
        let g: Ghost<Seq<char>> = Ghost(Seq::empty());
        let g: Ghost<Seq<char>> = match group_id {
            Some(gid) => push_field(&mut ps, "group_id", JsonValue::Int(gid), g),
            None => g,
        };
        let g = push_field(&mut ps, "message", message_to_json(&message), g);
        let g: Ghost<Seq<char>> = match message_type {
            Some(t) => push_field(&mut ps, "message_type", JsonValue::Str(t.to_owned()), g),
            None => g,
        };
        let g: Ghost<Seq<char>> = match user_id {
            Some(u) => push_field(&mut ps, "user_id", JsonValue::Int(u), g),
            None => g,
        };
        let params = obj_json(ps, g);
        proof {
            assert(g@ =~= target_fields_text(
                message_type,
                user_id,
                group_id,
                message_text(message),
            ));
        }
        req("send_msg", params, fresh_token())
    }

    /// Builds the batched forward send, which travels as a `send_msg`
    /// frame whose message is the forward nodes.
    pub fn send_forward_msg(
        &self,
        message_type: Option<&str>,
        user_id: Option<i64>,
        group_id: Option<i64>,
        message: Message,
    ) -> (r: Request)
        ensures
            r.action@ == "send_msg"@,
            r.echo@.len() == 36,
            json_text(r.params) == obj_of_fields(
                target_fields_text(message_type, user_id, group_id, message_text(message)),
            ),
    {
        self.send_message(message_type, user_id, group_id, message)
    }

    /// Builds the `set_group_anonymous_ban` request; the anonymous sender
    /// may be named by its record or by its flag.
    pub fn set_group_anonymous_ban(
        &self,
        group_id: i64,
        duration: i64,
        anonymous: Option<JsonValue>,
        flag: Option<&str>,
    ) -> (r: Request)
        ensures
            r.action@ == "set_group_anonymous_ban"@,
            r.echo@.len() == 36,
            json_text(r.params) == obj_of_fields(
                (match anonymous {
                    Some(a) => fld("anonymous"@, json_text(a)),
                    None => Seq::<char>::empty(),
                }) + (match flag {
                    Some(f) => fld_str("anonymous_flag"@, f@),
                    None => Seq::<char>::empty(),
                }) + fld_int("duration"@, duration as int) + fld_int("group_id"@, group_id as int),
            ),
    {
        let mut ps: Vec<(String, JsonValue)> = Vec::new();
        let g: Ghost<Seq<char>> = Ghost(Seq::empty());
        let g: Ghost<Seq<char>> = match anonymous {
            Some(a) => push_field(&mut ps, "anonymous", a, g),
            None => g,
        };
        let g: Ghost<Seq<char>> = match flag {
            Some(f) => push_field(&mut ps, "anonymous_flag", JsonValue::Str(f.to_owned()), g),
            None => g,
        };
        let g = push_field(&mut ps, "duration", JsonValue::Int(duration), g);
        let g = push_field(&mut ps, "group_id", JsonValue::Int(group_id), g);
        let params = obj_json(ps, g);
        req("set_group_anonymous_ban", params, fresh_token())
    }

    /// Builds the `send_private_msg` request.
    pub fn send_private_message(&self, user_id: i64, message: Message) -> (r: Request)
        ensures
            r.action@ == "send_private_msg"@,
            r.echo@.len() == 36,
            json_text(r.params) == obj_of_fields(fld("message"@, message_text(message)) + fld_int("user_id"@, user_id as int)),
    {
        let mut ps: Vec<(String, JsonValue)> = Vec::new();
        let g: Ghost<Seq<char>> = Ghost(Seq::empty());
        let g = push_field(&mut ps, "message", message_to_json(&message), g);
        let g = push_field(&mut ps, "user_id", JsonValue::Int(user_id), g);
        let params = obj_json(ps, g);
        req("send_private_msg", params, fresh_token())
    }

    /// Builds the `send_group_msg` request.
    pub fn send_group_message(&self, group_id: i64, message: Message) -> (r: Request)
        ensures
            r.action@ == "send_group_msg"@,
            r.echo@.len() == 36,
            json_text(r.params) == obj_of_fields(fld_int("group_id"@, group_id as int) + fld("message"@, message_text(message))),
    {
        let mut ps: Vec<(String, JsonValue)> = Vec::new();
        let g: Ghost<Seq<char>> = Ghost(Seq::empty());
        let g = push_field(&mut ps, "group_id", JsonValue::Int(group_id), g);
        let g = push_field(&mut ps, "message", message_to_json(&message), g);
        let params = obj_json(ps, g);
        req("send_group_msg", params, fresh_token())
    }

    /// Builds the `delete_msg` request.
    pub fn delete_message(&self, message_id: i32) -> (r: Request)
        ensures
            r.action@ == "delete_msg"@,
            r.echo@.len() == 36,
            json_text(r.params) == obj_of_fields(fld_int("message_id"@, message_id as int)),
    {
        let mut ps: Vec<(String, JsonValue)> = Vec::new();
        let g: Ghost<Seq<char>> = Ghost(Seq::empty());
        let g = push_field(&mut ps, "message_id", JsonValue::Int(message_id as i64), g);
        let params = obj_json(ps, g);
        req("delete_msg", params, fresh_token())
    }

    /// Builds the `get_msg` request.
    pub fn get_message(&self, message_id: i32) -> (r: Request)
        ensures
            r.action@ == "get_msg"@,
            r.echo@.len() == 36,
            json_text(r.params) == obj_of_fields(fld_int("message_id"@, message_id as int)),
    {
        let mut ps: Vec<(String, JsonValue)> = Vec::new();
        let g: Ghost<Seq<char>> = Ghost(Seq::empty());
        let g = push_field(&mut ps, "message_id", JsonValue::Int(message_id as i64), g);
        let params = obj_json(ps, g);
        req("get_msg", params, fresh_token())
    }

    /// Builds the `get_forward_msg` request.
    pub fn get_forward_message(&self, id: &str) -> (r: Request)
        ensures
            r.action@ == "get_forward_msg"@,
            r.echo@.len() == 36,
            json_text(r.params) == obj_of_fields(fld_str("id"@, id@)),
    {
        let mut ps: Vec<(String, JsonValue)> = Vec::new();
        let g: Ghost<Seq<char>> = Ghost(Seq::empty());
        let g = push_field(&mut ps, "id", JsonValue::Str(id.to_owned()), g);
        let params = obj_json(ps, g);
        req("get_forward_msg", params, fresh_token())
    }

    /// Builds the `send_like` request.
    pub fn send_like(&self, user_id: i64, times: i32) -> (r: Request)
        ensures
            r.action@ == "send_like"@,
            r.echo@.len() == 36,
            json_text(r.params) == obj_of_fields(fld_int("times"@, times as int) + fld_int("user_id"@, user_id as int)),
    {
        let mut ps: Vec<(String, JsonValue)> = Vec::new();
        let g: Ghost<Seq<char>> = Ghost(Seq::empty());
        let g = push_field(&mut ps, "times", JsonValue::Int(times as i64), g);
        let g = push_field(&mut ps, "user_id", JsonValue::Int(user_id), g);
        let params = obj_json(ps, g);
        req("send_like", params, fresh_token())
    }

    /// Builds the `set_group_kick` request.
    pub fn set_group_kick(&self, group_id: i64, user_id: i64, reject_add_request: bool) -> (r: Request)
        ensures
            r.action@ == "set_group_kick"@,
            r.echo@.len() == 36,
            json_text(r.params) == obj_of_fields(fld_int("group_id"@, group_id as int) + fld("reject_add_request"@, bool_text(reject_add_request)) + fld_int("user_id"@, user_id as int)),
    {
        let mut ps: Vec<(String, JsonValue)> = Vec::new();
        let g: Ghost<Seq<char>> = Ghost(Seq::empty());
        let g = push_field(&mut ps, "group_id", JsonValue::Int(group_id), g);
        let g = push_field(&mut ps, "reject_add_request", JsonValue::Bool(reject_add_request), g);
        let g = push_field(&mut ps, "user_id", JsonValue::Int(user_id), g);
        let params = obj_json(ps, g);
        req("set_group_kick", params, fresh_token())
    }

    /// Builds the `set_group_ban` request.
    pub fn set_group_ban(&self, group_id: i64, user_id: i64, duration: i64) -> (r: Request)
        ensures
            r.action@ == "set_group_ban"@,
            r.echo@.len() == 36,
            json_text(r.params) == obj_of_fields(fld_int("duration"@, duration as int) + fld_int("group_id"@, group_id as int) + fld_int("user_id"@, user_id as int)),
    {
        let mut ps: Vec<(String, JsonValue)> = Vec::new();
        let g: Ghost<Seq<char>> = Ghost(Seq::empty());
        let g = push_field(&mut ps, "duration", JsonValue::Int(duration), g);
        let g = push_field(&mut ps, "group_id", JsonValue::Int(group_id), g);
        let g = push_field(&mut ps, "user_id", JsonValue::Int(user_id), g);
        let params = obj_json(ps, g);
        req("set_group_ban", params, fresh_token())
    }

    /// Builds the `set_group_whole_ban` request.
    pub fn set_group_whole_ban(&self, group_id: i64, enable: bool) -> (r: Request)
        ensures
            r.action@ == "set_group_whole_ban"@,
            r.echo@.len() == 36,
            json_text(r.params) == obj_of_fields(fld("enable"@, bool_text(enable)) + fld_int("group_id"@, group_id as int)),
    {
        let mut ps: Vec<(String, JsonValue)> = Vec::new();
        let g: Ghost<Seq<char>> = Ghost(Seq::empty());
        let g = push_field(&mut ps, "enable", JsonValue::Bool(enable), g);
        let g = push_field(&mut ps, "group_id", JsonValue::Int(group_id), g);
        let params = obj_json(ps, g);
        req("set_group_whole_ban", params, fresh_token())
    }

    /// Builds the `set_group_admin` request.
    pub fn set_group_admin(&self, group_id: i64, user_id: i64, enable: bool) -> (r: Request)
        ensures
            r.action@ == "set_group_admin"@,
            r.echo@.len() == 36,
            json_text(r.params) == obj_of_fields(fld("enable"@, bool_text(enable)) + fld_int("group_id"@, group_id as int) + fld_int("user_id"@, user_id as int)),
    {
        let mut ps: Vec<(String, JsonValue)> = Vec::new();
        let g: Ghost<Seq<char>> = Ghost(Seq::empty());
        let g = push_field(&mut ps, "enable", JsonValue::Bool(enable), g);
        let g = push_field(&mut ps, "group_id", JsonValue::Int(group_id), g);
        let g = push_field(&mut ps, "user_id", JsonValue::Int(user_id), g);
        let params = obj_json(ps, g);
        req("set_group_admin", params, fresh_token())
    }

    /// Builds the `set_group_anonymous` request.
    pub fn set_group_anonymous(&self, group_id: i64, enable: bool) -> (r: Request)
        ensures
            r.action@ == "set_group_anonymous"@,
            r.echo@.len() == 36,
            json_text(r.params) == obj_of_fields(fld("enable"@, bool_text(enable)) + fld_int("group_id"@, group_id as int)),
    {
        let mut ps: Vec<(String, JsonValue)> = Vec::new();
        let g: Ghost<Seq<char>> = Ghost(Seq::empty());
        let g = push_field(&mut ps, "enable", JsonValue::Bool(enable), g);
        let g = push_field(&mut ps, "group_id", JsonValue::Int(group_id), g);
        let params = obj_json(ps, g);
        req("set_group_anonymous", params, fresh_token())
    }

    /// Builds the `set_group_card` request.
    pub fn set_group_card(&self, group_id: i64, user_id: i64, card: &str) -> (r: Request)
        ensures
            r.action@ == "set_group_card"@,
            r.echo@.len() == 36,
            json_text(r.params) == obj_of_fields(fld_str("card"@, card@) + fld_int("group_id"@, group_id as int) + fld_int("user_id"@, user_id as int)),
    {
        let mut ps: Vec<(String, JsonValue)> = Vec::new();
        let g: Ghost<Seq<char>> = Ghost(Seq::empty());
        let g = push_field(&mut ps, "card", JsonValue::Str(card.to_owned()), g);
        let g = push_field(&mut ps, "group_id", JsonValue::Int(group_id), g);
        let g = push_field(&mut ps, "user_id", JsonValue::Int(user_id), g);
        let params = obj_json(ps, g);
        req("set_group_card", params, fresh_token())
    }

    /// Builds the `set_group_name` request.
    pub fn set_group_name(&self, group_id: i64, group_name: &str) -> (r: Request)
        ensures
            r.action@ == "set_group_name"@,
            r.echo@.len() == 36,
            json_text(r.params) == obj_of_fields(fld_int("group_id"@, group_id as int) + fld_str("group_name"@, group_name@)),
    {
        let mut ps: Vec<(String, JsonValue)> = Vec::new();
        let g: Ghost<Seq<char>> = Ghost(Seq::empty());
        let g = push_field(&mut ps, "group_id", JsonValue::Int(group_id), g);
        let g = push_field(&mut ps, "group_name", JsonValue::Str(group_name.to_owned()), g);
        let params = obj_json(ps, g);
        req("set_group_name", params, fresh_token())
    }

    /// Builds the `set_group_leave` request.
    pub fn set_group_leave(&self, group_id: i64, is_dismiss: bool) -> (r: Request)
        ensures
            r.action@ == "set_group_leave"@,
            r.echo@.len() == 36,
            json_text(r.params) == obj_of_fields(fld_int("group_id"@, group_id as int) + fld("is_dismiss"@, bool_text(is_dismiss))),
    {
        let mut ps: Vec<(String, JsonValue)> = Vec::new();
        let g: Ghost<Seq<char>> = Ghost(Seq::empty());
        let g = push_field(&mut ps, "group_id", JsonValue::Int(group_id), g);
        let g = push_field(&mut ps, "is_dismiss", JsonValue::Bool(is_dismiss), g);
        let params = obj_json(ps, g);
        req("set_group_leave", params, fresh_token())
    }

    /// Builds the `set_group_special_title` request.
    pub fn set_group_special_title(&self, group_id: i64, user_id: i64, special_title: &str, duration: i64) -> (r: Request)
        ensures
            r.action@ == "set_group_special_title"@,
            r.echo@.len() == 36,
            json_text(r.params) == obj_of_fields(fld_int("duration"@, duration as int) + fld_int("group_id"@, group_id as int) + fld_str("special_title"@, special_title@) + fld_int("user_id"@, user_id as int)),
    {
        let mut ps: Vec<(String, JsonValue)> = Vec::new();
        let g: Ghost<Seq<char>> = Ghost(Seq::empty());
        let g = push_field(&mut ps, "duration", JsonValue::Int(duration), g);
        let g = push_field(&mut ps, "group_id", JsonValue::Int(group_id), g);
        let g = push_field(&mut ps, "special_title", JsonValue::Str(special_title.to_owned()), g);
        let g = push_field(&mut ps, "user_id", JsonValue::Int(user_id), g);
        let params = obj_json(ps, g);
        req("set_group_special_title", params, fresh_token())
    }

    /// Builds the `set_friend_add_request` request.
    pub fn set_friend_add_request(&self, flag: &str, approve: bool, remark: &str) -> (r: Request)
        ensures
            r.action@ == "set_friend_add_request"@,
            r.echo@.len() == 36,
            json_text(r.params) == obj_of_fields(fld("approve"@, bool_text(approve)) + fld_str("flag"@, flag@) + fld_str("remark"@, remark@)),
    {
        let mut ps: Vec<(String, JsonValue)> = Vec::new();
        let g: Ghost<Seq<char>> = Ghost(Seq::empty());
        let g = push_field(&mut ps, "approve", JsonValue::Bool(approve), g);
        let g = push_field(&mut ps, "flag", JsonValue::Str(flag.to_owned()), g);
        let g = push_field(&mut ps, "remark", JsonValue::Str(remark.to_owned()), g);
        let params = obj_json(ps, g);
        req("set_friend_add_request", params, fresh_token())
    }

    /// Builds the `set_group_add_request` request.
    pub fn set_group_add_request(&self, flag: &str, sub_type: &str, approve: bool, reason: &str) -> (r: Request)
        ensures
            r.action@ == "set_group_add_request"@,
            r.echo@.len() == 36,
            json_text(r.params) == obj_of_fields(fld("approve"@, bool_text(approve)) + fld_str("flag"@, flag@) + fld_str("reason"@, reason@) + fld_str("sub_type"@, sub_type@)),
    {
        let mut ps: Vec<(String, JsonValue)> = Vec::new();
        let g: Ghost<Seq<char>> = Ghost(Seq::empty());
        let g = push_field(&mut ps, "approve", JsonValue::Bool(approve), g);
        let g = push_field(&mut ps, "flag", JsonValue::Str(flag.to_owned()), g);
        let g = push_field(&mut ps, "reason", JsonValue::Str(reason.to_owned()), g);
        let g = push_field(&mut ps, "sub_type", JsonValue::Str(sub_type.to_owned()), g);
        let params = obj_json(ps, g);
        req("set_group_add_request", params, fresh_token())
    }

    /// Builds the `get_login_info` request.
    pub fn get_login_info(&self) -> (r: Request)
        ensures
            r.action@ == "get_login_info"@,
            r.echo@.len() == 36,
            json_text(r.params) == obj_of_fields(Seq::<char>::empty()),
    {
        let mut ps: Vec<(String, JsonValue)> = Vec::new();
        let g: Ghost<Seq<char>> = Ghost(Seq::empty());
        
        let params = obj_json(ps, g);
        req("get_login_info", params, fresh_token())
    }

    /// Builds the `get_stranger_info` request.
    pub fn get_stranger_info(&self, user_id: i64, no_cache: bool) -> (r: Request)
        ensures
            r.action@ == "get_stranger_info"@,
            r.echo@.len() == 36,
            json_text(r.params) == obj_of_fields(fld("no_cache"@, bool_text(no_cache)) + fld_int("user_id"@, user_id as int)),
    {
        let mut ps: Vec<(String, JsonValue)> = Vec::new();
        let g: Ghost<Seq<char>> = Ghost(Seq::empty());
        let g = push_field(&mut ps, "no_cache", JsonValue::Bool(no_cache), g);
        let g = push_field(&mut ps, "user_id", JsonValue::Int(user_id), g);
        let params = obj_json(ps, g);
        req("get_stranger_info", params, fresh_token())
    }

    /// Builds the `get_friend_list` request.
    pub fn get_friend_list(&self) -> (r: Request)
        ensures
            r.action@ == "get_friend_list"@,
            r.echo@.len() == 36,
            json_text(r.params) == obj_of_fields(Seq::<char>::empty()),
    {
        let mut ps: Vec<(String, JsonValue)> = Vec::new();
        let g: Ghost<Seq<char>> = Ghost(Seq::empty());
        
        let params = obj_json(ps, g);
        req("get_friend_list", params, fresh_token())
    }

    /// Builds the `get_group_info` request.
    pub fn get_group_info(&self, group_id: i64, no_cache: bool) -> (r: Request)
        ensures
            r.action@ == "get_group_info"@,
            r.echo@.len() == 36,
            json_text(r.params) == obj_of_fields(fld_int("group_id"@, group_id as int) + fld("no_cache"@, bool_text(no_cache))),
    {
        let mut ps: Vec<(String, JsonValue)> = Vec::new();
        let g: Ghost<Seq<char>> = Ghost(Seq::empty());
        let g = push_field(&mut ps, "group_id", JsonValue::Int(group_id), g);
        let g = push_field(&mut ps, "no_cache", JsonValue::Bool(no_cache), g);
        let params = obj_json(ps, g);
        req("get_group_info", params, fresh_token())
    }

    /// Builds the `get_group_list` request.
    pub fn get_group_list(&self) -> (r: Request)
        ensures
            r.action@ == "get_group_list"@,
            r.echo@.len() == 36,
            json_text(r.params) == obj_of_fields(Seq::<char>::empty()),
    {
        let mut ps: Vec<(String, JsonValue)> = Vec::new();
        let g: Ghost<Seq<char>> = Ghost(Seq::empty());
        
        let params = obj_json(ps, g);
        req("get_group_list", params, fresh_token())
    }

    /// Builds the `get_group_member_info` request.
    pub fn get_group_member_info(&self, group_id: i64, user_id: i64, no_cache: bool) -> (r: Request)
        ensures
            r.action@ == "get_group_member_info"@,
            r.echo@.len() == 36,
            json_text(r.params) == obj_of_fields(fld_int("group_id"@, group_id as int) + fld("no_cache"@, bool_text(no_cache)) + fld_int("user_id"@, user_id as int)),
    {
        let mut ps: Vec<(String, JsonValue)> = Vec::new();
        let g: Ghost<Seq<char>> = Ghost(Seq::empty());
        let g = push_field(&mut ps, "group_id", JsonValue::Int(group_id), g);
        let g = push_field(&mut ps, "no_cache", JsonValue::Bool(no_cache), g);
        let g = push_field(&mut ps, "user_id", JsonValue::Int(user_id), g);
        let params = obj_json(ps, g);
        req("get_group_member_info", params, fresh_token())
    }

    /// Builds the `get_group_member_list` request.
    pub fn get_group_member_list(&self, group_id: i64) -> (r: Request)
        ensures
            r.action@ == "get_group_member_list"@,
            r.echo@.len() == 36,
            json_text(r.params) == obj_of_fields(fld_int("group_id"@, group_id as int)),
    {
        let mut ps: Vec<(String, JsonValue)> = Vec::new();
        let g: Ghost<Seq<char>> = Ghost(Seq::empty());
        let g = push_field(&mut ps, "group_id", JsonValue::Int(group_id), g);
        let params = obj_json(ps, g);
        req("get_group_member_list", params, fresh_token())
    }

    /// Builds the `get_group_honor_info` request.
    pub fn get_group_honor_info(&self, group_id: i64, honor_type: &str) -> (r: Request)
        ensures
            r.action@ == "get_group_honor_info"@,
            r.echo@.len() == 36,
            json_text(r.params) == obj_of_fields(fld_int("group_id"@, group_id as int) + fld_str("type"@, honor_type@)),
    {
        let mut ps: Vec<(String, JsonValue)> = Vec::new();
        let g: Ghost<Seq<char>> = Ghost(Seq::empty());
        let g = push_field(&mut ps, "group_id", JsonValue::Int(group_id), g);
        let g = push_field(&mut ps, "type", JsonValue::Str(honor_type.to_owned()), g);
        let params = obj_json(ps, g);
        req("get_group_honor_info", params, fresh_token())
    }

    /// Builds the `get_cookies` request.
    pub fn get_cookies(&self, domain: &str) -> (r: Request)
        ensures
            r.action@ == "get_cookies"@,
            r.echo@.len() == 36,
            json_text(r.params) == obj_of_fields(fld_str("domain"@, domain@)),
    {
        let mut ps: Vec<(String, JsonValue)> = Vec::new();
        let g: Ghost<Seq<char>> = Ghost(Seq::empty());
        let g = push_field(&mut ps, "domain", JsonValue::Str(domain.to_owned()), g);
        let params = obj_json(ps, g);
        req("get_cookies", params, fresh_token())
    }

    /// Builds the `get_csrf_token` request.
    pub fn get_csrf_token(&self) -> (r: Request)
        ensures
            r.action@ == "get_csrf_token"@,
            r.echo@.len() == 36,
            json_text(r.params) == obj_of_fields(Seq::<char>::empty()),
    {
        let mut ps: Vec<(String, JsonValue)> = Vec::new();
        let g: Ghost<Seq<char>> = Ghost(Seq::empty());
        
        let params = obj_json(ps, g);
        req("get_csrf_token", params, fresh_token())
    }

    /// Builds the `get_credentials` request.
    pub fn get_credentials(&self, domain: &str) -> (r: Request)
        ensures
            r.action@ == "get_credentials"@,
            r.echo@.len() == 36,
            json_text(r.params) == obj_of_fields(fld_str("domain"@, domain@)),
    {
        let mut ps: Vec<(String, JsonValue)> = Vec::new();
        let g: Ghost<Seq<char>> = Ghost(Seq::empty());
        let g = push_field(&mut ps, "domain", JsonValue::Str(domain.to_owned()), g);
        let params = obj_json(ps, g);
        req("get_credentials", params, fresh_token())
    }

    /// Builds the `get_record` request.
    pub fn get_record(&self, file: &str, out_format: &str) -> (r: Request)
        ensures
            r.action@ == "get_record"@,
            r.echo@.len() == 36,
            json_text(r.params) == obj_of_fields(fld_str("file"@, file@) + fld_str("out_format"@, out_format@)),
    {
        let mut ps: Vec<(String, JsonValue)> = Vec::new();
        let g: Ghost<Seq<char>> = Ghost(Seq::empty());
        let g = push_field(&mut ps, "file", JsonValue::Str(file.to_owned()), g);
        let g = push_field(&mut ps, "out_format", JsonValue::Str(out_format.to_owned()), g);
        let params = obj_json(ps, g);
        req("get_record", params, fresh_token())
    }

    /// Builds the `get_image` request.
    pub fn get_image(&self, file: &str) -> (r: Request)
        ensures
            r.action@ == "get_image"@,
            r.echo@.len() == 36,
            json_text(r.params) == obj_of_fields(fld_str("file"@, file@)),
    {
        let mut ps: Vec<(String, JsonValue)> = Vec::new();
        let g: Ghost<Seq<char>> = Ghost(Seq::empty());
        let g = push_field(&mut ps, "file", JsonValue::Str(file.to_owned()), g);
        let params = obj_json(ps, g);
        req("get_image", params, fresh_token())
    }

    /// Builds the `can_send_image` request.
    pub fn can_send_image(&self) -> (r: Request)
        ensures
            r.action@ == "can_send_image"@,
            r.echo@.len() == 36,
            json_text(r.params) == obj_of_fields(Seq::<char>::empty()),
    {
        let mut ps: Vec<(String, JsonValue)> = Vec::new();
        let g: Ghost<Seq<char>> = Ghost(Seq::empty());
        
        let params = obj_json(ps, g);
        req("can_send_image", params, fresh_token())
    }

    /// Builds the `can_send_record` request.
    pub fn can_send_record(&self) -> (r: Request)
        ensures
            r.action@ == "can_send_record"@,
            r.echo@.len() == 36,
            json_text(r.params) == obj_of_fields(Seq::<char>::empty()),
    {
        let mut ps: Vec<(String, JsonValue)> = Vec::new();
        let g: Ghost<Seq<char>> = Ghost(Seq::empty());
        
        let params = obj_json(ps, g);
        req("can_send_record", params, fresh_token())
    }

    /// Builds the `get_status` request.
    pub fn get_status(&self) -> (r: Request)
        ensures
            r.action@ == "get_status"@,
            r.echo@.len() == 36,
            json_text(r.params) == obj_of_fields(Seq::<char>::empty()),
    {
        let mut ps: Vec<(String, JsonValue)> = Vec::new();
        let g: Ghost<Seq<char>> = Ghost(Seq::empty());
        
        let params = obj_json(ps, g);
        req("get_status", params, fresh_token())
    }

    /// Builds the `get_version_info` request.
    pub fn get_version_info(&self) -> (r: Request)
        ensures
            r.action@ == "get_version_info"@,
            r.echo@.len() == 36,
            json_text(r.params) == obj_of_fields(Seq::<char>::empty()),
    {
        let mut ps: Vec<(String, JsonValue)> = Vec::new();
        let g: Ghost<Seq<char>> = Ghost(Seq::empty());
        
        let params = obj_json(ps, g);
        req("get_version_info", params, fresh_token())
    }

    /// Builds the `set_restart` request.
    pub fn set_restart(&self, delay: i32) -> (r: Request)
        ensures
            r.action@ == "set_restart"@,
            r.echo@.len() == 36,
            json_text(r.params) == obj_of_fields(fld_int("delay"@, delay as int)),
    {
        let mut ps: Vec<(String, JsonValue)> = Vec::new();
        let g: Ghost<Seq<char>> = Ghost(Seq::empty());
        let g = push_field(&mut ps, "delay", JsonValue::Int(delay as i64), g);
        let params = obj_json(ps, g);
        req("set_restart", params, fresh_token())
    }

    /// Builds the `clean_cache` request.
    pub fn clean_cache(&self) -> (r: Request)
        ensures
            r.action@ == "clean_cache"@,
            r.echo@.len() == 36,
            json_text(r.params) == obj_of_fields(Seq::<char>::empty()),
    {
        let mut ps: Vec<(String, JsonValue)> = Vec::new();
        let g: Ghost<Seq<char>> = Ghost(Seq::empty());
        
        let params = obj_json(ps, g);
        req("clean_cache", params, fresh_token())
    }
}

} // verus!
