//! Verified decoders for inbound frames: from the model of a parsed JSON
//! document to the typed event structures, failing exactly where the
//! frame grammar fails.
//!
//! Forward nodes nest messages inside segments; the grammar bounds that
//! nesting by a depth that mirrors the parser's own recursion limit, so
//! the bound never cuts off a document the parser accepts.

use crate::jmodel::JsonData;
use crate::jmodel::jv_as_array;
use crate::jmodel::jv_as_bool;
use crate::jmodel::jv_as_i64;
use crate::jmodel::jv_as_str;
use crate::jmodel::jv_clone;
use crate::jmodel::jv_get;
use crate::jmodel::jv_is_null;
use crate::jmodel::jv_is_object;
use crate::jmodel::m_as_bool;
use crate::jmodel::m_as_i64;
use crate::jmodel::m_as_str;
use crate::jmodel::m_has_key;
use crate::jmodel::m_key;
use crate::jmodel::value_model;
use crate::events::Anonymous;
use crate::events::Event;
use crate::events::EventBase;
use crate::events::File;
use crate::events::FriendAddNotice;
use crate::events::FriendRecallNotice;
use crate::events::FriendRequest;
use crate::events::GroupAdminNotice;
use crate::events::GroupAdminType;
use crate::events::GroupBanNotice;
use crate::events::GroupBanType;
use crate::events::GroupCardNotice;
use crate::events::GroupDecreaseNotice;
use crate::events::GroupDecreaseType;
use crate::events::GroupIncreaseNotice;
use crate::events::GroupIncreaseType;
use crate::events::GroupMessage;
use crate::events::GroupRecallNotice;
use crate::events::GroupRequest;
use crate::events::GroupRequestType;
use crate::events::GroupSender;
use crate::events::GroupUploadNotice;
use crate::events::HeartBeat;
use crate::events::HonorNotify;
use crate::events::HonorType;
use crate::events::LifeCycle;
use crate::events::LuckyKingNotify;
use crate::events::MessageEvent;
use crate::events::MetaEvent;
use crate::events::Notice;
use crate::events::NotifyEvent;
use crate::events::PokeNotify;
use crate::events::PrivateMessage;
use crate::events::PrivateMessageType;
use crate::events::PrivateSender;
use crate::message::Message;
use crate::message::Segment;
use vstd::prelude::*;
use vstd::string::StringExecFns;

verus! {

/// The nesting bound for forward nodes: the parser's recursion limit.
pub open spec fn nesting_bound() -> nat {
    128
}

/// The view of an optional string.
pub open spec fn view_opt_str(o: Option<String>) -> Option<Seq<char>> {
    match o {
        Some(s) => Some(s@),
        None => None,
    }
}

/// A required string field: present and a string.
pub open spec fn m_req_str_ok(d: JsonData, k: Seq<char>) -> bool {
    m_has_key(d, k) && m_key(d, k) is Str
}

/// The value of a required string field.
pub open spec fn m_req_str_val(d: JsonData, k: Seq<char>) -> Option<Seq<char>> {
    m_as_str(m_key(d, k))
}

/// A required integer field fitting `i64`.
pub open spec fn m_req_i64_ok(d: JsonData, k: Seq<char>) -> bool {
    m_has_key(d, k) && m_as_i64(m_key(d, k)) is Some
}

/// The value of a required integer field.
pub open spec fn m_req_i64_val(d: JsonData, k: Seq<char>) -> Option<i64> {
    m_as_i64(m_key(d, k))
}

/// A required integer field fitting `i32`.
pub open spec fn m_req_i32_ok(d: JsonData, k: Seq<char>) -> bool {
    m_has_key(d, k) && (match m_as_i64(m_key(d, k)) {
        Some(i) => i32::MIN <= i <= i32::MAX,
        None => false,
    })
}

/// The value of a required `i32` field.
pub open spec fn m_req_i32_val(d: JsonData, k: Seq<char>) -> Option<i32> {
    match m_as_i64(m_key(d, k)) {
        Some(i) => if i32::MIN <= i <= i32::MAX {
            Some(i as i32)
        } else {
            None
        },
        None => None,
    }
}

/// An optional string field: absent, null, or a string.
pub open spec fn m_opt_str_ok(d: JsonData, k: Seq<char>) -> bool {
    m_has_key(d, k) ==> (m_key(d, k) is Str || m_key(d, k) is Null)
}

/// The value of an optional string field.
pub open spec fn m_opt_str_val(d: JsonData, k: Seq<char>) -> Option<Seq<char>> {
    if m_has_key(d, k) && m_key(d, k) is Str {
        m_as_str(m_key(d, k))
    } else {
        None
    }
}

/// An optional boolean field: absent, null, or a boolean.
pub open spec fn m_opt_bool_ok(d: JsonData, k: Seq<char>) -> bool {
    m_has_key(d, k) ==> (m_key(d, k) is Bool || m_key(d, k) is Null)
}

/// The value of an optional boolean field.
pub open spec fn m_opt_bool_val(d: JsonData, k: Seq<char>) -> Option<bool> {
    if m_has_key(d, k) {
        m_as_bool(m_key(d, k))
    } else {
        None
    }
}

/// An optional integer field fitting `u32`: absent, null, or such an
/// integer.
pub open spec fn m_opt_u32_ok(d: JsonData, k: Seq<char>) -> bool {
    m_has_key(d, k) ==> (m_key(d, k) is Null || (match m_as_i64(m_key(d, k)) {
        Some(i) => 0 <= i <= u32::MAX,
        None => false,
    }))
}

/// The value of an optional `u32` field.
pub open spec fn m_opt_u32_val(d: JsonData, k: Seq<char>) -> Option<u32> {
    if m_has_key(d, k) {
        match m_as_i64(m_key(d, k)) {
            Some(i) => if 0 <= i <= u32::MAX {
                Some(i as u32)
            } else {
                None
            },
            None => None,
        }
    } else {
        None
    }
}

/// An optional integer field fitting `i32`.
pub open spec fn m_opt_i32_ok(d: JsonData, k: Seq<char>) -> bool {
    m_has_key(d, k) ==> (m_key(d, k) is Null || (match m_as_i64(m_key(d, k)) {
        Some(i) => i32::MIN <= i <= i32::MAX,
        None => false,
    }))
}

/// The value of an optional `i32` field.
pub open spec fn m_opt_i32_val(d: JsonData, k: Seq<char>) -> Option<i32> {
    if m_has_key(d, k) {
        match m_as_i64(m_key(d, k)) {
            Some(i) => if i32::MIN <= i <= i32::MAX {
                Some(i as i32)
            } else {
                None
            },
            None => None,
        }
    } else {
        None
    }
}

/// Whether a string equals a literal.
pub fn str_is(s: &String, lit: &str) -> (r: bool)
    ensures
        r == (s@ == lit@),
{
    let other: String = lit.to_owned();
    *s == other
}

/// Reads a required string field.
pub fn req_str(v: &serde_json::Value, k: &str) -> (r: Option<String>)
    ensures
        match r {
            Some(s) => m_req_str_ok(value_model(*v), k@) && m_req_str_val(value_model(*v), k@)
                == Some(s@),
            None => !m_req_str_ok(value_model(*v), k@),
        },
{
    match jv_get(v, k) {
        Some(u) => match jv_as_str(u) {
            Some(s) => Some(s.to_owned()),
            None => None,
        },
        None => None,
    }
}

/// Reads a required `i64` field.
pub fn req_i64(v: &serde_json::Value, k: &str) -> (r: Option<i64>)
    ensures
        match r {
            Some(i) => m_req_i64_ok(value_model(*v), k@) && m_req_i64_val(value_model(*v), k@)
                == Some(i),
            None => !m_req_i64_ok(value_model(*v), k@),
        },
{
    match jv_get(v, k) {
        Some(u) => jv_as_i64(u),
        None => None,
    }
}

/// Reads a required `i32` field.
pub fn req_i32(v: &serde_json::Value, k: &str) -> (r: Option<i32>)
    ensures
        match r {
            Some(i) => m_req_i32_ok(value_model(*v), k@) && m_req_i32_val(value_model(*v), k@)
                == Some(i),
            None => !m_req_i32_ok(value_model(*v), k@),
        },
{
    match jv_get(v, k) {
        Some(u) => match jv_as_i64(u) {
            Some(i) => if i >= i32::MIN as i64 && i <= i32::MAX as i64 {
                Some(i as i32)
            } else {
                None
            },
            None => None,
        },
        None => None,
    }
}

/// Reads an optional string field; a grammar breach yields nothing at
/// all.
pub fn opt_str(v: &serde_json::Value, k: &str) -> (r: Option<Option<String>>)
    ensures
        match r {
            Some(o) => m_opt_str_ok(value_model(*v), k@) && view_opt_str(o) == m_opt_str_val(
                value_model(*v),
                k@,
            ),
            None => !m_opt_str_ok(value_model(*v), k@),
        },
{
    match jv_get(v, k) {
        Some(u) => {
            if jv_is_null(u) {
                Some(None)
            } else {
                match jv_as_str(u) {
                    Some(s) => Some(Some(s.to_owned())),
                    None => None,
                }
            }
        },
        None => Some(None),
    }
}

/// Reads an optional boolean field.
pub fn opt_bool(v: &serde_json::Value, k: &str) -> (r: Option<Option<bool>>)
    ensures
        match r {
            Some(o) => m_opt_bool_ok(value_model(*v), k@) && o == m_opt_bool_val(
                value_model(*v),
                k@,
            ),
            None => !m_opt_bool_ok(value_model(*v), k@),
        },
{
    match jv_get(v, k) {
        Some(u) => {
            if jv_is_null(u) {
                Some(None)
            } else {
                match jv_as_bool(u) {
                    Some(b) => Some(Some(b)),
                    None => None,
                }
            }
        },
        None => Some(None),
    }
}

/// Reads an optional `u32` field.
pub fn opt_u32(v: &serde_json::Value, k: &str) -> (r: Option<Option<u32>>)
    ensures
        match r {
            Some(o) => m_opt_u32_ok(value_model(*v), k@) && o == m_opt_u32_val(
                value_model(*v),
                k@,
            ),
            None => !m_opt_u32_ok(value_model(*v), k@),
        },
{
    match jv_get(v, k) {
        Some(u) => {
            if jv_is_null(u) {
                Some(None)
            } else {
                match jv_as_i64(u) {
                    Some(i) => if i >= 0 && i <= u32::MAX as i64 {
                        Some(Some(i as u32))
                    } else {
                        None
                    },
                    None => None,
                }
            }
        },
        None => Some(None),
    }
}

/// Reads an optional `i32` field.
pub fn opt_i32(v: &serde_json::Value, k: &str) -> (r: Option<Option<i32>>)
    ensures
        match r {
            Some(o) => m_opt_i32_ok(value_model(*v), k@) && o == m_opt_i32_val(
                value_model(*v),
                k@,
            ),
            None => !m_opt_i32_ok(value_model(*v), k@),
        },
{
    match jv_get(v, k) {
        Some(u) => {
            if jv_is_null(u) {
                Some(None)
            } else {
                match jv_as_i64(u) {
                    Some(i) => if i >= i32::MIN as i64 && i <= i32::MAX as i64 {
                        Some(Some(i as i32))
                    } else {
                        None
                    },
                    None => None,
                }
            }
        },
        None => Some(None),
    }
}

/// The tag of a segment object.
pub open spec fn seg_tag(d: JsonData) -> Option<Seq<char>> {
    m_req_str_val(d, "type"@)
}

/// The data object of a segment.
pub open spec fn seg_data(d: JsonData) -> JsonData {
    m_key(d, "data"@)
}

/// A segment carries a present `data` object.
pub open spec fn has_data_obj(d: JsonData) -> bool {
    m_has_key(d, "data"@) && m_key(d, "data"@) is Obj
}

/// The grammar of one segment object, nested forward messages bounded
/// by `depth`.
pub open spec fn is_segment_model(d: JsonData, depth: nat) -> bool
    decreases depth, 0int, 0int,
{
    match seg_tag(d) {
        None => false,
        Some(tag) => {
            if tag == "text"@ {
                has_data_obj(d) && {
                    let dd = seg_data(d);
                    m_req_str_ok(dd, "text"@)
                }
            } else if tag == "face"@ {
                has_data_obj(d) && {
                    let dd = seg_data(d);
                    m_req_str_ok(dd, "id"@)
                }
            } else if tag == "image"@ {
                has_data_obj(d) && {
                    let dd = seg_data(d);
                    m_req_str_ok(dd, "file"@) && m_opt_str_ok(dd, "type"@) && m_opt_str_ok(dd, "url"@) && m_opt_bool_ok(dd, "cache"@) && m_opt_bool_ok(dd, "proxy"@) && m_opt_u32_ok(dd, "timeout"@)
                }
            } else if tag == "record"@ {
                has_data_obj(d) && {
                    let dd = seg_data(d);
                    m_req_str_ok(dd, "file"@) && m_opt_bool_ok(dd, "magic"@) && m_opt_str_ok(dd, "url"@) && m_opt_bool_ok(dd, "cache"@) && m_opt_bool_ok(dd, "proxy"@) && m_opt_u32_ok(dd, "timeout"@)
                }
            } else if tag == "video"@ {
                has_data_obj(d) && {
                    let dd = seg_data(d);
                    m_req_str_ok(dd, "file"@) && m_opt_str_ok(dd, "url"@) && m_opt_bool_ok(dd, "cache"@) && m_opt_bool_ok(dd, "proxy"@) && m_opt_u32_ok(dd, "timeout"@)
                }
            } else if tag == "at"@ {
                has_data_obj(d) && {
                    let dd = seg_data(d);
                    m_req_str_ok(dd, "qq"@)
                }
            } else if tag == "poke"@ {
                has_data_obj(d) && {
                    let dd = seg_data(d);
                    m_req_str_ok(dd, "type"@) && m_req_str_ok(dd, "id"@) && m_opt_str_ok(dd, "name"@)
                }
            } else if tag == "anonymous"@ {
                has_data_obj(d) && {
                    let dd = seg_data(d);
                    m_opt_bool_ok(dd, "ignore"@)
                }
            } else if tag == "share"@ {
                has_data_obj(d) && {
                    let dd = seg_data(d);
                    m_req_str_ok(dd, "url"@) && m_req_str_ok(dd, "title"@) && m_opt_str_ok(dd, "content"@) && m_opt_str_ok(dd, "image"@)
                }
            } else if tag == "contact"@ {
                has_data_obj(d) && {
                    let dd = seg_data(d);
                    m_req_str_ok(dd, "type"@) && m_req_str_ok(dd, "id"@)
                }
            } else if tag == "location"@ {
                has_data_obj(d) && {
                    let dd = seg_data(d);
                    m_req_str_ok(dd, "lat"@) && m_req_str_ok(dd, "lon"@) && m_opt_str_ok(dd, "title"@) && m_opt_str_ok(dd, "content"@)
                }
            } else if tag == "music"@ {
                has_data_obj(d) && {
                    let dd = seg_data(d);
                    m_req_str_ok(dd, "type"@) && m_opt_str_ok(dd, "id"@) && m_opt_str_ok(dd, "url"@) && m_opt_str_ok(dd, "audio"@) && m_opt_str_ok(dd, "title"@) && m_opt_str_ok(dd, "content"@) && m_opt_str_ok(dd, "image"@)
                }
            } else if tag == "reply"@ {
                has_data_obj(d) && {
                    let dd = seg_data(d);
                    m_req_str_ok(dd, "id"@)
                }
            } else if tag == "forward"@ {
                has_data_obj(d) && {
                    let dd = seg_data(d);
                    m_req_str_ok(dd, "id"@)
                }
            } else if tag == "xml"@ {
                has_data_obj(d) && {
                    let dd = seg_data(d);
                    m_req_str_ok(dd, "data"@)
                }
            } else if tag == "json"@ {
                has_data_obj(d) && {
                    let dd = seg_data(d);
                    m_req_str_ok(dd, "data"@)
                }
            } else if tag == "rps"@ {
                true
            } else if tag == "dice"@ {
                true
            } else if tag == "shake"@ {
                true
            } else if tag == "node"@ {
                has_data_obj(d) && depth > 0 && {
                    let dd = seg_data(d);
                    m_opt_str_ok(dd, "id"@) && m_opt_str_ok(dd, "user_id"@) && m_opt_str_ok(
                        dd,
                        "nickname"@,
                    ) && (m_has_key(dd, "content"@) && !(m_key(dd, "content"@) is Null)
                        ==> is_message_model(m_key(dd, "content"@), (depth - 1) as nat))
                }
            } else {
                false
            }
        },
    }
}

/// How a decoded segment relates to the model of its object: the tag
/// and every field are pinned.
pub open spec fn segment_matches(d: JsonData, seg: Segment, depth: nat) -> bool
    decreases depth, 0int, 0int,
{
    let dd = seg_data(d);
    match seg {
        Segment::Text { text } => seg_tag(d) == Some("text"@) && m_req_str_val(dd, "text"@) == Some(text@),
        Segment::Face { id } => seg_tag(d) == Some("face"@) && m_req_str_val(dd, "id"@) == Some(id@),
        Segment::Image { file, kind, url, cache, proxy, timeout } => seg_tag(d) == Some("image"@) && m_req_str_val(dd, "file"@) == Some(file@) && view_opt_str(kind) == m_opt_str_val(dd, "type"@) && view_opt_str(url) == m_opt_str_val(dd, "url"@) && cache == m_opt_bool_val(dd, "cache"@) && proxy == m_opt_bool_val(dd, "proxy"@) && timeout == m_opt_u32_val(dd, "timeout"@),
        Segment::Record { file, magic, url, cache, proxy, timeout } => seg_tag(d) == Some("record"@) && m_req_str_val(dd, "file"@) == Some(file@) && magic == m_opt_bool_val(dd, "magic"@) && view_opt_str(url) == m_opt_str_val(dd, "url"@) && cache == m_opt_bool_val(dd, "cache"@) && proxy == m_opt_bool_val(dd, "proxy"@) && timeout == m_opt_u32_val(dd, "timeout"@),
        Segment::Video { file, url, cache, proxy, timeout } => seg_tag(d) == Some("video"@) && m_req_str_val(dd, "file"@) == Some(file@) && view_opt_str(url) == m_opt_str_val(dd, "url"@) && cache == m_opt_bool_val(dd, "cache"@) && proxy == m_opt_bool_val(dd, "proxy"@) && timeout == m_opt_u32_val(dd, "timeout"@),
        Segment::At { qq } => seg_tag(d) == Some("at"@) && m_req_str_val(dd, "qq"@) == Some(qq@),
        Segment::Poke { kind, id, name } => seg_tag(d) == Some("poke"@) && m_req_str_val(dd, "type"@) == Some(kind@) && m_req_str_val(dd, "id"@) == Some(id@) && view_opt_str(name) == m_opt_str_val(dd, "name"@),
        Segment::Anonymous { ignore } => seg_tag(d) == Some("anonymous"@) && ignore == m_opt_bool_val(dd, "ignore"@),
        Segment::Share { url, title, content, image } => seg_tag(d) == Some("share"@) && m_req_str_val(dd, "url"@) == Some(url@) && m_req_str_val(dd, "title"@) == Some(title@) && view_opt_str(content) == m_opt_str_val(dd, "content"@) && view_opt_str(image) == m_opt_str_val(dd, "image"@),
        Segment::Contact { kind, id } => seg_tag(d) == Some("contact"@) && m_req_str_val(dd, "type"@) == Some(kind@) && m_req_str_val(dd, "id"@) == Some(id@),
        Segment::Location { lat, lon, title, content } => seg_tag(d) == Some("location"@) && m_req_str_val(dd, "lat"@) == Some(lat@) && m_req_str_val(dd, "lon"@) == Some(lon@) && view_opt_str(title) == m_opt_str_val(dd, "title"@) && view_opt_str(content) == m_opt_str_val(dd, "content"@),
        Segment::Music { kind, id, url, audio, title, content, image } => seg_tag(d) == Some("music"@) && m_req_str_val(dd, "type"@) == Some(kind@) && view_opt_str(id) == m_opt_str_val(dd, "id"@) && view_opt_str(url) == m_opt_str_val(dd, "url"@) && view_opt_str(audio) == m_opt_str_val(dd, "audio"@) && view_opt_str(title) == m_opt_str_val(dd, "title"@) && view_opt_str(content) == m_opt_str_val(dd, "content"@) && view_opt_str(image) == m_opt_str_val(dd, "image"@),
        Segment::Reply { id } => seg_tag(d) == Some("reply"@) && m_req_str_val(dd, "id"@) == Some(id@),
        Segment::Forward { id } => seg_tag(d) == Some("forward"@) && m_req_str_val(dd, "id"@) == Some(id@),
        Segment::Xml { data } => seg_tag(d) == Some("xml"@) && m_req_str_val(dd, "data"@) == Some(data@),
        Segment::Json { data } => seg_tag(d) == Some("json"@) && m_req_str_val(dd, "data"@) == Some(data@),
        Segment::Rps => seg_tag(d) == Some("rps"@),
        Segment::Dice => seg_tag(d) == Some("dice"@),
        Segment::Shake => seg_tag(d) == Some("shake"@),
        Segment::Node { id, user_id, nickname, content } => seg_tag(d) == Some("node"@)
            && view_opt_str(id) == m_opt_str_val(dd, "id"@) && view_opt_str(user_id)
            == m_opt_str_val(dd, "user_id"@) && view_opt_str(nickname) == m_opt_str_val(
            dd,
            "nickname"@,
        ) && (match content {
            Some(m) => depth > 0 && m_has_key(dd, "content"@) && !(m_key(dd, "content"@) is Null)
                && message_matches(m_key(dd, "content"@), m, (depth - 1) as nat),
            None => !m_has_key(dd, "content"@) || m_key(dd, "content"@) is Null,
        }),
    }
}

/// The grammar of a message: an array of well-formed segments.
pub open spec fn is_message_model(d: JsonData, depth: nat) -> bool
    decreases depth, 2int, 0int,
{
    match d {
        JsonData::Arr(items) => is_segments_model(items, 0, depth),
        _ => false,
    }
}

/// Every element from `i` on is a well-formed segment.
pub open spec fn is_segments_model(items: Seq<JsonData>, i: int, depth: nat) -> bool
    decreases depth, 1int, items.len() - i,
{
    i >= items.len() || (is_segment_model(items[i], depth) && is_segments_model(
        items,
        i + 1,
        depth,
    ))
}

/// How a decoded message relates to the model of its array.
pub open spec fn message_matches(d: JsonData, m: Message, depth: nat) -> bool
    decreases depth, 2int, 0int,
{
    match d {
        JsonData::Arr(items) => segments_match(items, m.0@, 0, depth),
        _ => false,
    }
}

/// The decoded segments match the elements pointwise from `i` on.
pub open spec fn segments_match(items: Seq<JsonData>, segs: Seq<Segment>, i: int, depth: nat) -> bool
    decreases depth, 1int, items.len() - i,
{
    items.len() == segs.len() && (i >= items.len() || (segment_matches(items[i], segs[i], depth)
        && segments_match(items, segs, i + 1, depth)))
}

/// Pointwise well-formedness gives the recursive form.
proof fn lemma_segments_model_all(items: Seq<JsonData>, i: int, depth: nat)
    requires
        0 <= i <= items.len(),
        forall|j: int| i <= j < items.len() ==> is_segment_model(#[trigger] items[j], depth),
    ensures
        is_segments_model(items, i, depth),
    decreases items.len() - i,
{
    if i < items.len() {
        lemma_segments_model_all(items, i + 1, depth);
    }
}

/// One ill-formed element refutes the recursive form.
proof fn lemma_segments_model_bad(items: Seq<JsonData>, i: int, j: int, depth: nat)
    requires
        0 <= i <= j < items.len(),
        !is_segment_model(items[j], depth),
    ensures
        !is_segments_model(items, i, depth),
    decreases j - i,
{
    if i < j {
        lemma_segments_model_bad(items, i + 1, j, depth);
    }
}

/// Pointwise matching gives the recursive form.
proof fn lemma_segments_match_all(items: Seq<JsonData>, segs: Seq<Segment>, i: int, depth: nat)
    requires
        0 <= i <= items.len(),
        items.len() == segs.len(),
        forall|j: int| i <= j < items.len() ==> segment_matches(#[trigger] items[j], segs[j], depth),
    ensures
        segments_match(items, segs, i, depth),
    decreases items.len() - i,
{
    if i < items.len() {
        lemma_segments_match_all(items, segs, i + 1, depth);
    }
}

/// Decodes one segment, failing exactly where the grammar fails.
#[verifier::rlimit(100)]
pub fn decode_segment(v: &serde_json::Value, depth: usize) -> (r: Option<Segment>)
    ensures
        match r {
            Some(seg) => is_segment_model(value_model(*v), depth as nat) && segment_matches(
                value_model(*v),
                seg,
                depth as nat,
            ),
            None => !is_segment_model(value_model(*v), depth as nat),
        },
    decreases depth, 0int, 0int,
{
    let tag = match req_str(v, "type") {
        Some(t) => t,
        None => {
            proof {
                assert(seg_tag(value_model(*v)) is None);
            }
            return None;
        },
    };
    if str_is(&tag, "text") {
        let dv = match jv_get(v, "data") {
            Some(d) => d,
            None => {
                return None;
            },
        };
        if !jv_is_object(dv) {
            return None;
        }
        let text = match req_str(dv, "text") {
            Some(x) => x,
            None => {
                return None;
            },
        };
        Some(Segment::Text { text })
    } else if str_is(&tag, "face") {
        let dv = match jv_get(v, "data") {
            Some(d) => d,
            None => {
                return None;
            },
        };
        if !jv_is_object(dv) {
            return None;
        }
        let id = match req_str(dv, "id") {
            Some(x) => x,
            None => {
                return None;
            },
        };
        Some(Segment::Face { id })
    } else if str_is(&tag, "image") {
        let dv = match jv_get(v, "data") {
            Some(d) => d,
            None => {
                return None;
            },
        };
        if !jv_is_object(dv) {
            return None;
        }
        let file = match req_str(dv, "file") {
            Some(x) => x,
            None => {
                return None;
            },
        };
        let kind = match opt_str(dv, "type") {
            Some(x) => x,
            None => {
                return None;
            },
        };
        let url = match opt_str(dv, "url") {
            Some(x) => x,
            None => {
                return None;
            },
        };
        let cache = match opt_bool(dv, "cache") {
            Some(x) => x,
            None => {
                return None;
            },
        };
        let proxy = match opt_bool(dv, "proxy") {
            Some(x) => x,
            None => {
                return None;
            },
        };
        let timeout = match opt_u32(dv, "timeout") {
            Some(x) => x,
            None => {
                return None;
            },
        };
        Some(Segment::Image { file, kind, url, cache, proxy, timeout })
    } else if str_is(&tag, "record") {
        let dv = match jv_get(v, "data") {
            Some(d) => d,
            None => {
                return None;
            },
        };
        if !jv_is_object(dv) {
            return None;
        }
        let file = match req_str(dv, "file") {
            Some(x) => x,
            None => {
                return None;
            },
        };
        let magic = match opt_bool(dv, "magic") {
            Some(x) => x,
            None => {
                return None;
            },
        };
        let url = match opt_str(dv, "url") {
            Some(x) => x,
            None => {
                return None;
            },
        };
        let cache = match opt_bool(dv, "cache") {
            Some(x) => x,
            None => {
                return None;
            },
        };
        let proxy = match opt_bool(dv, "proxy") {
            Some(x) => x,
            None => {
                return None;
            },
        };
        let timeout = match opt_u32(dv, "timeout") {
            Some(x) => x,
            None => {
                return None;
            },
        };
        Some(Segment::Record { file, magic, url, cache, proxy, timeout })
    } else if str_is(&tag, "video") {
        let dv = match jv_get(v, "data") {
            Some(d) => d,
            None => {
                return None;
            },
        };
        if !jv_is_object(dv) {
            return None;
        }
        let file = match req_str(dv, "file") {
            Some(x) => x,
            None => {
                return None;
            },
        };
        let url = match opt_str(dv, "url") {
            Some(x) => x,
            None => {
                return None;
            },
        };
        let cache = match opt_bool(dv, "cache") {
            Some(x) => x,
            None => {
                return None;
            },
        };
        let proxy = match opt_bool(dv, "proxy") {
            Some(x) => x,
            None => {
                return None;
            },
        };
        let timeout = match opt_u32(dv, "timeout") {
            Some(x) => x,
            None => {
                return None;
            },
        };
        Some(Segment::Video { file, url, cache, proxy, timeout })
    } else if str_is(&tag, "at") {
        let dv = match jv_get(v, "data") {
            Some(d) => d,
            None => {
                return None;
            },
        };
        if !jv_is_object(dv) {
            return None;
        }
        let qq = match req_str(dv, "qq") {
            Some(x) => x,
            None => {
                return None;
            },
        };
        Some(Segment::At { qq })
    } else if str_is(&tag, "poke") {
        let dv = match jv_get(v, "data") {
            Some(d) => d,
            None => {
                return None;
            },
        };
        if !jv_is_object(dv) {
            return None;
        }
        let kind = match req_str(dv, "type") {
            Some(x) => x,
            None => {
                return None;
            },
        };
        let id = match req_str(dv, "id") {
            Some(x) => x,
            None => {
                return None;
            },
        };
        let name = match opt_str(dv, "name") {
            Some(x) => x,
            None => {
                return None;
            },
        };
        Some(Segment::Poke { kind, id, name })
    } else if str_is(&tag, "anonymous") {
        let dv = match jv_get(v, "data") {
            Some(d) => d,
            None => {
                return None;
            },
        };
        if !jv_is_object(dv) {
            return None;
        }
        let ignore = match opt_bool(dv, "ignore") {
            Some(x) => x,
            None => {
                return None;
            },
        };
        Some(Segment::Anonymous { ignore })
    } else if str_is(&tag, "share") {
        let dv = match jv_get(v, "data") {
            Some(d) => d,
            None => {
                return None;
            },
        };
        if !jv_is_object(dv) {
            return None;
        }
        let url = match req_str(dv, "url") {
            Some(x) => x,
            None => {
                return None;
            },
        };
        let title = match req_str(dv, "title") {
            Some(x) => x,
            None => {
                return None;
            },
        };
        let content = match opt_str(dv, "content") {
            Some(x) => x,
            None => {
                return None;
            },
        };
        let image = match opt_str(dv, "image") {
            Some(x) => x,
            None => {
                return None;
            },
        };
        Some(Segment::Share { url, title, content, image })
    } else if str_is(&tag, "contact") {
        let dv = match jv_get(v, "data") {
            Some(d) => d,
            None => {
                return None;
            },
        };
        if !jv_is_object(dv) {
            return None;
        }
        let kind = match req_str(dv, "type") {
            Some(x) => x,
            None => {
                return None;
            },
        };
        let id = match req_str(dv, "id") {
            Some(x) => x,
            None => {
                return None;
            },
        };
        Some(Segment::Contact { kind, id })
    } else if str_is(&tag, "location") {
        let dv = match jv_get(v, "data") {
            Some(d) => d,
            None => {
                return None;
            },
        };
        if !jv_is_object(dv) {
            return None;
        }
        let lat = match req_str(dv, "lat") {
            Some(x) => x,
            None => {
                return None;
            },
        };
        let lon = match req_str(dv, "lon") {
            Some(x) => x,
            None => {
                return None;
            },
        };
        let title = match opt_str(dv, "title") {
            Some(x) => x,
            None => {
                return None;
            },
        };
        let content = match opt_str(dv, "content") {
            Some(x) => x,
            None => {
                return None;
            },
        };
        Some(Segment::Location { lat, lon, title, content })
    } else if str_is(&tag, "music") {
        let dv = match jv_get(v, "data") {
            Some(d) => d,
            None => {
                return None;
            },
        };
        if !jv_is_object(dv) {
            return None;
        }
        let kind = match req_str(dv, "type") {
            Some(x) => x,
            None => {
                return None;
            },
        };
        let id = match opt_str(dv, "id") {
            Some(x) => x,
            None => {
                return None;
            },
        };
        let url = match opt_str(dv, "url") {
            Some(x) => x,
            None => {
                return None;
            },
        };
        let audio = match opt_str(dv, "audio") {
            Some(x) => x,
            None => {
                return None;
            },
        };
        let title = match opt_str(dv, "title") {
            Some(x) => x,
            None => {
                return None;
            },
        };
        let content = match opt_str(dv, "content") {
            Some(x) => x,
            None => {
                return None;
            },
        };
        let image = match opt_str(dv, "image") {
            Some(x) => x,
            None => {
                return None;
            },
        };
        Some(Segment::Music { kind, id, url, audio, title, content, image })
    } else if str_is(&tag, "reply") {
        let dv = match jv_get(v, "data") {
            Some(d) => d,
            None => {
                return None;
            },
        };
        if !jv_is_object(dv) {
            return None;
        }
        let id = match req_str(dv, "id") {
            Some(x) => x,
            None => {
                return None;
            },
        };
        Some(Segment::Reply { id })
    } else if str_is(&tag, "forward") {
        let dv = match jv_get(v, "data") {
            Some(d) => d,
            None => {
                return None;
            },
        };
        if !jv_is_object(dv) {
            return None;
        }
        let id = match req_str(dv, "id") {
            Some(x) => x,
            None => {
                return None;
            },
        };
        Some(Segment::Forward { id })
    } else if str_is(&tag, "xml") {
        let dv = match jv_get(v, "data") {
            Some(d) => d,
            None => {
                return None;
            },
        };
        if !jv_is_object(dv) {
            return None;
        }
        let data = match req_str(dv, "data") {
            Some(x) => x,
            None => {
                return None;
            },
        };
        Some(Segment::Xml { data })
    } else if str_is(&tag, "json") {
        let dv = match jv_get(v, "data") {
            Some(d) => d,
            None => {
                return None;
            },
        };
        if !jv_is_object(dv) {
            return None;
        }
        let data = match req_str(dv, "data") {
            Some(x) => x,
            None => {
                return None;
            },
        };
        Some(Segment::Json { data })
    } else if str_is(&tag, "rps") {
        Some(Segment::Rps)
    } else if str_is(&tag, "dice") {
        Some(Segment::Dice)
    } else if str_is(&tag, "shake") {
        Some(Segment::Shake)
    } else if str_is(&tag, "node") {
        let dv = match jv_get(v, "data") {
            Some(d) => d,
            None => {
                return None;
            },
        };
        if !jv_is_object(dv) {
            return None;
        }
        if depth == 0 {
            return None;
        }
        let id = match opt_str(dv, "id") {
            Some(x) => x,
            None => {
                return None;
            },
        };
        let user_id = match opt_str(dv, "user_id") {
            Some(x) => x,
            None => {
                return None;
            },
        };
        let nickname = match opt_str(dv, "nickname") {
            Some(x) => x,
            None => {
                return None;
            },
        };
        let content: Option<Message> = match jv_get(dv, "content") {
            Some(cv) => {
                if jv_is_null(cv) {
                    None
                } else {
                    match decode_message_value(cv, depth - 1) {
                        Some(m) => Some(m),
                        None => {
                            return None;
                        },
                    }
                }
            },
            None => None,
        };
        Some(Segment::Node { id, user_id, nickname, content })
    } else {
        None
    }
}

/// Decodes a message array, failing exactly where the grammar fails.
pub fn decode_message_value(v: &serde_json::Value, depth: usize) -> (r: Option<Message>)
    ensures
        match r {
            Some(m) => is_message_model(value_model(*v), depth as nat) && message_matches(
                value_model(*v),
                m,
                depth as nat,
            ),
            None => !is_message_model(value_model(*v), depth as nat),
        },
    decreases depth, 2int, 0int,
{
    let a = match jv_as_array(v) {
        Some(a) => a,
        None => {
            return None;
        },
    };
    let ghost items = a@.map_values(|x: serde_json::Value| value_model(x));
    let n = a.len();
    let mut segs: Vec<Segment> = Vec::new();
    let mut i: usize = 0;
    while i < n
        invariant
            n == a@.len(),
            value_model(*v) == JsonData::Arr(items),
            items == a@.map_values(|x: serde_json::Value| value_model(x)),
            items.len() == n,
            i <= n,
            segs@.len() == i,
            depth <= usize::MAX,
            forall|j: int|
                0 <= j < i ==> is_segment_model(#[trigger] items[j], depth as nat)
                    && segment_matches(items[j], segs@[j], depth as nat),
        decreases n - i,
    {
        assert(items[i as int] == value_model(a@[i as int]));
        match decode_segment(&a[i], depth) {
            Some(seg) => {
                segs.push(seg);
            },
            None => {
                proof {
                    lemma_segments_model_bad(items, 0, i as int, depth as nat);
                }
                return None;
            },
        }
        i = i + 1;
    }
    proof {
        lemma_segments_model_all(items, 0, depth as nat);
        lemma_segments_match_all(items, segs@, 0, depth as nat);
    }
    Some(Message(segs))
}

/// The shared base fields: a timestamp and the bot's own identity.
pub open spec fn is_event_base_model(d: JsonData) -> bool {
    m_req_i64_ok(d, "time"@) && m_req_i64_ok(d, "self_id"@)
}

/// The decoded base fields are pinned by the frame.
pub open spec fn event_base_matches(d: JsonData, b: EventBase) -> bool {
    m_req_i64_val(d, "time"@) == Some(b.time) && m_req_i64_val(d, "self_id"@) == Some(b.self_id)
}

/// Decodes the shared base fields.
pub fn decode_event_base(v: &serde_json::Value) -> (r: Option<EventBase>)
    ensures
        match r {
            Some(b) => is_event_base_model(value_model(*v)) && event_base_matches(
                value_model(*v),
                b,
            ),
            None => !is_event_base_model(value_model(*v)),
        },
{
    let time = match req_i64(v, "time") {
        Some(x) => x,
        None => {
            return None;
        },
    };
    let self_id = match req_i64(v, "self_id") {
        Some(x) => x,
        None => {
            return None;
        },
    };
    Some(EventBase { time, self_id })
}

/// The `PrivateMessageType` named by a wire string, if any.
pub open spec fn private_sub_type_of(t: Seq<char>) -> Option<PrivateMessageType> {
    if t == "friend"@ {
        Some(PrivateMessageType::Friend)
    } else if t == "group"@ {
        Some(PrivateMessageType::Group)
    } else if t == "other"@ {
        Some(PrivateMessageType::Other)
    } else {
        None
    }
}

/// The `GroupAdminType` named by a wire string, if any.
pub open spec fn admin_type_of(t: Seq<char>) -> Option<GroupAdminType> {
    if t == "set"@ {
        Some(GroupAdminType::SetAdmin)
    } else if t == "unset"@ {
        Some(GroupAdminType::UnsetAdmin)
    } else {
        None
    }
}

/// The `GroupDecreaseType` named by a wire string, if any.
pub open spec fn decrease_type_of(t: Seq<char>) -> Option<GroupDecreaseType> {
    if t == "leave"@ {
        Some(GroupDecreaseType::Leave)
    } else if t == "kick"@ {
        Some(GroupDecreaseType::Kick)
    } else if t == "kick_me"@ {
        Some(GroupDecreaseType::KickMe)
    } else {
        None
    }
}

/// The `GroupIncreaseType` named by a wire string, if any.
pub open spec fn increase_type_of(t: Seq<char>) -> Option<GroupIncreaseType> {
    if t == "approve"@ {
        Some(GroupIncreaseType::Approve)
    } else if t == "invite"@ {
        Some(GroupIncreaseType::Invite)
    } else {
        None
    }
}

/// The `GroupBanType` named by a wire string, if any.
pub open spec fn ban_type_of(t: Seq<char>) -> Option<GroupBanType> {
    if t == "ban"@ {
        Some(GroupBanType::Ban)
    } else if t == "lift_ban"@ {
        Some(GroupBanType::LiftBan)
    } else {
        None
    }
}

/// The `HonorType` named by a wire string, if any.
pub open spec fn honor_type_of(t: Seq<char>) -> Option<HonorType> {
    if t == "talkative"@ {
        Some(HonorType::Talkative)
    } else if t == "performer"@ {
        Some(HonorType::Performer)
    } else if t == "emotion"@ {
        Some(HonorType::Emotion)
    } else {
        None
    }
}

/// The `GroupRequestType` named by a wire string, if any.
pub open spec fn group_request_type_of(t: Seq<char>) -> Option<GroupRequestType> {
    if t == "add"@ {
        Some(GroupRequestType::Add)
    } else if t == "invite"@ {
        Some(GroupRequestType::Invite)
    } else {
        None
    }
}

/// The frame grammar of a `PrivateSender`.
pub open spec fn is_private_sender_model(d: JsonData) -> bool {
    &&& m_req_i64_ok(d, "user_id"@)
    &&& m_req_str_ok(d, "nickname"@)
    &&& m_opt_str_ok(d, "sex"@)
    &&& m_opt_i32_ok(d, "age"@)
}

/// The decoded `PrivateSender` is pinned by its frame.
pub open spec fn private_sender_matches(d: JsonData, x: PrivateSender) -> bool {
    &&& m_req_i64_val(d, "user_id"@) == Some(x.user_id)
    &&& m_req_str_val(d, "nickname"@) == Some(x.nickname@)
    &&& view_opt_str(x.sex) == m_opt_str_val(d, "sex"@)
    &&& x.age == m_opt_i32_val(d, "age"@)
}

/// Decodes a `PrivateSender`, failing exactly where the grammar fails.
pub fn decode_private_sender(v: &serde_json::Value) -> (r: Option<PrivateSender>)
    ensures
        match r {
            Some(x) => is_private_sender_model(value_model(*v)) && private_sender_matches(value_model(*v), x),
            None => !is_private_sender_model(value_model(*v)),
        },
{
    let user_id = match req_i64(v, "user_id") {
        Some(x) => x,
        None => {
            return None;
        },
    };
    let nickname = match req_str(v, "nickname") {
        Some(x) => x,
        None => {
            return None;
        },
    };
    let sex = match opt_str(v, "sex") {
        Some(x) => x,
        None => {
            return None;
        },
    };
    let age = match opt_i32(v, "age") {
        Some(x) => x,
        None => {
            return None;
        },
    };
    Some(PrivateSender { user_id, nickname, sex, age })
}

/// The frame grammar of a `GroupSender`.
pub open spec fn is_group_sender_model(d: JsonData) -> bool {
    &&& m_req_i64_ok(d, "user_id"@)
    &&& m_req_str_ok(d, "nickname"@)
    &&& m_opt_str_ok(d, "card"@)
    &&& m_opt_str_ok(d, "sex"@)
    &&& m_opt_i32_ok(d, "age"@)
    &&& m_opt_str_ok(d, "area"@)
    &&& m_opt_str_ok(d, "level"@)
    &&& m_opt_str_ok(d, "role"@)
    &&& m_opt_str_ok(d, "title"@)
}

/// The decoded `GroupSender` is pinned by its frame.
pub open spec fn group_sender_matches(d: JsonData, x: GroupSender) -> bool {
    &&& m_req_i64_val(d, "user_id"@) == Some(x.user_id)
    &&& m_req_str_val(d, "nickname"@) == Some(x.nickname@)
    &&& view_opt_str(x.card) == m_opt_str_val(d, "card"@)
    &&& view_opt_str(x.sex) == m_opt_str_val(d, "sex"@)
    &&& x.age == m_opt_i32_val(d, "age"@)
    &&& view_opt_str(x.area) == m_opt_str_val(d, "area"@)
    &&& view_opt_str(x.level) == m_opt_str_val(d, "level"@)
    &&& view_opt_str(x.role) == m_opt_str_val(d, "role"@)
    &&& view_opt_str(x.title) == m_opt_str_val(d, "title"@)
}

/// Decodes a `GroupSender`, failing exactly where the grammar fails.
pub fn decode_group_sender(v: &serde_json::Value) -> (r: Option<GroupSender>)
    ensures
        match r {
            Some(x) => is_group_sender_model(value_model(*v)) && group_sender_matches(value_model(*v), x),
            None => !is_group_sender_model(value_model(*v)),
        },
{
    let user_id = match req_i64(v, "user_id") {
        Some(x) => x,
        None => {
            return None;
        },
    };
    let nickname = match req_str(v, "nickname") {
        Some(x) => x,
        None => {
            return None;
        },
    };
    let card = match opt_str(v, "card") {
        Some(x) => x,
        None => {
            return None;
        },
    };
    let sex = match opt_str(v, "sex") {
        Some(x) => x,
        None => {
            return None;
        },
    };
    let age = match opt_i32(v, "age") {
        Some(x) => x,
        None => {
            return None;
        },
    };
    let area = match opt_str(v, "area") {
        Some(x) => x,
        None => {
            return None;
        },
    };
    let level = match opt_str(v, "level") {
        Some(x) => x,
        None => {
            return None;
        },
    };
    let role = match opt_str(v, "role") {
        Some(x) => x,
        None => {
            return None;
        },
    };
    let title = match opt_str(v, "title") {
        Some(x) => x,
        None => {
            return None;
        },
    };
    Some(GroupSender { user_id, nickname, card, sex, age, area, level, role, title })
}

/// The frame grammar of a `Anonymous`.
pub open spec fn is_anonymous_model(d: JsonData) -> bool {
    &&& m_req_i64_ok(d, "id"@)
    &&& m_req_str_ok(d, "name"@)
    &&& m_req_str_ok(d, "flag"@)
}

/// The decoded `Anonymous` is pinned by its frame.
pub open spec fn anonymous_matches(d: JsonData, x: Anonymous) -> bool {
    &&& m_req_i64_val(d, "id"@) == Some(x.id)
    &&& m_req_str_val(d, "name"@) == Some(x.name@)
    &&& m_req_str_val(d, "flag"@) == Some(x.flag@)
}

/// Decodes a `Anonymous`, failing exactly where the grammar fails.
pub fn decode_anonymous(v: &serde_json::Value) -> (r: Option<Anonymous>)
    ensures
        match r {
            Some(x) => is_anonymous_model(value_model(*v)) && anonymous_matches(value_model(*v), x),
            None => !is_anonymous_model(value_model(*v)),
        },
{
    let id = match req_i64(v, "id") {
        Some(x) => x,
        None => {
            return None;
        },
    };
    let name = match req_str(v, "name") {
        Some(x) => x,
        None => {
            return None;
        },
    };
    let flag = match req_str(v, "flag") {
        Some(x) => x,
        None => {
            return None;
        },
    };
    Some(Anonymous { id, name, flag })
}

/// The frame grammar of a `File`.
pub open spec fn is_file_model(d: JsonData) -> bool {
    &&& m_req_str_ok(d, "id"@)
    &&& m_req_str_ok(d, "name"@)
    &&& m_req_i64_ok(d, "size"@)
    &&& m_req_i64_ok(d, "busid"@)
}

/// The decoded `File` is pinned by its frame.
pub open spec fn file_matches(d: JsonData, x: File) -> bool {
    &&& m_req_str_val(d, "id"@) == Some(x.id@)
    &&& m_req_str_val(d, "name"@) == Some(x.name@)
    &&& m_req_i64_val(d, "size"@) == Some(x.size)
    &&& m_req_i64_val(d, "busid"@) == Some(x.busid)
}

/// Decodes a `File`, failing exactly where the grammar fails.
pub fn decode_file(v: &serde_json::Value) -> (r: Option<File>)
    ensures
        match r {
            Some(x) => is_file_model(value_model(*v)) && file_matches(value_model(*v), x),
            None => !is_file_model(value_model(*v)),
        },
{
    let id = match req_str(v, "id") {
        Some(x) => x,
        None => {
            return None;
        },
    };
    let name = match req_str(v, "name") {
        Some(x) => x,
        None => {
            return None;
        },
    };
    let size = match req_i64(v, "size") {
        Some(x) => x,
        None => {
            return None;
        },
    };
    let busid = match req_i64(v, "busid") {
        Some(x) => x,
        None => {
            return None;
        },
    };
    Some(File { id, name, size, busid })
}

/// The frame grammar of a `PrivateMessage`.
pub open spec fn is_private_message_model(d: JsonData) -> bool {
    &&& is_event_base_model(d)
    &&& (match m_req_str_val(d, "sub_type"@) { Some(t) => private_sub_type_of(t) is Some, None => false })
    &&& m_req_i32_ok(d, "message_id"@)
    &&& m_req_i64_ok(d, "user_id"@)
    &&& m_has_key(d, "message"@) && is_message_model(m_key(d, "message"@), nesting_bound())
    &&& m_req_str_ok(d, "raw_message"@)
    &&& m_req_i32_ok(d, "font"@)
    &&& m_has_key(d, "sender"@) && is_private_sender_model(m_key(d, "sender"@))
}

/// The decoded `PrivateMessage` is pinned by its frame.
pub open spec fn private_message_matches(d: JsonData, x: PrivateMessage) -> bool {
    &&& event_base_matches(d, x.base)
    &&& (match m_req_str_val(d, "sub_type"@) { Some(t) => private_sub_type_of(t) == Some(x.sub_type), None => false })
    &&& m_req_i32_val(d, "message_id"@) == Some(x.message_id)
    &&& m_req_i64_val(d, "user_id"@) == Some(x.user_id)
    &&& message_matches(m_key(d, "message"@), x.message, nesting_bound())
    &&& m_req_str_val(d, "raw_message"@) == Some(x.raw_message@)
    &&& m_req_i32_val(d, "font"@) == Some(x.font)
    &&& private_sender_matches(m_key(d, "sender"@), x.sender)
}

/// Decodes a `PrivateMessage`, failing exactly where the grammar fails.
pub fn decode_private_message(v: &serde_json::Value) -> (r: Option<PrivateMessage>)
    ensures
        match r {
            Some(x) => is_private_message_model(value_model(*v)) && private_message_matches(value_model(*v), x),
            None => !is_private_message_model(value_model(*v)),
        },
{
    let base = match decode_event_base(v) {
        Some(b) => b,
        None => {
            return None;
        },
    };
    let sub_type = {
        let t = match req_str(v, "sub_type") {
            Some(t) => t,
            None => {
            return None;
        },
        };
        if str_is(&t, "friend") {
            PrivateMessageType::Friend
        } else if str_is(&t, "group") {
            PrivateMessageType::Group
        } else if str_is(&t, "other") {
            PrivateMessageType::Other
        } else {
            return None;
        }
    };
    let message_id = match req_i32(v, "message_id") {
        Some(x) => x,
        None => {
            return None;
        },
    };
    let user_id = match req_i64(v, "user_id") {
        Some(x) => x,
        None => {
            return None;
        },
    };
    let message = {
        let mv = match jv_get(v, "message") {
            Some(m) => m,
            None => {
            return None;
        },
        };
        match decode_message_value(mv, 128) {
            Some(m) => m,
            None => {
            return None;
        },
        }
    };
    let raw_message = match req_str(v, "raw_message") {
        Some(x) => x,
        None => {
            return None;
        },
    };
    let font = match req_i32(v, "font") {
        Some(x) => x,
        None => {
            return None;
        },
    };
    let sender = {
        let sv = match jv_get(v, "sender") {
            Some(s) => s,
            None => {
            return None;
        },
        };
        match decode_private_sender(sv) {
            Some(x) => x,
            None => {
            return None;
        },
        }
    };
    Some(PrivateMessage { base, sub_type, message_id, user_id, message, raw_message, font, sender })
}

/// The frame grammar of a `GroupMessage`.
pub open spec fn is_group_message_model(d: JsonData) -> bool {
    &&& is_event_base_model(d)
    &&& m_req_str_ok(d, "sub_type"@)
    &&& m_req_i32_ok(d, "message_id"@)
    &&& m_req_i64_ok(d, "group_id"@)
    &&& m_req_i64_ok(d, "user_id"@)
    &&& (m_has_key(d, "anonymous"@) ==> (m_key(d, "anonymous"@) is Null || is_anonymous_model(m_key(d, "anonymous"@))))
    &&& m_has_key(d, "message"@) && is_message_model(m_key(d, "message"@), nesting_bound())
    &&& m_req_str_ok(d, "raw_message"@)
    &&& m_req_i32_ok(d, "font"@)
    &&& m_has_key(d, "sender"@) && is_group_sender_model(m_key(d, "sender"@))
}

/// The decoded `GroupMessage` is pinned by its frame.
pub open spec fn group_message_matches(d: JsonData, x: GroupMessage) -> bool {
    &&& event_base_matches(d, x.base)
    &&& m_req_str_val(d, "sub_type"@) == Some(x.sub_type@)
    &&& m_req_i32_val(d, "message_id"@) == Some(x.message_id)
    &&& m_req_i64_val(d, "group_id"@) == Some(x.group_id)
    &&& m_req_i64_val(d, "user_id"@) == Some(x.user_id)
    &&& (match x.anonymous { Some(a) => m_has_key(d, "anonymous"@) && !(m_key(d, "anonymous"@) is Null) && anonymous_matches(m_key(d, "anonymous"@), a), None => !m_has_key(d, "anonymous"@) || m_key(d, "anonymous"@) is Null })
    &&& message_matches(m_key(d, "message"@), x.message, nesting_bound())
    &&& m_req_str_val(d, "raw_message"@) == Some(x.raw_message@)
    &&& m_req_i32_val(d, "font"@) == Some(x.font)
    &&& group_sender_matches(m_key(d, "sender"@), x.sender)
}

/// Decodes a `GroupMessage`, failing exactly where the grammar fails.
pub fn decode_group_message(v: &serde_json::Value) -> (r: Option<GroupMessage>)
    ensures
        match r {
            Some(x) => is_group_message_model(value_model(*v)) && group_message_matches(value_model(*v), x),
            None => !is_group_message_model(value_model(*v)),
        },
{
    let base = match decode_event_base(v) {
        Some(b) => b,
        None => {
            return None;
        },
    };
    let sub_type = match req_str(v, "sub_type") {
        Some(x) => x,
        None => {
            return None;
        },
    };
    let message_id = match req_i32(v, "message_id") {
        Some(x) => x,
        None => {
            return None;
        },
    };
    let group_id = match req_i64(v, "group_id") {
        Some(x) => x,
        None => {
            return None;
        },
    };
    let user_id = match req_i64(v, "user_id") {
        Some(x) => x,
        None => {
            return None;
        },
    };
    let anonymous = match jv_get(v, "anonymous") {
        Some(sv) => {
            if jv_is_null(sv) {
                None
            } else {
                match decode_anonymous(sv) {
                    Some(a) => Some(a),
                    None => {
            return None;
        },
                }
            }
        },
        None => None,
    };
    let message = {
        let mv = match jv_get(v, "message") {
            Some(m) => m,
            None => {
            return None;
        },
        };
        match decode_message_value(mv, 128) {
            Some(m) => m,
            None => {
            return None;
        },
        }
    };
    let raw_message = match req_str(v, "raw_message") {
        Some(x) => x,
        None => {
            return None;
        },
    };
    let font = match req_i32(v, "font") {
        Some(x) => x,
        None => {
            return None;
        },
    };
    let sender = {
        let sv = match jv_get(v, "sender") {
            Some(s) => s,
            None => {
            return None;
        },
        };
        match decode_group_sender(sv) {
            Some(x) => x,
            None => {
            return None;
        },
        }
    };
    Some(GroupMessage { base, sub_type, message_id, group_id, user_id, anonymous, message, raw_message, font, sender })
}

/// The frame grammar of a `GroupUploadNotice`.
pub open spec fn is_group_upload_notice_model(d: JsonData) -> bool {
    &&& is_event_base_model(d)
    &&& m_req_i64_ok(d, "group_id"@)
    &&& m_req_i64_ok(d, "user_id"@)
    &&& m_has_key(d, "file"@) && is_file_model(m_key(d, "file"@))
}

/// The decoded `GroupUploadNotice` is pinned by its frame.
pub open spec fn group_upload_notice_matches(d: JsonData, x: GroupUploadNotice) -> bool {
    &&& event_base_matches(d, x.base)
    &&& m_req_i64_val(d, "group_id"@) == Some(x.group_id)
    &&& m_req_i64_val(d, "user_id"@) == Some(x.user_id)
    &&& file_matches(m_key(d, "file"@), x.file)
}

/// Decodes a `GroupUploadNotice`, failing exactly where the grammar fails.
pub fn decode_group_upload_notice(v: &serde_json::Value) -> (r: Option<GroupUploadNotice>)
    ensures
        match r {
            Some(x) => is_group_upload_notice_model(value_model(*v)) && group_upload_notice_matches(value_model(*v), x),
            None => !is_group_upload_notice_model(value_model(*v)),
        },
{
    let base = match decode_event_base(v) {
        Some(b) => b,
        None => {
            return None;
        },
    };
    let group_id = match req_i64(v, "group_id") {
        Some(x) => x,
        None => {
            return None;
        },
    };
    let user_id = match req_i64(v, "user_id") {
        Some(x) => x,
        None => {
            return None;
        },
    };
    let file = {
        let sv = match jv_get(v, "file") {
            Some(s) => s,
            None => {
            return None;
        },
        };
        match decode_file(sv) {
            Some(x) => x,
            None => {
            return None;
        },
        }
    };
    Some(GroupUploadNotice { base, group_id, user_id, file })
}

/// The frame grammar of a `GroupAdminNotice`.
pub open spec fn is_group_admin_notice_model(d: JsonData) -> bool {
    &&& is_event_base_model(d)
    &&& (match m_req_str_val(d, "sub_type"@) { Some(t) => admin_type_of(t) is Some, None => false })
    &&& m_req_i64_ok(d, "group_id"@)
    &&& m_req_i64_ok(d, "user_id"@)
}

/// The decoded `GroupAdminNotice` is pinned by its frame.
pub open spec fn group_admin_notice_matches(d: JsonData, x: GroupAdminNotice) -> bool {
    &&& event_base_matches(d, x.base)
    &&& (match m_req_str_val(d, "sub_type"@) { Some(t) => admin_type_of(t) == Some(x.sub_type), None => false })
    &&& m_req_i64_val(d, "group_id"@) == Some(x.group_id)
    &&& m_req_i64_val(d, "user_id"@) == Some(x.user_id)
}

/// Decodes a `GroupAdminNotice`, failing exactly where the grammar fails.
pub fn decode_group_admin_notice(v: &serde_json::Value) -> (r: Option<GroupAdminNotice>)
    ensures
        match r {
            Some(x) => is_group_admin_notice_model(value_model(*v)) && group_admin_notice_matches(value_model(*v), x),
            None => !is_group_admin_notice_model(value_model(*v)),
        },
{
    let base = match decode_event_base(v) {
        Some(b) => b,
        None => {
            return None;
        },
    };
    let sub_type = {
        let t = match req_str(v, "sub_type") {
            Some(t) => t,
            None => {
            return None;
        },
        };
        if str_is(&t, "set") {
            GroupAdminType::SetAdmin
        } else if str_is(&t, "unset") {
            GroupAdminType::UnsetAdmin
        } else {
            return None;
        }
    };
    let group_id = match req_i64(v, "group_id") {
        Some(x) => x,
        None => {
            return None;
        },
    };
    let user_id = match req_i64(v, "user_id") {
        Some(x) => x,
        None => {
            return None;
        },
    };
    Some(GroupAdminNotice { base, sub_type, group_id, user_id })
}

/// The frame grammar of a `GroupDecreaseNotice`.
pub open spec fn is_group_decrease_notice_model(d: JsonData) -> bool {
    &&& is_event_base_model(d)
    &&& (match m_req_str_val(d, "sub_type"@) { Some(t) => decrease_type_of(t) is Some, None => false })
    &&& m_req_i64_ok(d, "group_id"@)
    &&& m_req_i64_ok(d, "operator_id"@)
    &&& m_req_i64_ok(d, "user_id"@)
}

/// The decoded `GroupDecreaseNotice` is pinned by its frame.
pub open spec fn group_decrease_notice_matches(d: JsonData, x: GroupDecreaseNotice) -> bool {
    &&& event_base_matches(d, x.base)
    &&& (match m_req_str_val(d, "sub_type"@) { Some(t) => decrease_type_of(t) == Some(x.sub_type), None => false })
    &&& m_req_i64_val(d, "group_id"@) == Some(x.group_id)
    &&& m_req_i64_val(d, "operator_id"@) == Some(x.operator_id)
    &&& m_req_i64_val(d, "user_id"@) == Some(x.user_id)
}

/// Decodes a `GroupDecreaseNotice`, failing exactly where the grammar fails.
pub fn decode_group_decrease_notice(v: &serde_json::Value) -> (r: Option<GroupDecreaseNotice>)
    ensures
        match r {
            Some(x) => is_group_decrease_notice_model(value_model(*v)) && group_decrease_notice_matches(value_model(*v), x),
            None => !is_group_decrease_notice_model(value_model(*v)),
        },
{
    let base = match decode_event_base(v) {
        Some(b) => b,
        None => {
            return None;
        },
    };
    let sub_type = {
        let t = match req_str(v, "sub_type") {
            Some(t) => t,
            None => {
            return None;
        },
        };
        if str_is(&t, "leave") {
            GroupDecreaseType::Leave
        } else if str_is(&t, "kick") {
            GroupDecreaseType::Kick
        } else if str_is(&t, "kick_me") {
            GroupDecreaseType::KickMe
        } else {
            return None;
        }
    };
    let group_id = match req_i64(v, "group_id") {
        Some(x) => x,
        None => {
            return None;
        },
    };
    let operator_id = match req_i64(v, "operator_id") {
        Some(x) => x,
        None => {
            return None;
        },
    };
    let user_id = match req_i64(v, "user_id") {
        Some(x) => x,
        None => {
            return None;
        },
    };
    Some(GroupDecreaseNotice { base, sub_type, group_id, operator_id, user_id })
}

/// The frame grammar of a `GroupIncreaseNotice`.
pub open spec fn is_group_increase_notice_model(d: JsonData) -> bool {
    &&& is_event_base_model(d)
    &&& (match m_req_str_val(d, "sub_type"@) { Some(t) => increase_type_of(t) is Some, None => false })
    &&& m_req_i64_ok(d, "group_id"@)
    &&& m_req_i64_ok(d, "operator_id"@)
    &&& m_req_i64_ok(d, "user_id"@)
}

/// The decoded `GroupIncreaseNotice` is pinned by its frame.
pub open spec fn group_increase_notice_matches(d: JsonData, x: GroupIncreaseNotice) -> bool {
    &&& event_base_matches(d, x.base)
    &&& (match m_req_str_val(d, "sub_type"@) { Some(t) => increase_type_of(t) == Some(x.sub_type), None => false })
    &&& m_req_i64_val(d, "group_id"@) == Some(x.group_id)
    &&& m_req_i64_val(d, "operator_id"@) == Some(x.operator_id)
    &&& m_req_i64_val(d, "user_id"@) == Some(x.user_id)
}

/// Decodes a `GroupIncreaseNotice`, failing exactly where the grammar fails.
pub fn decode_group_increase_notice(v: &serde_json::Value) -> (r: Option<GroupIncreaseNotice>)
    ensures
        match r {
            Some(x) => is_group_increase_notice_model(value_model(*v)) && group_increase_notice_matches(value_model(*v), x),
            None => !is_group_increase_notice_model(value_model(*v)),
        },
{
    let base = match decode_event_base(v) {
        Some(b) => b,
        None => {
            return None;
        },
    };
    let sub_type = {
        let t = match req_str(v, "sub_type") {
            Some(t) => t,
            None => {
            return None;
        },
        };
        if str_is(&t, "approve") {
            GroupIncreaseType::Approve
        } else if str_is(&t, "invite") {
            GroupIncreaseType::Invite
        } else {
            return None;
        }
    };
    let group_id = match req_i64(v, "group_id") {
        Some(x) => x,
        None => {
            return None;
        },
    };
    let operator_id = match req_i64(v, "operator_id") {
        Some(x) => x,
        None => {
            return None;
        },
    };
    let user_id = match req_i64(v, "user_id") {
        Some(x) => x,
        None => {
            return None;
        },
    };
    Some(GroupIncreaseNotice { base, sub_type, group_id, operator_id, user_id })
}

/// The frame grammar of a `GroupBanNotice`.
pub open spec fn is_group_ban_notice_model(d: JsonData) -> bool {
    &&& is_event_base_model(d)
    &&& (match m_req_str_val(d, "sub_type"@) { Some(t) => ban_type_of(t) is Some, None => false })
    &&& m_req_i64_ok(d, "group_id"@)
    &&& m_req_i64_ok(d, "operator_id"@)
    &&& m_req_i64_ok(d, "user_id"@)
    &&& m_req_i64_ok(d, "duration"@)
}

/// The decoded `GroupBanNotice` is pinned by its frame.
pub open spec fn group_ban_notice_matches(d: JsonData, x: GroupBanNotice) -> bool {
    &&& event_base_matches(d, x.base)
    &&& (match m_req_str_val(d, "sub_type"@) { Some(t) => ban_type_of(t) == Some(x.sub_type), None => false })
    &&& m_req_i64_val(d, "group_id"@) == Some(x.group_id)
    &&& m_req_i64_val(d, "operator_id"@) == Some(x.operator_id)
    &&& m_req_i64_val(d, "user_id"@) == Some(x.user_id)
    &&& m_req_i64_val(d, "duration"@) == Some(x.duration)
}

/// Decodes a `GroupBanNotice`, failing exactly where the grammar fails.
pub fn decode_group_ban_notice(v: &serde_json::Value) -> (r: Option<GroupBanNotice>)
    ensures
        match r {
            Some(x) => is_group_ban_notice_model(value_model(*v)) && group_ban_notice_matches(value_model(*v), x),
            None => !is_group_ban_notice_model(value_model(*v)),
        },
{
    let base = match decode_event_base(v) {
        Some(b) => b,
        None => {
            return None;
        },
    };
    let sub_type = {
        let t = match req_str(v, "sub_type") {
            Some(t) => t,
            None => {
            return None;
        },
        };
        if str_is(&t, "ban") {
            GroupBanType::Ban
        } else if str_is(&t, "lift_ban") {
            GroupBanType::LiftBan
        } else {
            return None;
        }
    };
    let group_id = match req_i64(v, "group_id") {
        Some(x) => x,
        None => {
            return None;
        },
    };
    let operator_id = match req_i64(v, "operator_id") {
        Some(x) => x,
        None => {
            return None;
        },
    };
    let user_id = match req_i64(v, "user_id") {
        Some(x) => x,
        None => {
            return None;
        },
    };
    let duration = match req_i64(v, "duration") {
        Some(x) => x,
        None => {
            return None;
        },
    };
    Some(GroupBanNotice { base, sub_type, group_id, operator_id, user_id, duration })
}

/// The frame grammar of a `FriendAddNotice`.
pub open spec fn is_friend_add_notice_model(d: JsonData) -> bool {
    &&& is_event_base_model(d)
    &&& m_req_i64_ok(d, "user_id"@)
}

/// The decoded `FriendAddNotice` is pinned by its frame.
pub open spec fn friend_add_notice_matches(d: JsonData, x: FriendAddNotice) -> bool {
    &&& event_base_matches(d, x.base)
    &&& m_req_i64_val(d, "user_id"@) == Some(x.user_id)
}

/// Decodes a `FriendAddNotice`, failing exactly where the grammar fails.
pub fn decode_friend_add_notice(v: &serde_json::Value) -> (r: Option<FriendAddNotice>)
    ensures
        match r {
            Some(x) => is_friend_add_notice_model(value_model(*v)) && friend_add_notice_matches(value_model(*v), x),
            None => !is_friend_add_notice_model(value_model(*v)),
        },
{
    let base = match decode_event_base(v) {
        Some(b) => b,
        None => {
            return None;
        },
    };
    let user_id = match req_i64(v, "user_id") {
        Some(x) => x,
        None => {
            return None;
        },
    };
    Some(FriendAddNotice { base, user_id })
}

/// The frame grammar of a `GroupRecallNotice`.
pub open spec fn is_group_recall_notice_model(d: JsonData) -> bool {
    &&& is_event_base_model(d)
    &&& m_req_i64_ok(d, "group_id"@)
    &&& m_req_i64_ok(d, "user_id"@)
    &&& m_req_i64_ok(d, "operator_id"@)
    &&& m_req_i64_ok(d, "message_id"@)
}

/// The decoded `GroupRecallNotice` is pinned by its frame.
pub open spec fn group_recall_notice_matches(d: JsonData, x: GroupRecallNotice) -> bool {
    &&& event_base_matches(d, x.base)
    &&& m_req_i64_val(d, "group_id"@) == Some(x.group_id)
    &&& m_req_i64_val(d, "user_id"@) == Some(x.user_id)
    &&& m_req_i64_val(d, "operator_id"@) == Some(x.operator_id)
    &&& m_req_i64_val(d, "message_id"@) == Some(x.message_id)
}

/// Decodes a `GroupRecallNotice`, failing exactly where the grammar fails.
pub fn decode_group_recall_notice(v: &serde_json::Value) -> (r: Option<GroupRecallNotice>)
    ensures
        match r {
            Some(x) => is_group_recall_notice_model(value_model(*v)) && group_recall_notice_matches(value_model(*v), x),
            None => !is_group_recall_notice_model(value_model(*v)),
        },
{
    let base = match decode_event_base(v) {
        Some(b) => b,
        None => {
            return None;
        },
    };
    let group_id = match req_i64(v, "group_id") {
        Some(x) => x,
        None => {
            return None;
        },
    };
    let user_id = match req_i64(v, "user_id") {
        Some(x) => x,
        None => {
            return None;
        },
    };
    let operator_id = match req_i64(v, "operator_id") {
        Some(x) => x,
        None => {
            return None;
        },
    };
    let message_id = match req_i64(v, "message_id") {
        Some(x) => x,
        None => {
            return None;
        },
    };
    Some(GroupRecallNotice { base, group_id, user_id, operator_id, message_id })
}

/// The frame grammar of a `FriendRecallNotice`.
pub open spec fn is_friend_recall_notice_model(d: JsonData) -> bool {
    &&& is_event_base_model(d)
    &&& m_req_i64_ok(d, "user_id"@)
    &&& m_req_i64_ok(d, "message_id"@)
}

/// The decoded `FriendRecallNotice` is pinned by its frame.
pub open spec fn friend_recall_notice_matches(d: JsonData, x: FriendRecallNotice) -> bool {
    &&& event_base_matches(d, x.base)
    &&& m_req_i64_val(d, "user_id"@) == Some(x.user_id)
    &&& m_req_i64_val(d, "message_id"@) == Some(x.message_id)
}

/// Decodes a `FriendRecallNotice`, failing exactly where the grammar fails.
pub fn decode_friend_recall_notice(v: &serde_json::Value) -> (r: Option<FriendRecallNotice>)
    ensures
        match r {
            Some(x) => is_friend_recall_notice_model(value_model(*v)) && friend_recall_notice_matches(value_model(*v), x),
            None => !is_friend_recall_notice_model(value_model(*v)),
        },
{
    let base = match decode_event_base(v) {
        Some(b) => b,
        None => {
            return None;
        },
    };
    let user_id = match req_i64(v, "user_id") {
        Some(x) => x,
        None => {
            return None;
        },
    };
    let message_id = match req_i64(v, "message_id") {
        Some(x) => x,
        None => {
            return None;
        },
    };
    Some(FriendRecallNotice { base, user_id, message_id })
}

/// The frame grammar of a `PokeNotify`.
pub open spec fn is_poke_notify_model(d: JsonData) -> bool {
    &&& is_event_base_model(d)
    &&& m_req_i64_ok(d, "group_id"@)
    &&& m_req_i64_ok(d, "user_id"@)
    &&& m_req_i64_ok(d, "target_id"@)
}

/// The decoded `PokeNotify` is pinned by its frame.
pub open spec fn poke_notify_matches(d: JsonData, x: PokeNotify) -> bool {
    &&& event_base_matches(d, x.base)
    &&& m_req_i64_val(d, "group_id"@) == Some(x.group_id)
    &&& m_req_i64_val(d, "user_id"@) == Some(x.user_id)
    &&& m_req_i64_val(d, "target_id"@) == Some(x.target_id)
}

/// Decodes a `PokeNotify`, failing exactly where the grammar fails.
pub fn decode_poke_notify(v: &serde_json::Value) -> (r: Option<PokeNotify>)
    ensures
        match r {
            Some(x) => is_poke_notify_model(value_model(*v)) && poke_notify_matches(value_model(*v), x),
            None => !is_poke_notify_model(value_model(*v)),
        },
{
    let base = match decode_event_base(v) {
        Some(b) => b,
        None => {
            return None;
        },
    };
    let group_id = match req_i64(v, "group_id") {
        Some(x) => x,
        None => {
            return None;
        },
    };
    let user_id = match req_i64(v, "user_id") {
        Some(x) => x,
        None => {
            return None;
        },
    };
    let target_id = match req_i64(v, "target_id") {
        Some(x) => x,
        None => {
            return None;
        },
    };
    Some(PokeNotify { base, group_id, user_id, target_id })
}

/// The frame grammar of a `LuckyKingNotify`.
pub open spec fn is_lucky_king_notify_model(d: JsonData) -> bool {
    &&& is_event_base_model(d)
    &&& m_req_i64_ok(d, "group_id"@)
    &&& m_req_i64_ok(d, "user_id"@)
    &&& m_req_i64_ok(d, "target_id"@)
}

/// The decoded `LuckyKingNotify` is pinned by its frame.
pub open spec fn lucky_king_notify_matches(d: JsonData, x: LuckyKingNotify) -> bool {
    &&& event_base_matches(d, x.base)
    &&& m_req_i64_val(d, "group_id"@) == Some(x.group_id)
    &&& m_req_i64_val(d, "user_id"@) == Some(x.user_id)
    &&& m_req_i64_val(d, "target_id"@) == Some(x.target_id)
}

/// Decodes a `LuckyKingNotify`, failing exactly where the grammar fails.
pub fn decode_lucky_king_notify(v: &serde_json::Value) -> (r: Option<LuckyKingNotify>)
    ensures
        match r {
            Some(x) => is_lucky_king_notify_model(value_model(*v)) && lucky_king_notify_matches(value_model(*v), x),
            None => !is_lucky_king_notify_model(value_model(*v)),
        },
{
    let base = match decode_event_base(v) {
        Some(b) => b,
        None => {
            return None;
        },
    };
    let group_id = match req_i64(v, "group_id") {
        Some(x) => x,
        None => {
            return None;
        },
    };
    let user_id = match req_i64(v, "user_id") {
        Some(x) => x,
        None => {
            return None;
        },
    };
    let target_id = match req_i64(v, "target_id") {
        Some(x) => x,
        None => {
            return None;
        },
    };
    Some(LuckyKingNotify { base, group_id, user_id, target_id })
}

/// The frame grammar of a `HonorNotify`.
pub open spec fn is_honor_notify_model(d: JsonData) -> bool {
    &&& is_event_base_model(d)
    &&& m_req_i64_ok(d, "group_id"@)
    &&& (match m_req_str_val(d, "honor_type"@) { Some(t) => honor_type_of(t) is Some, None => false })
    &&& m_req_i64_ok(d, "user_id"@)
}

/// The decoded `HonorNotify` is pinned by its frame.
pub open spec fn honor_notify_matches(d: JsonData, x: HonorNotify) -> bool {
    &&& event_base_matches(d, x.base)
    &&& m_req_i64_val(d, "group_id"@) == Some(x.group_id)
    &&& (match m_req_str_val(d, "honor_type"@) { Some(t) => honor_type_of(t) == Some(x.honor_type), None => false })
    &&& m_req_i64_val(d, "user_id"@) == Some(x.user_id)
}

/// Decodes a `HonorNotify`, failing exactly where the grammar fails.
pub fn decode_honor_notify(v: &serde_json::Value) -> (r: Option<HonorNotify>)
    ensures
        match r {
            Some(x) => is_honor_notify_model(value_model(*v)) && honor_notify_matches(value_model(*v), x),
            None => !is_honor_notify_model(value_model(*v)),
        },
{
    let base = match decode_event_base(v) {
        Some(b) => b,
        None => {
            return None;
        },
    };
    let group_id = match req_i64(v, "group_id") {
        Some(x) => x,
        None => {
            return None;
        },
    };
    let honor_type = {
        let t = match req_str(v, "honor_type") {
            Some(t) => t,
            None => {
            return None;
        },
        };
        if str_is(&t, "talkative") {
            HonorType::Talkative
        } else if str_is(&t, "performer") {
            HonorType::Performer
        } else if str_is(&t, "emotion") {
            HonorType::Emotion
        } else {
            return None;
        }
    };
    let user_id = match req_i64(v, "user_id") {
        Some(x) => x,
        None => {
            return None;
        },
    };
    Some(HonorNotify { base, group_id, honor_type, user_id })
}

/// The frame grammar of a `GroupCardNotice`.
pub open spec fn is_group_card_notice_model(d: JsonData) -> bool {
    &&& is_event_base_model(d)
    &&& m_req_i64_ok(d, "group_id"@)
    &&& m_req_i64_ok(d, "user_id"@)
    &&& m_req_str_ok(d, "card_new"@)
    &&& m_req_str_ok(d, "card_old"@)
}

/// The decoded `GroupCardNotice` is pinned by its frame.
pub open spec fn group_card_notice_matches(d: JsonData, x: GroupCardNotice) -> bool {
    &&& event_base_matches(d, x.base)
    &&& m_req_i64_val(d, "group_id"@) == Some(x.group_id)
    &&& m_req_i64_val(d, "user_id"@) == Some(x.user_id)
    &&& m_req_str_val(d, "card_new"@) == Some(x.card_new@)
    &&& m_req_str_val(d, "card_old"@) == Some(x.card_old@)
}

/// Decodes a `GroupCardNotice`, failing exactly where the grammar fails.
pub fn decode_group_card_notice(v: &serde_json::Value) -> (r: Option<GroupCardNotice>)
    ensures
        match r {
            Some(x) => is_group_card_notice_model(value_model(*v)) && group_card_notice_matches(value_model(*v), x),
            None => !is_group_card_notice_model(value_model(*v)),
        },
{
    let base = match decode_event_base(v) {
        Some(b) => b,
        None => {
            return None;
        },
    };
    let group_id = match req_i64(v, "group_id") {
        Some(x) => x,
        None => {
            return None;
        },
    };
    let user_id = match req_i64(v, "user_id") {
        Some(x) => x,
        None => {
            return None;
        },
    };
    let card_new = match req_str(v, "card_new") {
        Some(x) => x,
        None => {
            return None;
        },
    };
    let card_old = match req_str(v, "card_old") {
        Some(x) => x,
        None => {
            return None;
        },
    };
    Some(GroupCardNotice { base, group_id, user_id, card_new, card_old })
}

/// The frame grammar of a `FriendRequest`.
pub open spec fn is_friend_request_model(d: JsonData) -> bool {
    &&& is_event_base_model(d)
    &&& m_req_i64_ok(d, "user_id"@)
    &&& m_req_str_ok(d, "comment"@)
    &&& m_req_str_ok(d, "flag"@)
}

/// The decoded `FriendRequest` is pinned by its frame.
pub open spec fn friend_request_matches(d: JsonData, x: FriendRequest) -> bool {
    &&& event_base_matches(d, x.base)
    &&& m_req_i64_val(d, "user_id"@) == Some(x.user_id)
    &&& m_req_str_val(d, "comment"@) == Some(x.comment@)
    &&& m_req_str_val(d, "flag"@) == Some(x.flag@)
}

/// Decodes a `FriendRequest`, failing exactly where the grammar fails.
pub fn decode_friend_request(v: &serde_json::Value) -> (r: Option<FriendRequest>)
    ensures
        match r {
            Some(x) => is_friend_request_model(value_model(*v)) && friend_request_matches(value_model(*v), x),
            None => !is_friend_request_model(value_model(*v)),
        },
{
    let base = match decode_event_base(v) {
        Some(b) => b,
        None => {
            return None;
        },
    };
    let user_id = match req_i64(v, "user_id") {
        Some(x) => x,
        None => {
            return None;
        },
    };
    let comment = match req_str(v, "comment") {
        Some(x) => x,
        None => {
            return None;
        },
    };
    let flag = match req_str(v, "flag") {
        Some(x) => x,
        None => {
            return None;
        },
    };
    Some(FriendRequest { base, user_id, comment, flag })
}

/// The frame grammar of a `GroupRequest`.
pub open spec fn is_group_request_model(d: JsonData) -> bool {
    &&& is_event_base_model(d)
    &&& (match m_req_str_val(d, "sub_type"@) { Some(t) => group_request_type_of(t) is Some, None => false })
    &&& m_req_i64_ok(d, "group_id"@)
    &&& m_req_i64_ok(d, "user_id"@)
    &&& m_req_str_ok(d, "comment"@)
    &&& m_req_str_ok(d, "flag"@)
}

/// The decoded `GroupRequest` is pinned by its frame.
pub open spec fn group_request_matches(d: JsonData, x: GroupRequest) -> bool {
    &&& event_base_matches(d, x.base)
    &&& (match m_req_str_val(d, "sub_type"@) { Some(t) => group_request_type_of(t) == Some(x.sub_type), None => false })
    &&& m_req_i64_val(d, "group_id"@) == Some(x.group_id)
    &&& m_req_i64_val(d, "user_id"@) == Some(x.user_id)
    &&& m_req_str_val(d, "comment"@) == Some(x.comment@)
    &&& m_req_str_val(d, "flag"@) == Some(x.flag@)
}

/// Decodes a `GroupRequest`, failing exactly where the grammar fails.
pub fn decode_group_request(v: &serde_json::Value) -> (r: Option<GroupRequest>)
    ensures
        match r {
            Some(x) => is_group_request_model(value_model(*v)) && group_request_matches(value_model(*v), x),
            None => !is_group_request_model(value_model(*v)),
        },
{
    let base = match decode_event_base(v) {
        Some(b) => b,
        None => {
            return None;
        },
    };
    let sub_type = {
        let t = match req_str(v, "sub_type") {
            Some(t) => t,
            None => {
            return None;
        },
        };
        if str_is(&t, "add") {
            GroupRequestType::Add
        } else if str_is(&t, "invite") {
            GroupRequestType::Invite
        } else {
            return None;
        }
    };
    let group_id = match req_i64(v, "group_id") {
        Some(x) => x,
        None => {
            return None;
        },
    };
    let user_id = match req_i64(v, "user_id") {
        Some(x) => x,
        None => {
            return None;
        },
    };
    let comment = match req_str(v, "comment") {
        Some(x) => x,
        None => {
            return None;
        },
    };
    let flag = match req_str(v, "flag") {
        Some(x) => x,
        None => {
            return None;
        },
    };
    Some(GroupRequest { base, sub_type, group_id, user_id, comment, flag })
}

/// The frame grammar of a `LifeCycle`.
pub open spec fn is_life_cycle_model(d: JsonData) -> bool {
    &&& is_event_base_model(d)
    &&& m_req_str_ok(d, "sub_type"@)
}

/// The decoded `LifeCycle` is pinned by its frame.
pub open spec fn life_cycle_matches(d: JsonData, x: LifeCycle) -> bool {
    &&& event_base_matches(d, x.base)
    &&& m_req_str_val(d, "sub_type"@) == Some(x.sub_type@)
}

/// Decodes a `LifeCycle`, failing exactly where the grammar fails.
pub fn decode_life_cycle(v: &serde_json::Value) -> (r: Option<LifeCycle>)
    ensures
        match r {
            Some(x) => is_life_cycle_model(value_model(*v)) && life_cycle_matches(value_model(*v), x),
            None => !is_life_cycle_model(value_model(*v)),
        },
{
    let base = match decode_event_base(v) {
        Some(b) => b,
        None => {
            return None;
        },
    };
    let sub_type = match req_str(v, "sub_type") {
        Some(x) => x,
        None => {
            return None;
        },
    };
    Some(LifeCycle { base, sub_type })
}

/// The frame grammar of a `HeartBeat`.
pub open spec fn is_heart_beat_model(d: JsonData) -> bool {
    &&& is_event_base_model(d)
    &&& m_has_key(d, "status"@)
}

/// The decoded `HeartBeat` is pinned by its frame.
pub open spec fn heart_beat_matches(d: JsonData, x: HeartBeat) -> bool {
    &&& event_base_matches(d, x.base)
    &&& value_model(x.status) == m_key(d, "status"@)
}

/// Decodes a `HeartBeat`, failing exactly where the grammar fails.
pub fn decode_heart_beat(v: &serde_json::Value) -> (r: Option<HeartBeat>)
    ensures
        match r {
            Some(x) => is_heart_beat_model(value_model(*v)) && heart_beat_matches(value_model(*v), x),
            None => !is_heart_beat_model(value_model(*v)),
        },
{
    let base = match decode_event_base(v) {
        Some(b) => b,
        None => {
            return None;
        },
    };
    let status = match jv_get(v, "status") {
        Some(sv) => jv_clone(sv),
        None => {
            return None;
        },
    };
    Some(HeartBeat { base, status })
}

/// The grammar of a message event, chosen by `message_type`.
pub open spec fn is_message_event_model(d: JsonData) -> bool {
    match m_req_str_val(d, "message_type"@) {
        Some(t) => if t == "private"@ {
            is_private_message_model(d)
        } else if t == "group"@ {
            is_group_message_model(d)
        } else {
            false
        },
        None => false,
    }
}

/// The decoded message event is pinned by its frame.
pub open spec fn message_event_matches(d: JsonData, e: MessageEvent) -> bool {
    match e {
        MessageEvent::Private(p) => m_req_str_val(d, "message_type"@) == Some("private"@)
            && private_message_matches(d, p),
        MessageEvent::Group(g) => m_req_str_val(d, "message_type"@) == Some("group"@)
            && group_message_matches(d, g),
    }
}

/// Decodes a message event.
pub fn decode_message_event(v: &serde_json::Value) -> (r: Option<MessageEvent>)
    ensures
        match r {
            Some(e) => is_message_event_model(value_model(*v)) && message_event_matches(
                value_model(*v),
                e,
            ),
            None => !is_message_event_model(value_model(*v)),
        },
{
    let t = match req_str(v, "message_type") {
        Some(t) => t,
        None => {
            return None;
        },
    };
    if str_is(&t, "private") {
        match decode_private_message(v) {
            Some(p) => Some(MessageEvent::Private(p)),
            None => None,
        }
    } else if str_is(&t, "group") {
        match decode_group_message(v) {
            Some(g) => Some(MessageEvent::Group(g)),
            None => None,
        }
    } else {
        None
    }
}

/// The grammar of a notify notice, chosen by `sub_type`.
pub open spec fn is_notify_event_model(d: JsonData) -> bool {
    match m_req_str_val(d, "sub_type"@) {
        Some(t) => if t == "poke"@ {
            is_poke_notify_model(d)
        } else if t == "lucky_king"@ {
            is_lucky_king_notify_model(d)
        } else if t == "honor"@ {
            is_honor_notify_model(d)
        } else {
            false
        },
        None => false,
    }
}

/// The decoded notify notice is pinned by its frame.
pub open spec fn notify_event_matches(d: JsonData, e: NotifyEvent) -> bool {
    match e {
        NotifyEvent::Poke(p) => m_req_str_val(d, "sub_type"@) == Some("poke"@)
            && poke_notify_matches(d, p),
        NotifyEvent::LuckyKing(p) => m_req_str_val(d, "sub_type"@) == Some("lucky_king"@)
            && lucky_king_notify_matches(d, p),
        NotifyEvent::Honor(p) => m_req_str_val(d, "sub_type"@) == Some("honor"@)
            && honor_notify_matches(d, p),
    }
}

/// Decodes a notify notice.
pub fn decode_notify_event(v: &serde_json::Value) -> (r: Option<NotifyEvent>)
    ensures
        match r {
            Some(e) => is_notify_event_model(value_model(*v)) && notify_event_matches(
                value_model(*v),
                e,
            ),
            None => !is_notify_event_model(value_model(*v)),
        },
{
    let t = match req_str(v, "sub_type") {
        Some(t) => t,
        None => {
            return None;
        },
    };
    if str_is(&t, "poke") {
        match decode_poke_notify(v) {
            Some(p) => Some(NotifyEvent::Poke(p)),
            None => None,
        }
    } else if str_is(&t, "lucky_king") {
        match decode_lucky_king_notify(v) {
            Some(p) => Some(NotifyEvent::LuckyKing(p)),
            None => None,
        }
    } else if str_is(&t, "honor") {
        match decode_honor_notify(v) {
            Some(p) => Some(NotifyEvent::Honor(p)),
            None => None,
        }
    } else {
        None
    }
}

/// The grammar of a notice, chosen by `notice_type`.
pub open spec fn is_notice_model(d: JsonData) -> bool {
    match m_req_str_val(d, "notice_type"@) {
        Some(t) => if t == "group_upload"@ {
            is_group_upload_notice_model(d)
        } else if t == "group_admin"@ {
            is_group_admin_notice_model(d)
        } else if t == "group_decrease"@ {
            is_group_decrease_notice_model(d)
        } else if t == "group_increase"@ {
            is_group_increase_notice_model(d)
        } else if t == "group_ban"@ {
            is_group_ban_notice_model(d)
        } else if t == "friend_add"@ {
            is_friend_add_notice_model(d)
        } else if t == "group_recall"@ {
            is_group_recall_notice_model(d)
        } else if t == "friend_recall"@ {
            is_friend_recall_notice_model(d)
        } else if t == "notify"@ {
            is_notify_event_model(d)
        } else if t == "group_card"@ {
            is_group_card_notice_model(d)
        } else {
            false
        },
        None => false,
    }
}

/// The decoded notice is pinned by its frame.
pub open spec fn notice_matches(d: JsonData, e: Notice) -> bool {
    match e {
        Notice::GroupUpload(x) => m_req_str_val(d, "notice_type"@) == Some("group_upload"@)
            && group_upload_notice_matches(d, x),
        Notice::GroupAdmin(x) => m_req_str_val(d, "notice_type"@) == Some("group_admin"@)
            && group_admin_notice_matches(d, x),
        Notice::GroupDecrease(x) => m_req_str_val(d, "notice_type"@) == Some("group_decrease"@)
            && group_decrease_notice_matches(d, x),
        Notice::GroupIncrease(x) => m_req_str_val(d, "notice_type"@) == Some("group_increase"@)
            && group_increase_notice_matches(d, x),
        Notice::GroupBan(x) => m_req_str_val(d, "notice_type"@) == Some("group_ban"@)
            && group_ban_notice_matches(d, x),
        Notice::FriendAdd(x) => m_req_str_val(d, "notice_type"@) == Some("friend_add"@)
            && friend_add_notice_matches(d, x),
        Notice::GroupRecall(x) => m_req_str_val(d, "notice_type"@) == Some("group_recall"@)
            && group_recall_notice_matches(d, x),
        Notice::FriendRecall(x) => m_req_str_val(d, "notice_type"@) == Some("friend_recall"@)
            && friend_recall_notice_matches(d, x),
        Notice::Notify(x) => m_req_str_val(d, "notice_type"@) == Some("notify"@)
            && notify_event_matches(d, x),
        Notice::GroupCard(x) => m_req_str_val(d, "notice_type"@) == Some("group_card"@)
            && group_card_notice_matches(d, x),
    }
}

/// Decodes a notice.
pub fn decode_notice(v: &serde_json::Value) -> (r: Option<Notice>)
    ensures
        match r {
            Some(e) => is_notice_model(value_model(*v)) && notice_matches(value_model(*v), e),
            None => !is_notice_model(value_model(*v)),
        },
{
    let t = match req_str(v, "notice_type") {
        Some(t) => t,
        None => {
            return None;
        },
    };
    if str_is(&t, "group_upload") {
        match decode_group_upload_notice(v) {
            Some(x) => Some(Notice::GroupUpload(x)),
            None => None,
        }
    } else if str_is(&t, "group_admin") {
        match decode_group_admin_notice(v) {
            Some(x) => Some(Notice::GroupAdmin(x)),
            None => None,
        }
    } else if str_is(&t, "group_decrease") {
        match decode_group_decrease_notice(v) {
            Some(x) => Some(Notice::GroupDecrease(x)),
            None => None,
        }
    } else if str_is(&t, "group_increase") {
        match decode_group_increase_notice(v) {
            Some(x) => Some(Notice::GroupIncrease(x)),
            None => None,
        }
    } else if str_is(&t, "group_ban") {
        match decode_group_ban_notice(v) {
            Some(x) => Some(Notice::GroupBan(x)),
            None => None,
        }
    } else if str_is(&t, "friend_add") {
        match decode_friend_add_notice(v) {
            Some(x) => Some(Notice::FriendAdd(x)),
            None => None,
        }
    } else if str_is(&t, "group_recall") {
        match decode_group_recall_notice(v) {
            Some(x) => Some(Notice::GroupRecall(x)),
            None => None,
        }
    } else if str_is(&t, "friend_recall") {
        match decode_friend_recall_notice(v) {
            Some(x) => Some(Notice::FriendRecall(x)),
            None => None,
        }
    } else if str_is(&t, "notify") {
        match decode_notify_event(v) {
            Some(x) => Some(Notice::Notify(x)),
            None => None,
        }
    } else if str_is(&t, "group_card") {
        match decode_group_card_notice(v) {
            Some(x) => Some(Notice::GroupCard(x)),
            None => None,
        }
    } else {
        None
    }
}

/// The grammar of a request event, chosen by `request_type`.
pub open spec fn is_request_event_model(d: JsonData) -> bool {
    match m_req_str_val(d, "request_type"@) {
        Some(t) => if t == "friend"@ {
            is_friend_request_model(d)
        } else if t == "group"@ {
            is_group_request_model(d)
        } else {
            false
        },
        None => false,
    }
}

/// The decoded request event is pinned by its frame.
pub open spec fn request_event_matches(d: JsonData, e: crate::events::Request) -> bool {
    match e {
        crate::events::Request::Friend(x) => m_req_str_val(d, "request_type"@) == Some("friend"@)
            && friend_request_matches(d, x),
        crate::events::Request::Group(x) => m_req_str_val(d, "request_type"@) == Some("group"@)
            && group_request_matches(d, x),
    }
}

/// Decodes a request event.
pub fn decode_request_event(v: &serde_json::Value) -> (r: Option<crate::events::Request>)
    ensures
        match r {
            Some(e) => is_request_event_model(value_model(*v)) && request_event_matches(
                value_model(*v),
                e,
            ),
            None => !is_request_event_model(value_model(*v)),
        },
{
    let t = match req_str(v, "request_type") {
        Some(t) => t,
        None => {
            return None;
        },
    };
    if str_is(&t, "friend") {
        match decode_friend_request(v) {
            Some(x) => Some(crate::events::Request::Friend(x)),
            None => None,
        }
    } else if str_is(&t, "group") {
        match decode_group_request(v) {
            Some(x) => Some(crate::events::Request::Group(x)),
            None => None,
        }
    } else {
        None
    }
}

/// The grammar of a meta event, chosen by `meta_event_type`.
pub open spec fn is_meta_event_model(d: JsonData) -> bool {
    match m_req_str_val(d, "meta_event_type"@) {
        Some(t) => if t == "lifecycle"@ {
            is_life_cycle_model(d)
        } else if t == "heartbeat"@ {
            is_heart_beat_model(d)
        } else {
            false
        },
        None => false,
    }
}

/// The decoded meta event is pinned by its frame.
pub open spec fn meta_event_matches(d: JsonData, e: MetaEvent) -> bool {
    match e {
        MetaEvent::LifeCycle(x) => m_req_str_val(d, "meta_event_type"@) == Some("lifecycle"@)
            && life_cycle_matches(d, x),
        MetaEvent::HeartBeat(x) => m_req_str_val(d, "meta_event_type"@) == Some("heartbeat"@)
            && heart_beat_matches(d, x),
    }
}

/// Decodes a meta event.
pub fn decode_meta_event(v: &serde_json::Value) -> (r: Option<MetaEvent>)
    ensures
        match r {
            Some(e) => is_meta_event_model(value_model(*v)) && meta_event_matches(
                value_model(*v),
                e,
            ),
            None => !is_meta_event_model(value_model(*v)),
        },
{
    let t = match req_str(v, "meta_event_type") {
        Some(t) => t,
        None => {
            return None;
        },
    };
    if str_is(&t, "lifecycle") {
        match decode_life_cycle(v) {
            Some(x) => Some(MetaEvent::LifeCycle(x)),
            None => None,
        }
    } else if str_is(&t, "heartbeat") {
        match decode_heart_beat(v) {
            Some(x) => Some(MetaEvent::HeartBeat(x)),
            None => None,
        }
    } else {
        None
    }
}

/// The grammar of an inbound event frame, chosen by `post_type`.
pub open spec fn is_event_model(d: JsonData) -> bool {
    match m_req_str_val(d, "post_type"@) {
        Some(t) => if t == "message"@ {
            is_message_event_model(d)
        } else if t == "notice"@ {
            is_notice_model(d)
        } else if t == "request"@ {
            is_request_event_model(d)
        } else if t == "meta_event"@ {
            is_meta_event_model(d)
        } else {
            false
        },
        None => false,
    }
}

/// The decoded event is pinned by its frame.
pub open spec fn event_matches(d: JsonData, e: Event) -> bool {
    match e {
        Event::MessageEvent(x) => m_req_str_val(d, "post_type"@) == Some("message"@)
            && message_event_matches(d, x),
        Event::Notice(x) => m_req_str_val(d, "post_type"@) == Some("notice"@) && notice_matches(
            d,
            x,
        ),
        Event::RequestEvent(x) => m_req_str_val(d, "post_type"@) == Some("request"@)
            && request_event_matches(d, x),
        Event::MetaEvent(x) => m_req_str_val(d, "post_type"@) == Some("meta_event"@)
            && meta_event_matches(d, x),
    }
}

/// Decodes an inbound event frame, failing exactly where the grammar
/// fails.
pub fn decode_event(v: &serde_json::Value) -> (r: Option<Event>)
    ensures
        match r {
            Some(e) => is_event_model(value_model(*v)) && event_matches(value_model(*v), e),
            None => !is_event_model(value_model(*v)),
        },
{
    let t = match req_str(v, "post_type") {
        Some(t) => t,
        None => {
            return None;
        },
    };
    if str_is(&t, "message") {
        match decode_message_event(v) {
            Some(x) => Some(Event::MessageEvent(x)),
            None => None,
        }
    } else if str_is(&t, "notice") {
        match decode_notice(v) {
            Some(x) => Some(Event::Notice(x)),
            None => None,
        }
    } else if str_is(&t, "request") {
        match decode_request_event(v) {
            Some(x) => Some(Event::RequestEvent(x)),
            None => None,
        }
    } else if str_is(&t, "meta_event") {
        match decode_meta_event(v) {
            Some(x) => Some(Event::MetaEvent(x)),
            None => None,
        }
    } else {
        None
    }
}

} // verus!
