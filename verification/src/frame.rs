//! The frame formats of the primary transport: outbound request frames and
//! inbound response frames.

use crate::jmodel::JsonData;
use crate::jmodel::jv_as_i64;
use crate::jmodel::jv_as_str;
use crate::jmodel::jv_clone;
use crate::jmodel::jv_get;
use crate::jmodel::jv_is_null;
use crate::jmodel::m_as_i64;
use crate::jmodel::m_has_key;
use crate::jmodel::m_key;
use crate::jmodel::value_model;
use crate::json::JsonValue;
use crate::json::fld;
use crate::json::fld_str;
use crate::json::json_text;
use crate::json::obj_of_fields;
use crate::json::push_field;
use crate::json::obj_json;
use vstd::prelude::*;
use vstd::string::StringExecFns;

verus! {

/// An outbound request frame: an action, its parameters, and the
/// correlation token echoed back by the eventual response.
pub struct Request {
    pub action: String,
    pub params: JsonValue,
    pub echo: String,
}

/// An inbound response frame.
pub struct Response {
    pub status: String,
    pub retcode: i32,
    pub data: Option<serde_json::Value>,
    pub message: Option<String>,
    pub echo: Option<String>,
}

/// The exact wire text of a request frame:
/// `{"action":A,"params":P,"echo":E}`.
pub open spec fn request_text(action: Seq<char>, params_text: Seq<char>, echo: Seq<char>) -> Seq<
    char,
> {
    obj_of_fields(
        fld_str("action"@, action) + fld("params"@, params_text) + fld_str("echo"@, echo),
    )
}

/// Encodes a request frame to its exact transmission text.
pub fn encode_request(req: Request) -> (s: String)
    ensures
        s@ == request_text(req.action@, json_text(req.params), req.echo@),
{
    let Request { action, params, echo } = req;
    let ghost ptext = json_text(params);
    let mut ps: Vec<(String, JsonValue)> = Vec::new();
    let g = push_field(&mut ps, "action", JsonValue::Str(action), Ghost(Seq::empty()));
    let g = push_field(&mut ps, "params", params, g);
    let g = push_field(&mut ps, "echo", JsonValue::Str(echo), g);
    let obj = obj_json(ps, g);
    crate::json::render(&obj)
}

/// Whether a model value is an integer representable as `i32`.
pub open spec fn m_is_i32(d: JsonData) -> bool {
    match m_as_i64(d) {
        Some(i) => i32::MIN <= i <= i32::MAX,
        None => false,
    }
}

/// Whether an optional field is, if present, a string or null.
pub open spec fn m_opt_str_field(d: JsonData, k: Seq<char>) -> bool {
    m_has_key(d, k) ==> (m_key(d, k) is Str || m_key(d, k) is Null)
}

/// The grammar of a response frame: a required string `status`, a
/// required integer `retcode` fitting `i32`, and optional `data`,
/// `message` and `echo`, the latter two strings when present.
pub open spec fn is_response_model(d: JsonData) -> bool {
    &&& d is Obj
    &&& m_has_key(d, "status"@) && m_key(d, "status"@) is Str
    &&& m_has_key(d, "retcode"@) && m_is_i32(m_key(d, "retcode"@))
    &&& m_opt_str_field(d, "message"@)
    &&& m_opt_str_field(d, "echo"@)
}

/// How a decoded response relates to the model of its frame: every field
/// is pinned by the frame.
pub open spec fn response_matches(d: JsonData, r: Response) -> bool {
    &&& m_key(d, "status"@) == JsonData::Str(r.status@)
    &&& m_as_i64(m_key(d, "retcode"@)) == Some(r.retcode as i64)
    &&& match r.data {
        Some(v) => m_has_key(d, "data"@) && !(m_key(d, "data"@) is Null) && value_model(v)
            == m_key(d, "data"@),
        None => !m_has_key(d, "data"@) || m_key(d, "data"@) is Null,
    }
    &&& match r.message {
        Some(s) => m_has_key(d, "message"@) && m_key(d, "message"@) == JsonData::Str(s@),
        None => !m_has_key(d, "message"@) || m_key(d, "message"@) is Null,
    }
    &&& match r.echo {
        Some(s) => m_has_key(d, "echo"@) && m_key(d, "echo"@) == JsonData::Str(s@),
        None => !m_has_key(d, "echo"@) || m_key(d, "echo"@) is Null,
    }
}

/// Decodes a response frame, failing exactly where the grammar fails.
pub fn decode_response(v: &serde_json::Value) -> (r: Option<Response>)
    ensures
        match r {
            Some(resp) => is_response_model(value_model(*v)) && response_matches(
                value_model(*v),
                resp,
            ),
            None => !is_response_model(value_model(*v)),
        },
{
    let status: String = match jv_get(v, "status") {
        Some(sv) => match jv_as_str(sv) {
            Some(s) => s.to_owned(),
            None => {
                return None;
            },
        },
        None => {
            return None;
        },
    };
    let retcode: i32 = match jv_get(v, "retcode") {
        Some(rv) => match jv_as_i64(rv) {
            Some(i) => {
                if i >= i32::MIN as i64 && i <= i32::MAX as i64 {
                    i as i32
                } else {
                    return None;
                }
            },
            None => {
                return None;
            },
        },
        None => {
            return None;
        },
    };
    let data: Option<serde_json::Value> = match jv_get(v, "data") {
        Some(dv) => {
            if jv_is_null(dv) {
                None
            } else {
                Some(jv_clone(dv))
            }
        },
        None => None,
    };
    let message: Option<String> = match jv_get(v, "message") {
        Some(mv) => {
            if jv_is_null(mv) {
                None
            } else {
                match jv_as_str(mv) {
                    Some(s) => Some(s.to_owned()),
                    None => {
                        return None;
                    },
                }
            }
        },
        None => None,
    };
    let echo: Option<String> = match jv_get(v, "echo") {
        Some(ev) => {
            if jv_is_null(ev) {
                None
            } else {
                match jv_as_str(ev) {
                    Some(s) => Some(s.to_owned()),
                    None => {
                        return None;
                    },
                }
            }
        },
        None => None,
    };
    Some(Response { status, retcode, data, message, echo })
}

impl Response {
    /// The integer held at `key` of the data payload, if any.
    pub fn data_i64(&self, key: &str) -> (r: Option<i64>)
        ensures
            match self.data {
                Some(v) => r == (if m_has_key(value_model(v), key@) {
                    m_as_i64(m_key(value_model(v), key@))
                } else {
                    None::<i64>
                }),
                None => r is None,
            },
    {
        match &self.data {
            Some(v) => match jv_get(v, key) {
                Some(u) => jv_as_i64(u),
                None => None,
            },
            None => None,
        }
    }

    /// The string held at `key` of the data payload, if any.
    pub fn data_str(&self, key: &str) -> (r: Option<String>)
        ensures
            match self.data {
                Some(v) => (match r {
                    Some(s) => m_has_key(value_model(v), key@) && m_key(value_model(v), key@)
                        == JsonData::Str(s@),
                    None => !(m_has_key(value_model(v), key@) && m_key(value_model(v), key@)
                        is Str),
                }),
                None => r is None,
            },
    {
        match &self.data {
            Some(v) => match jv_get(v, key) {
                Some(u) => match jv_as_str(u) {
                    Some(s) => Some(s.to_owned()),
                    None => None,
                },
                None => None,
            },
            None => None,
        }
    }
}

/// The synthetic response the sweeper delivers for an expired entry:
/// status `timeout`, return code `-1`, message `Request timeout`, echo the
/// entry's own token.
pub fn timeout_response(token: String) -> (r: Response)
    ensures
        r.status@ == "timeout"@,
        r.retcode == -1,
        r.data is None,
        r.message matches Some(m) && m@ == "Request timeout"@,
        r.echo matches Some(e) && e@ == token@,
{
    Response {
        status: String::from_str("timeout"),
        retcode: -1,
        data: None,
        message: Some(String::from_str("Request timeout")),
        echo: Some(token),
    }
}

} // verus!
