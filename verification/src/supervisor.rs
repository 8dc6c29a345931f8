//! The session supervisor: it owns one physical connection at a time,
//! judges the handshake frame, and on any session outcome waits a fixed
//! delay and tries again, forever.

use crate::event_decode::m_req_i64_val;
use crate::frame::is_response_model;
use crate::jmodel::JsonData;
use crate::jmodel::m_as_i64;
use crate::jmodel::m_has_key;
use crate::jmodel::m_key;
use crate::jmodel::parse_text;
use crate::jmodel::parsed;
use crate::jmodel::jv_get;
use crate::jmodel::jv_as_i64;
use vstd::prelude::*;

verus! {

/// The fixed delay between connect attempts, in seconds.
pub const RECONNECT_DELAY_SECS: u64 = 3;

/// What the first frame of a connection decides.
pub enum HandshakeOutcome {
    /// The frame carried a correlation token and was a success response:
    /// the session runs.
    Accepted,
    /// The frame carried a correlation token but was no well-formed
    /// response: the attempt fails.
    RejectedBadResponse,
    /// The frame was a response with a non-success return code: the
    /// attempt fails.
    RejectedRetcode { retcode: i32 },
    /// The frame carried no token: an identity announcement; the session
    /// runs and the announced identity, if any, is logged.
    Identity { self_id: Option<i64> },
    /// The frame was not JSON: the attempt fails.
    NotJson,
}

/// The handshake decision over the model of the first frame: a frame
/// with any `echo` key must be a response whose return code is 200; any
/// other frame is an identity announcement.
pub open spec fn handshake_spec(p: Option<JsonData>, h: HandshakeOutcome) -> bool {
    match p {
        None => h == HandshakeOutcome::NotJson,
        Some(d) => {
            if m_has_key(d, "echo"@) {
                if !is_response_model(d) {
                    h == HandshakeOutcome::RejectedBadResponse
                } else if m_as_i64(m_key(d, "retcode"@)) == Some(200i64) {
                    h == HandshakeOutcome::Accepted
                } else {
                    h matches HandshakeOutcome::RejectedRetcode { retcode } && Some(
                        retcode as i64,
                    ) == m_as_i64(m_key(d, "retcode"@))
                }
            } else {
                h matches HandshakeOutcome::Identity { self_id } && self_id == m_req_i64_val(
                    d,
                    "self_id"@,
                )
            }
        },
    }
}

/// Judges the first frame of a fresh connection.
pub fn handshake(text: &str) -> (h: HandshakeOutcome)
    ensures
        handshake_spec(parsed(text@), h),
{
    let v = match parse_text(text) {
        Some(v) => v,
        None => {
            return HandshakeOutcome::NotJson;
        },
    };
    match jv_get(&v, "echo") {
        Some(_) => match crate::frame::decode_response(&v) {
            Some(resp) => {
                if resp.retcode == 200 {
                    HandshakeOutcome::Accepted
                } else {
                    HandshakeOutcome::RejectedRetcode { retcode: resp.retcode }
                }
            },
            None => HandshakeOutcome::RejectedBadResponse,
        },
        None => {
            let self_id = match jv_get(&v, "self_id") {
                Some(sv) => jv_as_i64(sv),
                None => None,
            };
            HandshakeOutcome::Identity { self_id }
        },
    }
}

/// The supervisor's whole state: how many sessions have ended so far.
pub struct Supervisor {
    pub retry: u64,
}

/// What the supervisor directs after any session outcome: sleep the
/// fixed delay, then attempt the next connection. There is no halting
/// directive.
pub open spec fn supervisor_step(retry: u64) -> (u64, u64) {
    (RECONNECT_DELAY_SECS, if retry == u64::MAX {
        retry
    } else {
        (retry + 1) as u64
    })
}

impl Supervisor {
    /// A fresh supervisor: no session has ended yet.
    pub fn new() -> (s: Supervisor)
        ensures
            s.retry == 0,
    {
        Supervisor { retry: 0 }
    }

    /// One session ended, well or badly: the supervisor directs the next
    /// attempt after the fixed delay and counts the retry.
    pub fn next_attempt(&mut self) -> (delay: u64)
        ensures
            (delay, final(self).retry) == supervisor_step(old(self).retry),
            delay == RECONNECT_DELAY_SECS,
    {
        if self.retry < u64::MAX {
            self.retry = self.retry + 1;
        }
        RECONNECT_DELAY_SECS
    }
}

/// Reconnection never gives up: after any number of consecutive
/// failures, the step is defined and directs one more attempt after the
/// fixed delay — there is no state in which the supervisor stops.
pub proof fn lemma_reconnect_forever(retry: u64)
    ensures
        supervisor_step(retry).0 == RECONNECT_DELAY_SECS,
        supervisor_step(retry).1 >= retry,
{
}

} // verus!
