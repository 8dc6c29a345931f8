//! The request/response multiplexer's core: one session's correlation
//! state, the routing of every inbound frame, and the expiry sweep.
//!
//! The outbound writer registers a pending entry before its frame is
//! transmitted; the inbound reader routes each frame to the waiting
//! caller, to the event dispatcher, or to a logged drop; the sweeper
//! fails entries that aged past the threshold with a synthetic timeout.

use crate::event_decode::decode_event;
use crate::event_decode::event_matches;
use crate::event_decode::is_event_model;
use crate::event_decode::m_req_str_val;
use crate::event_decode::req_str;
use crate::events::Event;
use crate::frame::Request;
use crate::frame::Response;
use crate::frame::decode_response;
use crate::frame::encode_request;
use crate::frame::is_response_model;
use crate::frame::request_text;
use crate::frame::response_matches;
use crate::frame::timeout_response;
use crate::jmodel::JsonData;
use crate::jmodel::parse_text;
use crate::jmodel::parsed;
use crate::jmodel::value_model;
use crate::json::json_text;
use crate::table::CorrelationTable;
use crate::table::expired_at;
use vstd::prelude::*;

verus! {

/// How long a pending entry may age before the sweeper fails it, in
/// seconds.
pub const EXPIRY_THRESHOLD_SECS: u64 = 120;

/// The sweeper's tick, in seconds.
pub const SWEEP_INTERVAL_SECS: u64 = 30;

/// What the inbound reader decides for one received frame.
pub enum InboundAction {
    /// A response matched a pending entry: deliver it to the caller at
    /// `slot`.
    Resolve { slot: u64, response: Response },
    /// A frame echoed a pending token but was no well-formed response:
    /// the entry is spent and its caller gets nothing.
    ResolveMalformed { slot: u64 },
    /// A response echoed a token with no matching entry: logged and
    /// dropped.
    UnknownToken { token: String },
    /// An uncorrelated frame decoded as an event: fan it out.
    Dispatch { event: Event },
    /// An uncorrelated frame that is no well-formed event: logged and
    /// dropped.
    UnknownEvent,
    /// Text that is not JSON at all: logged and dropped.
    Malformed,
}

/// The correlation token a frame echoes, when it echoes one as a string.
pub open spec fn frame_echo(d: JsonData) -> Option<Seq<char>> {
    m_req_str_val(d, "echo"@)
}

/// The complete routing relation of one inbound frame over the pending
/// map: every case of the inbound reader, and what it does to the table.
pub open spec fn route_spec(
    pre: Map<Seq<char>, (u64, u64)>,
    d: JsonData,
    post: Map<Seq<char>, (u64, u64)>,
    r: InboundAction,
) -> bool {
    match frame_echo(d) {
        Some(tok) => {
            if pre.contains_key(tok) {
                &&& post == pre.remove(tok)
                &&& if is_response_model(d) {
                    r matches InboundAction::Resolve { slot, response } && slot == pre[tok].0
                        && response_matches(d, response)
                } else {
                    r matches InboundAction::ResolveMalformed { slot } && slot == pre[tok].0
                }
            } else {
                &&& post == pre
                &&& r matches InboundAction::UnknownToken { token } && token@ == tok
            }
        },
        None => {
            &&& post == pre
            &&& if is_event_model(d) {
                r matches InboundAction::Dispatch { event } && event_matches(d, event)
            } else {
                r == InboundAction::UnknownEvent
            }
        },
    }
}

/// The routing relation lifted to raw frame text: malformed text routes
/// to a drop and changes nothing.
pub open spec fn text_route_spec(
    pre: Map<Seq<char>, (u64, u64)>,
    s: Seq<char>,
    post: Map<Seq<char>, (u64, u64)>,
    r: InboundAction,
) -> bool {
    match parsed(s) {
        Some(d) => route_spec(pre, d, post, r),
        None => post == pre && r == InboundAction::Malformed,
    }
}

/// One session's correlation state.
pub struct Session {
    table: CorrelationTable,
}

impl Session {
    /// The pending map: token to (completion slot, created-at).
    pub closed spec fn pending(self) -> Map<Seq<char>, (u64, u64)> {
        self.table.view_map()
    }

    /// The session invariant: at most one entry per token.
    pub closed spec fn inv(self) -> bool {
        self.table.wf()
    }

    /// A fresh session: its table is empty. Entries of a prior session
    /// are discarded with it, never carried over.
    pub fn new() -> (s: Session)
        ensures
            s.inv(),
            s.pending() == Map::<Seq<char>, (u64, u64)>::empty(),
    {
        Session { table: CorrelationTable::new() }
    }

    /// Accepts one outbound request: registers its token for the caller
    /// at `slot`, then yields the exact frame text to transmit. The
    /// entry is in the table before the frame exists, so the response
    /// can never outrun the registration.
    pub fn submit(&mut self, req: Request, slot: u64, now: u64) -> (text: String)
        requires
            old(self).inv(),
        ensures
            final(self).inv(),
            final(self).pending() == old(self).pending().insert(req.echo@, (slot, now)),
            text@ == request_text(req.action@, json_text(req.params), req.echo@),
    {
        let token = req.echo.clone();
        self.table.register(token, slot, now);
        encode_request(req)
    }

    /// Routes one parsed inbound frame.
    pub fn on_frame(&mut self, v: &serde_json::Value) -> (r: InboundAction)
        requires
            old(self).inv(),
        ensures
            final(self).inv(),
            route_spec(old(self).pending(), value_model(*v), final(self).pending(), r),
    {
        match req_str(v, "echo") {
            Some(token) => match self.table.resolve(&token) {
                Some(entry) => match decode_response(v) {
                    Some(response) => InboundAction::Resolve { slot: entry.slot, response },
                    None => InboundAction::ResolveMalformed { slot: entry.slot },
                },
                None => InboundAction::UnknownToken { token },
            },
            None => match decode_event(v) {
                Some(event) => InboundAction::Dispatch { event },
                None => InboundAction::UnknownEvent,
            },
        }
    }

    /// Routes one received text frame: parse, then route; text that is
    /// not JSON is dropped with the session state untouched.
    pub fn on_text(&mut self, text: &str) -> (r: InboundAction)
        requires
            old(self).inv(),
        ensures
            final(self).inv(),
            text_route_spec(old(self).pending(), text@, final(self).pending(), r),
    {
        match parse_text(text) {
            Some(v) => self.on_frame(&v),
            None => InboundAction::Malformed,
        }
    }

    /// One sweeper tick: every entry older than the threshold is removed
    /// and its caller is handed exactly one synthetic timeout response,
    /// echoing the entry's own token.
    pub fn sweep(&mut self, now: u64) -> (r: Vec<(u64, Response)>)
        requires
            old(self).inv(),
        ensures
            final(self).inv(),
            final(self).pending() == old(self).pending().restrict(
                Set::new(
                    |k: Seq<char>|
                        old(self).pending().contains_key(k) && !expired_at(
                            old(self).pending()[k].1,
                            now,
                            EXPIRY_THRESHOLD_SECS,
                        ),
                ),
            ),
            forall|i: int|
                0 <= i < r@.len() ==> {
                    let (slot, resp) = #[trigger] r@[i];
                    &&& resp.status@ == "timeout"@
                    &&& resp.retcode == -1
                    &&& resp.data is None
                    &&& resp.message matches Some(m) && m@ == "Request timeout"@
                    &&& resp.echo matches Some(tok) && old(self).pending().contains_key(tok@)
                        && old(self).pending()[tok@].0 == slot && expired_at(
                        old(self).pending()[tok@].1,
                        now,
                        EXPIRY_THRESHOLD_SECS,
                    )
                },
            forall|k: Seq<char>|
                old(self).pending().contains_key(k) && expired_at(
                    old(self).pending()[k].1,
                    now,
                    EXPIRY_THRESHOLD_SECS,
                ) ==> exists|i: int|
                    0 <= i < r@.len() && ((#[trigger] r@[i].1).echo matches Some(tok) && tok@
                        == k),
            forall|i: int, j: int|
                0 <= i < r@.len() && 0 <= j < r@.len() && i != j
                    ==> match ((#[trigger] r@[i].1).echo, (#[trigger] r@[j].1).echo) {
                    (Some(a), Some(b)) => a@ != b@,
                    _ => false,
                },
    {
        let expired = self.table.sweep(now, EXPIRY_THRESHOLD_SECS);
        let mut r: Vec<(u64, Response)> = Vec::new();
        let n = expired.len();
        let mut i: usize = 0;
        while i < n
            invariant
                n == expired@.len(),
                i <= n,
                r@.len() == i,
                forall|a: int|
                    0 <= a < n ==> #[trigger] old(self).pending().contains_key(
                        expired@[a].token@,
                    ) && (expired@[a].slot, expired@[a].created_at) == old(self).pending()[
                        expired@[a].token@] && expired_at(
                        expired@[a].created_at,
                        now,
                        EXPIRY_THRESHOLD_SECS,
                    ),
                forall|a: int, b: int|
                    0 <= a < n && 0 <= b < n && a != b ==> expired@[a].token@ != expired@[b].token@,
                forall|a: int|
                    0 <= a < i ==> {
                        let (slot, resp) = #[trigger] r@[a];
                        &&& resp.status@ == "timeout"@
                        &&& resp.retcode == -1
                        &&& resp.data is None
                        &&& resp.message matches Some(m) && m@ == "Request timeout"@
                        &&& resp.echo matches Some(tok) && tok@ == expired@[a].token@ && slot
                            == expired@[a].slot
                    },
            decreases n - i,
        {
            let e = &expired[i];
            let resp = timeout_response(e.token.clone());
            r.push((e.slot, resp));
            i = i + 1;
        }
        proof {
            assert forall|k: Seq<char>|
                old(self).pending().contains_key(k) && expired_at(
                    old(self).pending()[k].1,
                    now,
                    EXPIRY_THRESHOLD_SECS,
                ) implies exists|a: int|
                0 <= a < r@.len() && ((#[trigger] r@[a].1).echo matches Some(tok) && tok@
                    == k) by {
                let a = choose|a: int| 0 <= a < n && #[trigger] expired@[a].token@ == k;
                assert((r@[a].1).echo matches Some(tok) && tok@ == k);
            }
        }
        r
    }
}

/// For any correlation token registered and later matched by a response,
/// the waiting caller receives that response exactly once, and the table
/// no longer holds the token: a second frame echoing the same token is
/// dropped as unknown.
pub proof fn lemma_correlation_exactly_once(
    pre: Map<Seq<char>, (u64, u64)>,
    tok: Seq<char>,
    slot: u64,
    now: u64,
    d: JsonData,
    post: Map<Seq<char>, (u64, u64)>,
    r: InboundAction,
    d2: JsonData,
    post2: Map<Seq<char>, (u64, u64)>,
    r2: InboundAction,
)
    requires
        frame_echo(d) == Some(tok),
        is_response_model(d),
        route_spec(pre.insert(tok, (slot, now)), d, post, r),
        frame_echo(d2) == Some(tok),
        route_spec(post, d2, post2, r2),
    ensures
        r matches InboundAction::Resolve { slot: s, response } && s == slot && response_matches(
            d,
            response,
        ),
        !post.contains_key(tok),
        r2 matches InboundAction::UnknownToken { token } && token@ == tok,
        post2 == post,
{
    let reg = pre.insert(tok, (slot, now));
    assert(reg.contains_key(tok));
    assert(reg[tok] == (slot, now));
}

/// A response bearing a token with no matching entry is discarded: the
/// table is untouched, and any later frame routes exactly as it would
/// have from the same state.
pub proof fn lemma_unknown_token_inert(
    pre: Map<Seq<char>, (u64, u64)>,
    d: JsonData,
    post: Map<Seq<char>, (u64, u64)>,
    r: InboundAction,
    d2: JsonData,
    post2: Map<Seq<char>, (u64, u64)>,
    r2: InboundAction,
)
    requires
        frame_echo(d) matches Some(tok) && !pre.contains_key(tok),
        route_spec(pre, d, post, r),
        route_spec(post, d2, post2, r2),
    ensures
        post == pre,
        r matches InboundAction::UnknownToken { token } && frame_echo(d) == Some(token@),
        route_spec(pre, d2, post2, r2),
{
}

/// A malformed inbound frame is dropped without ending the session: the
/// table is untouched, and the very next frame routes exactly as it
/// would have without the malformed one.
pub proof fn lemma_malformed_inert(
    pre: Map<Seq<char>, (u64, u64)>,
    s: Seq<char>,
    post: Map<Seq<char>, (u64, u64)>,
    r: InboundAction,
    s2: Seq<char>,
    post2: Map<Seq<char>, (u64, u64)>,
    r2: InboundAction,
)
    requires
        parsed(s) is None,
        text_route_spec(pre, s, post, r),
        text_route_spec(post, s2, post2, r2),
    ensures
        post == pre,
        r == InboundAction::Malformed,
        text_route_spec(pre, s2, post2, r2),
{
}

} // verus!
