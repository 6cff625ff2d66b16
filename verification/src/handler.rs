//! The per-connection state machine.
//!
//! One inbound connection is driven by one handler. The handler decodes a
//! sequence of requests (keep-alive), forwards each to the upstream, and
//! writes each response back before the next request is taken up. Every
//! failure is scoped to the connection it arose on: a decode failure, an
//! invalid target URL, or an upstream failure closes that one connection
//! and touches no other.

use vstd::prelude::*;

use crate::forward::build_outbound_request;
use crate::forward::relay_response;
use crate::msg::HttpResponse;
use crate::msg::InboundRequest;
use crate::msg::OutboundModel;
use crate::msg::OutboundRequest;
use crate::msg::ProxyError;
use crate::msg::ResponseModel;
use crate::target::uri_ok;

verus! {

/// Where one inbound connection stands.
#[derive(Clone, Copy, PartialEq, Eq, Structural, Debug)]
pub enum ConnPhase {
    /// Waiting for the next request on the connection.
    AwaitRequest,
    /// A request was forwarded; waiting for the upstream's response.
    AwaitUpstream,
    /// The connection is closed; it accepts nothing further.
    Closed,
}

/// What the connection observes next.
pub enum ConnEvent {
    /// A complete request was decoded on the connection.
    Inbound(InboundRequest),
    /// The inbound bytes could not be decoded as a request.
    DecodeFailed,
    /// The upstream returned a complete response.
    Upstream(HttpResponse),
    /// The upstream leg failed: connect error, timeout, I/O error, or a
    /// malformed response.
    UpstreamFailed,
}

/// What the connection does in reaction.
pub enum ConnAction {
    /// Send this request on the outbound leg.
    SendUpstream(OutboundRequest),
    /// Write this response back to the client, completing one cycle.
    WriteResponse(HttpResponse),
    /// Close the inbound connection; the error says why. No structured
    /// error response is synthesized: the client sees the connection end.
    Close(ProxyError),
}

/// Mathematical image of an action.
pub ghost enum ActionModel {
    SendUpstream(OutboundModel),
    WriteResponse(ResponseModel),
    Close(ProxyError),
}

impl View for ConnAction {
    type V = ActionModel;

    open spec fn view(&self) -> ActionModel {
        match self {
            ConnAction::SendUpstream(o) => ActionModel::SendUpstream(o@),
            ConnAction::WriteResponse(c) => ActionModel::WriteResponse(c@),
            ConnAction::Close(e) => ActionModel::Close(*e),
        }
    }
}

/// Which events a phase accepts: requests only while waiting for a
/// request, upstream outcomes only while one request is in flight, and
/// nothing once closed.
pub open spec fn accepts(phase: ConnPhase, event: ConnEvent) -> bool {
    match event {
        ConnEvent::Inbound(_) => phase is AwaitRequest,
        ConnEvent::DecodeFailed => phase is AwaitRequest,
        ConnEvent::Upstream(_) => phase is AwaitUpstream,
        ConnEvent::UpstreamFailed => phase is AwaitUpstream,
    }
}

/// The phase after one accepted event.
pub open spec fn phase_after(phase: ConnPhase, event: ConnEvent, base: Seq<u8>) -> ConnPhase {
    match event {
        ConnEvent::Inbound(req) => if uri_ok(base + req@.path_query) {
            ConnPhase::AwaitUpstream
        } else {
            ConnPhase::Closed
        },
        ConnEvent::DecodeFailed => ConnPhase::Closed,
        ConnEvent::Upstream(_) => ConnPhase::AwaitRequest,
        ConnEvent::UpstreamFailed => ConnPhase::Closed,
    }
}

/// What one accepted event makes the connection do: a valid request is
/// forwarded with method, headers, and body kept and the authority
/// rewritten to the upstream base; an upstream response is written back
/// verbatim; every failure closes the connection.
pub open spec fn action_after(phase: ConnPhase, event: ConnEvent, base: Seq<u8>) -> ActionModel {
    match event {
        ConnEvent::Inbound(req) => if uri_ok(base + req@.path_query) {
            ActionModel::SendUpstream(
                OutboundModel {
                    method: req@.method,
                    uri: base + req@.path_query,
                    headers: req@.headers,
                    body: req@.body,
                },
            )
        } else {
            ActionModel::Close(ProxyError::InvalidTargetUrl)
        },
        ConnEvent::DecodeFailed => ActionModel::Close(ProxyError::RequestDecode),
        ConnEvent::Upstream(resp) => ActionModel::WriteResponse(resp@),
        ConnEvent::UpstreamFailed => ActionModel::Close(ProxyError::UpstreamFailed),
    }
}

/// Drives one inbound connection one step: reacts to the event and moves
/// to the next phase.
pub fn handle_event(phase: ConnPhase, event: ConnEvent, base: &Vec<u8>) -> (r: (
    ConnPhase,
    ConnAction,
))
    requires
        accepts(phase, event),
    ensures
        r.0 == phase_after(phase, event, base@),
        r.1@ == action_after(phase, event, base@),
{
    match event {
        ConnEvent::Inbound(req) => {
            match build_outbound_request(req, base) {
                Ok(o) => (ConnPhase::AwaitUpstream, ConnAction::SendUpstream(o)),
                Err(e) => (ConnPhase::Closed, ConnAction::Close(e)),
            }
        },
        ConnEvent::DecodeFailed => (
            ConnPhase::Closed,
            ConnAction::Close(ProxyError::RequestDecode),
        ),
        ConnEvent::Upstream(resp) => (
            ConnPhase::AwaitRequest,
            ConnAction::WriteResponse(relay_response(resp)),
        ),
        ConnEvent::UpstreamFailed => (
            ConnPhase::Closed,
            ConnAction::Close(ProxyError::UpstreamFailed),
        ),
    }
}

/// Transparency: for an inbound request whose target URL is valid, the
/// request sent upstream keeps its method, headers, and body exactly,
/// with the authority rewritten to the upstream base; and when the
/// upstream answers, the response written back to the client equals the
/// upstream response exactly — status, headers, and body.
pub proof fn lemma_transparency(req: InboundRequest, resp: HttpResponse, base: Seq<u8>)
    ensures
        uri_ok(base + req@.path_query) ==> phase_after(
            ConnPhase::AwaitRequest,
            ConnEvent::Inbound(req),
            base,
        ) is AwaitUpstream,
        uri_ok(base + req@.path_query) ==> ({
            let a = action_after(ConnPhase::AwaitRequest, ConnEvent::Inbound(req), base);
            &&& a matches ActionModel::SendUpstream(o)
            &&& o.method == req@.method
            &&& o.headers == req@.headers
            &&& o.body == req@.body
            &&& o.uri == base + req@.path_query
        }),
        phase_after(ConnPhase::AwaitUpstream, ConnEvent::Upstream(resp), base)
            is AwaitRequest,
        action_after(ConnPhase::AwaitUpstream, ConnEvent::Upstream(resp), base)
            == ActionModel::WriteResponse(resp@),
{
}

/// Whether every event of `events` is accepted in the phase it meets,
/// starting from `phase`.
pub open spec fn valid_trace(phase: ConnPhase, events: Seq<ConnEvent>, base: Seq<u8>) -> bool
    decreases events.len(),
{
    events.len() > 0 ==> accepts(phase, events[0]) && valid_trace(
        phase_after(phase, events[0], base),
        events.drop_first(),
        base,
    )
}

/// The phase the connection is in just before processing `events[i]`.
pub open spec fn phase_at(phase: ConnPhase, events: Seq<ConnEvent>, base: Seq<u8>, i: int) -> ConnPhase
    decreases i,
{
    if i <= 0 {
        phase
    } else {
        phase_at(phase_after(phase, events[0], base), events.drop_first(), base, i - 1)
    }
}

/// In a valid trace, each event is accepted in the phase it meets.
proof fn lemma_trace_accepts(phase: ConnPhase, events: Seq<ConnEvent>, base: Seq<u8>, i: int)
    requires
        valid_trace(phase, events, base),
        0 <= i < events.len(),
    ensures
        accepts(phase_at(phase, events, base, i), events[i]),
    decreases i,
{
    if i > 0 {
        lemma_trace_accepts(phase_after(phase, events[0], base), events.drop_first(), base, i - 1);
        assert(events.drop_first()[i - 1] == events[i]);
    }
}

/// The phase before `events[i + 1]` is the phase before `events[i]`
/// stepped by `events[i]`.
proof fn lemma_phase_at_step(phase: ConnPhase, events: Seq<ConnEvent>, base: Seq<u8>, i: int)
    requires
        0 <= i < events.len(),
    ensures
        phase_at(phase, events, base, i + 1) == phase_after(
            phase_at(phase, events, base, i),
            events[i],
            base,
        ),
    decreases i,
{
    let p1 = phase_after(phase, events[0], base);
    let rest = events.drop_first();
    if i == 0 {
        assert(phase_at(phase, events, base, 1) == phase_at(p1, rest, base, 0));
        assert(phase_at(p1, rest, base, 0) == p1);
        assert(phase_at(phase, events, base, 0) == phase);
    } else {
        lemma_phase_at_step(p1, rest, base, i - 1);
        assert(rest[i - 1] == events[i]);
        assert(phase_at(phase, events, base, i + 1) == phase_at(p1, rest, base, i));
        assert(phase_at(phase, events, base, i) == phase_at(p1, rest, base, i - 1));
    }
}

/// A closed connection stays closed: no later phase of a valid trace
/// leaves `Closed`.
proof fn lemma_closed_stays(phase: ConnPhase, events: Seq<ConnEvent>, base: Seq<u8>, s: int, t: int)
    requires
        valid_trace(phase, events, base),
        0 <= s <= t < events.len(),
        phase_at(phase, events, base, s) is Closed,
    ensures
        phase_at(phase, events, base, t) is Closed,
{
    lemma_trace_accepts(phase, events, base, s);
}

/// Ordering: on one keep-alive connection, two requests accepted at
/// positions `i < j` of a valid trace have an upstream response strictly
/// between them — and that response's action writes the earlier request's
/// response back in full. So the response to the first request is written
/// before the second request is taken up.
pub proof fn lemma_response_precedes_next_request(
    phase: ConnPhase,
    events: Seq<ConnEvent>,
    base: Seq<u8>,
    i: int,
    j: int,
)
    requires
        valid_trace(phase, events, base),
        0 <= i < j < events.len(),
        events[i] is Inbound,
        events[j] is Inbound,
    ensures
        exists|k: int|
            i < k < j && events[k] is Upstream && action_after(
                phase_at(phase, events, base, k),
                events[k],
                base,
            ) is WriteResponse,
{
    lemma_trace_accepts(phase, events, base, i);
    lemma_trace_accepts(phase, events, base, j);
    lemma_phase_at_step(phase, events, base, i);
    let after_i = phase_at(phase, events, base, i + 1);
    if after_i is Closed {
        lemma_closed_stays(phase, events, base, i + 1, j);
    } else {
        assert(after_i is AwaitUpstream);
        lemma_trace_accepts(phase, events, base, i + 1);
        let e = events[i + 1];
        if e is Upstream {
            assert(i < i + 1 < j && events[i + 1] is Upstream && action_after(
                phase_at(phase, events, base, i + 1),
                events[i + 1],
                base,
            ) is WriteResponse);
        } else {
            assert(e is UpstreamFailed);
            lemma_phase_at_step(phase, events, base, i + 1);
            assert(phase_at(phase, events, base, i + 2) is Closed);
            if i + 2 <= j {
                lemma_closed_stays(phase, events, base, i + 2, j);
            }
        }
    }
}

/// The inbound connections of the system, each with its own phase. The
/// handlers share nothing but the outbound pool, which keeps no
/// per-connection state.
pub ghost struct SystemModel {
    pub conns: Seq<ConnPhase>,
}

/// One system step: connection `c` processes one event; every other
/// connection is untouched.
pub open spec fn system_step(
    s: SystemModel,
    c: int,
    event: ConnEvent,
    base: Seq<u8>,
) -> SystemModel {
    SystemModel { conns: s.conns.update(c, phase_after(s.conns[c], event, base)) }
}

/// Isolation under failure: whatever happens on one connection — an
/// upstream failure included — every other connection's phase is exactly
/// what it was, so its own exchanges complete unaffected.
pub proof fn lemma_failure_isolated(
    s: SystemModel,
    c: int,
    event: ConnEvent,
    base: Seq<u8>,
    other: int,
)
    requires
        0 <= c < s.conns.len(),
        0 <= other < s.conns.len(),
        other != c,
    ensures
        system_step(s, c, event, base).conns[other] == s.conns[other],
        system_step(s, c, event, base).conns.len() == s.conns.len(),
{
}

} // verus!
