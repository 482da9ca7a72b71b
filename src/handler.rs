use vstd::prelude::*;
use crate::policy::AllowList;
use crate::request::{is_http_connect, read_http_request, request_of_bytes};
use crate::status::Status;

verus! {

/// Where a connection stands. Stages are never revisited.
#[derive(Debug, Clone, Copy, PartialEq, Eq, Structural)]
pub enum Stage {
    /// Accepted; the TLS handshake is under way.
    Handshaking,
    /// TLS is up; the request bytes are being read.
    AwaitingRequest,
    /// A 405 or 403 answer is being written.
    Rejecting,
    /// Authorized; the upstream connection is being opened.
    Connecting,
    /// Upstream is open; the 200 answer is being written.
    Confirming,
    /// Bytes are being copied both ways.
    Relaying,
    /// Terminal.
    Closed,
}

/// What the outside world reports back after an action.
#[derive(Debug)]
pub enum Event {
    /// The TLS session with the client is up.
    HandshakeSucceeded,
    /// Negotiation failed, the client hello was malformed, or the transport broke.
    HandshakeFailed,
    /// The bytes of the single read from the client.
    RequestRead(Vec<u8>),
    /// Reading from the client failed.
    ReadFailed,
    /// The plain connection to the target is open.
    UpstreamConnected,
    /// The target could not be resolved or reached.
    UpstreamFailed,
    /// The status response was written and flushed.
    ResponseWritten,
    /// Writing or flushing the status response failed.
    ResponseFailed,
    /// Either side of the relay ended or failed.
    RelayEnded,
}

/// What the proxy asks to be done next on the connection.
#[derive(Debug, PartialEq, Eq)]
pub enum Action {
    /// Read the request bytes from the client, once.
    ReadRequest,
    /// Open a plain connection to this authority.
    Connect(String),
    /// Write and flush this status response.
    Respond(Status),
    /// Copy bytes both ways until either side ends.
    Relay,
    /// Drop the connection.
    Close,
}

/// The authorization outcome of a client's request bytes.
#[derive(Debug, PartialEq, Eq)]
pub enum Decision {
    /// Not a request line: drop without an answer.
    Drop,
    /// Answer with this status and close.
    Reject(Status),
    /// Open a tunnel to this authority.
    Tunnel(String),
}

/// The position of a stage in the pipeline.
pub open spec fn rank(stage: Stage) -> int {
    match stage {
        Stage::Handshaking => 0,
        Stage::AwaitingRequest => 1,
        Stage::Rejecting => 2,
        Stage::Connecting => 2,
        Stage::Confirming => 3,
        Stage::Relaying => 4,
        Stage::Closed => 5,
    }
}

/// The decision for the bytes `b` under the allow-list `allowed`.
pub open spec fn decision_is(allowed: Seq<Seq<char>>, b: Seq<u8>, d: Decision) -> bool {
    match request_of_bytes(b) {
        Err(_) => d is Drop,
        Ok((m, t)) => if m != "CONNECT"@ {
            d == Decision::Reject(Status::MethodNotAllowed)
        } else if !allowed.contains(t) {
            d == Decision::Reject(Status::Forbidden)
        } else {
            d matches Decision::Tunnel(x) && x@ == t
        },
    }
}

/// Parses the request bytes and applies the method check, then the allow-list.
pub fn authorize(policy: &AllowList, request: &[u8]) -> (d: Decision)
    ensures
        decision_is(policy@, request@, d),
{
    match read_http_request(request) {
        Err(_) => Decision::Drop,
        Ok(req) => {
            if !is_http_connect(&req) {
                Decision::Reject(Status::MethodNotAllowed)
            } else if !policy.is_permitted(req.uri.as_str()) {
                Decision::Reject(Status::Forbidden)
            } else {
                Decision::Tunnel(req.uri)
            }
        },
    }
}

/// The stage and action that follow `event` in `stage`.
pub open spec fn step_is(
    allowed: Seq<Seq<char>>,
    stage: Stage,
    event: Event,
    next: Stage,
    action: Action,
) -> bool {
    match (stage, event) {
        (Stage::Handshaking, Event::HandshakeSucceeded) => next == Stage::AwaitingRequest && action
            is ReadRequest,
        (Stage::AwaitingRequest, Event::RequestRead(b)) => match request_of_bytes(b@) {
            Err(_) => next == Stage::Closed && action is Close,
            Ok((m, t)) => if m != "CONNECT"@ {
                next == Stage::Rejecting && action == Action::Respond(Status::MethodNotAllowed)
            } else if !allowed.contains(t) {
                next == Stage::Rejecting && action == Action::Respond(Status::Forbidden)
            } else {
                next == Stage::Connecting && (action matches Action::Connect(x) && x@ == t)
            },
        },
        (Stage::Connecting, Event::UpstreamConnected) => next == Stage::Confirming && action
            == Action::Respond(Status::TunnelOpen),
        (Stage::Confirming, Event::ResponseWritten) => next == Stage::Relaying && action is Relay,
        _ => next == Stage::Closed && action is Close,
    }
}

/// One connection's progress through the pipeline.
pub struct Connection {
    stage: Stage,
}

impl Connection {
    /// A freshly accepted connection, about to shake hands.
    pub fn new() -> (r: Connection)
        ensures
            r.spec_stage() == Stage::Handshaking,
    {
        Connection { stage: Stage::Handshaking }
    }

    pub closed spec fn spec_stage(&self) -> Stage {
        self.stage
    }

    /// The current stage.
    pub fn stage(&self) -> (r: Stage)
        ensures
            r == self.spec_stage(),
    {
        self.stage
    }

    /// Takes the outcome of the last action and says what to do next.
    pub fn handle(&mut self, policy: &AllowList, event: Event) -> (action: Action)
        ensures
            step_is(policy@, old(self).spec_stage(), event, final(self).spec_stage(), action),
    {
        let (next, action) = match (self.stage, event) {
            (Stage::Handshaking, Event::HandshakeSucceeded) => (
                Stage::AwaitingRequest,
                Action::ReadRequest,
            ),
            (Stage::AwaitingRequest, Event::RequestRead(bytes)) => match authorize(
                policy,
                bytes.as_slice(),
            ) {
                Decision::Drop => (Stage::Closed, Action::Close),
                Decision::Reject(status) => (Stage::Rejecting, Action::Respond(status)),
                Decision::Tunnel(target) => (Stage::Connecting, Action::Connect(target)),
            },
            (Stage::Connecting, Event::UpstreamConnected) => (
                Stage::Confirming,
                Action::Respond(Status::TunnelOpen),
            ),
            (Stage::Confirming, Event::ResponseWritten) => (Stage::Relaying, Action::Relay),
            _ => (Stage::Closed, Action::Close),
        };
        self.stage = next;
        action
    }
}

/// Two decisions on the same bytes under the same allow-list agree: the policy
/// keeps no state between requests.
pub proof fn lemma_decision_repeatable(allowed: Seq<Seq<char>>, b: Seq<u8>, d1: Decision, d2: Decision)
    requires
        decision_is(allowed, b, d1),
        decision_is(allowed, b, d2),
    ensures
        match (d1, d2) {
            (Decision::Drop, Decision::Drop) => true,
            (Decision::Reject(s1), Decision::Reject(s2)) => s1 == s2,
            (Decision::Tunnel(t1), Decision::Tunnel(t2)) => t1@ == t2@,
            _ => false,
        },
{
}

/// A failed handshake closes the connection and writes nothing to it.
pub proof fn lemma_failed_handshake_closes_silently(
    allowed: Seq<Seq<char>>,
    next: Stage,
    action: Action,
)
    requires
        step_is(allowed, Stage::Handshaking, Event::HandshakeFailed, next, action),
    ensures
        next == Stage::Closed,
        action is Close,
{
}

/// An upstream connection is asked for only right after a `CONNECT` request
/// whose target is on the allow-list, and only to that target.
pub proof fn lemma_connect_only_when_permitted(
    allowed: Seq<Seq<char>>,
    stage: Stage,
    event: Event,
    next: Stage,
    action: Action,
)
    requires
        step_is(allowed, stage, event, next, action),
        action is Connect,
    ensures
        stage == Stage::AwaitingRequest,
        event matches Event::RequestRead(b) && request_of_bytes(b@) matches Ok((m, t)) && m
            == "CONNECT"@ && allowed.contains(t) && action->Connect_0@ == t,
{
}

/// Every step moves a connection forward, so no stage is visited twice; only
/// a closed connection stays where it is.
pub proof fn lemma_stages_advance(
    allowed: Seq<Seq<char>>,
    stage: Stage,
    event: Event,
    next: Stage,
    action: Action,
)
    requires
        step_is(allowed, stage, event, next, action),
    ensures
        stage == Stage::Closed || rank(next) > rank(stage),
{
}

/// Once closed, a connection stays closed and asks for nothing but closing.
pub proof fn lemma_closed_is_final(allowed: Seq<Seq<char>>, event: Event, next: Stage, action: Action)
    requires
        step_is(allowed, Stage::Closed, event, next, action),
    ensures
        next == Stage::Closed,
        action is Close,
{
}

} // verus!
