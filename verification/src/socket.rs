//! The decisions of the websocket connection: what the connection loop does
//! with each event, which incoming message answers a request, and what is
//! forwarded to subscribers. The loops that wait on the network run these
//! steps.
use vstd::prelude::*;
use crate::error::XrplSocketError;
use crate::json::{json_eq, json_same, parse_json, serde_json_reads, JsonValue, JsonView};
use crate::request::XrplRequest;

verus! {

broadcast use vstd::string::group_string_axioms;

/// How often the connection pings the server, in milliseconds.
pub const PING_INTERVAL_MS: u64 = 30000;

/// How long the connection waits for any message before it gives up, in
/// milliseconds.
pub const WEBSOCKET_RECEIVE_TIMEOUT_MS: u64 = 40000;

/// How long a request waits for its answer when no timeout is set, in
/// milliseconds.
pub const DEFAULT_REQUEST_TIMEOUT_MS: i64 = 5000;

/// What the connection loop has seen.
pub enum ConnectionEvent {
    /// A text message from the server.
    Text(String),
    /// A ping from the server, with its payload.
    Ping(Vec<u8>),
    /// A pong from the server.
    Pong,
    /// The server closed the connection.
    Closed,
    /// The stream failed.
    StreamError,
    /// The stream ended, or carried a message of another kind.
    StreamEnded,
    /// A request to send to the server.
    Outgoing(String),
    /// Every sender of requests is gone.
    OutgoingClosed,
    /// The ping interval elapsed.
    PingTick,
    /// The periodic check of the receive timeout.
    TimeoutCheck,
    /// The connection was cancelled.
    Cancelled,
    /// Sending the last message to the server failed.
    SendFailed,
}

/// What the connection loop does next.
pub enum ConnectionAction {
    /// Hand a message from the server to every listener.
    Broadcast(String),
    /// Answer a ping with a pong carrying the same payload.
    SendPong(Vec<u8>),
    /// Send a request to the server.
    SendText(String),
    /// Ping the server.
    SendPing,
    /// Wait for the next event.
    Continue,
    /// Leave the loop with this outcome.
    Stop(Result<(), XrplSocketError>),
}

/// The state of the connection loop: when the server was last heard from,
/// in milliseconds on the loop's clock.
pub struct ConnectionState {
    pub last_receive_ms: u64,
}

/// The server has been silent for longer than the receive timeout.
pub open spec fn receive_timed_out(last_receive_ms: u64, now_ms: u64) -> bool {
    now_ms > last_receive_ms && now_ms - last_receive_ms > WEBSOCKET_RECEIVE_TIMEOUT_MS
}

/// The loop stops with `Disconnected`.
pub open spec fn stops_disconnected(a: ConnectionAction) -> bool {
    a matches ConnectionAction::Stop(Err(XrplSocketError::Disconnected))
}

impl ConnectionState {
    /// The state of a connection that has just been opened at `now_ms`.
    pub fn new(now_ms: u64) -> (r: ConnectionState)
        ensures
            r.last_receive_ms == now_ms,
    {
        ConnectionState { last_receive_ms: now_ms }
    }

    /// One step of the connection loop: every message from the server (text,
    /// ping or pong) counts as a sign of life; text is handed on, pings are
    /// answered; a close, a stream error, the stream's end or a failed send
    /// ends the loop with `Disconnected`, as does a silence longer than the
    /// receive timeout; when the senders of requests are gone or the
    /// connection is cancelled the loop ends without error.
    pub fn step(&mut self, event: ConnectionEvent, now_ms: u64) -> (r: ConnectionAction)
        ensures
            match event {
                ConnectionEvent::Text(m) => r == ConnectionAction::Broadcast(m) && final(self).last_receive_ms
                    == now_ms,
                ConnectionEvent::Ping(d) => r == ConnectionAction::SendPong(d) && final(self).last_receive_ms
                    == now_ms,
                ConnectionEvent::Pong => r is Continue && final(self).last_receive_ms == now_ms,
                ConnectionEvent::Closed | ConnectionEvent::StreamError | ConnectionEvent::StreamEnded
                | ConnectionEvent::SendFailed => stops_disconnected(r) && final(self).last_receive_ms
                    == old(self).last_receive_ms,
                ConnectionEvent::Outgoing(m) => r == ConnectionAction::SendText(m) && final(self).last_receive_ms
                    == old(self).last_receive_ms,
                ConnectionEvent::OutgoingClosed | ConnectionEvent::Cancelled => r matches ConnectionAction::Stop(Ok(()))
                    && final(self).last_receive_ms == old(self).last_receive_ms,
                ConnectionEvent::PingTick => r is SendPing && final(self).last_receive_ms
                    == old(self).last_receive_ms,
                ConnectionEvent::TimeoutCheck => (if receive_timed_out(old(self).last_receive_ms, now_ms) {
                    stops_disconnected(r)
                } else {
                    r is Continue
                }) && final(self).last_receive_ms == old(self).last_receive_ms,
            },
    {
        match event {
            ConnectionEvent::Text(m) => {
                self.last_receive_ms = now_ms;
                ConnectionAction::Broadcast(m)
            },
            ConnectionEvent::Ping(d) => {
                self.last_receive_ms = now_ms;
                ConnectionAction::SendPong(d)
            },
            ConnectionEvent::Pong => {
                self.last_receive_ms = now_ms;
                ConnectionAction::Continue
            },
            ConnectionEvent::Closed => ConnectionAction::Stop(Err(XrplSocketError::Disconnected)),
            ConnectionEvent::StreamError => ConnectionAction::Stop(Err(XrplSocketError::Disconnected)),
            ConnectionEvent::StreamEnded => ConnectionAction::Stop(Err(XrplSocketError::Disconnected)),
            ConnectionEvent::SendFailed => ConnectionAction::Stop(Err(XrplSocketError::Disconnected)),
            ConnectionEvent::Outgoing(m) => ConnectionAction::SendText(m),
            ConnectionEvent::OutgoingClosed => ConnectionAction::Stop(Ok(())),
            ConnectionEvent::Cancelled => ConnectionAction::Stop(Ok(())),
            ConnectionEvent::PingTick => ConnectionAction::SendPing,
            ConnectionEvent::TimeoutCheck => {
                if now_ms > self.last_receive_ms && now_ms - self.last_receive_ms > WEBSOCKET_RECEIVE_TIMEOUT_MS {
                    ConnectionAction::Stop(Err(XrplSocketError::Disconnected))
                } else {
                    ConnectionAction::Continue
                }
            },
        }
    }
}

/// A connection that heard from the server at `heard_ms` is not given up at
/// any check up to the receive timeout later.
pub proof fn lemma_recent_message_keeps_connection(heard_ms: u64, check_ms: u64)
    requires
        check_ms <= heard_ms + WEBSOCKET_RECEIVE_TIMEOUT_MS,
    ensures
        !receive_timed_out(heard_ms, check_ms),
{
}

/// A connection that has not heard from the server for longer than the
/// receive timeout is given up at the next check.
pub proof fn lemma_silence_ends_connection(heard_ms: u64, check_ms: u64)
    requires
        check_ms > heard_ms + WEBSOCKET_RECEIVE_TIMEOUT_MS,
    ensures
        receive_timed_out(heard_ms, check_ms),
{
}

/// A socket that has been closed refuses new requests and subscriptions.
pub fn ensure_connected(cancelled: bool) -> (r: Result<(), XrplSocketError>)
    ensures
        cancelled ==> r matches Err(XrplSocketError::Disconnected),
        !cancelled ==> r is Ok,
{
    if cancelled {
        Err(XrplSocketError::Disconnected)
    } else {
        Ok(())
    }
}

/// The id of a request about to be sent: the request must be an object with
/// a member `id`.
pub fn request_id(request: &JsonValue) -> (r: Result<JsonValue, XrplSocketError>)
    ensures
        match request@ {
            JsonView::Object(_) => match request@.get("id"@) {
                Some(id) => r is Ok && r->Ok_0@ == id,
                None => r matches Err(XrplSocketError::InvalidRequest { field }) && field@ == "id"@,
            },
            _ => r matches Err(XrplSocketError::InvalidRequest { field }) && field@
                == "request must be an object"@,
        },
{
    match request {
        JsonValue::Object(_) => match request.get("id") {
            Some(id) => Ok(id.clone()),
            None => Err(XrplSocketError::InvalidRequest { field: "id".to_string() }),
        },
        _ => Err(XrplSocketError::InvalidRequest { field: "request must be an object".to_string() }),
    }
}

/// How long a request waits for its answer: the socket's timeout, else
/// five seconds, read as an unsigned number of milliseconds (a negative
/// timeout wraps around, as `as u64` does).
pub fn request_timeout_ms(timeout_dur: Option<i64>) -> (r: u64)
    ensures
        r == (match timeout_dur {
            Some(t) => t,
            None => DEFAULT_REQUEST_TIMEOUT_MS,
        }) as u64,
{
    let t = match timeout_dur {
        Some(t) => t,
        None => DEFAULT_REQUEST_TIMEOUT_MS,
    };
    t as u64
}

/// `response` answers the request whose id is `req_id`: it is an object
/// with an `id` that `req_id` equals as serde_json's `==` compares them.
pub open spec fn answers(req_id: JsonView, response: JsonView) -> bool {
    &&& response is Object
    &&& match response.get("id"@) {
        Some(id) => json_same(req_id, id),
        None => false,
    }
}

/// A message answers a request exactly when it is an object with an `id`
/// that the request's id equals, whatever other members (an `error` among
/// them) it carries.
pub proof fn lemma_answers_exactly(req_id: JsonView, message: JsonView)
    ensures
        answers(req_id, message) <==> (message is Object && message.get("id"@) is Some && json_same(
            req_id,
            message.get("id"@)->0,
        )),
{
}

/// A message that answers the id read from a request as sent carries the
/// id the request was sent with: the socket hands each request the answer
/// that is meant for it.
pub proof fn lemma_answer_carries_request_id<R: XrplRequest>(req: &R, fresh_id: Seq<char>, message: JsonView)
    requires
        answers(req.request_view(fresh_id).get("id"@)->0, message),
    ensures
        message.get("id"@) == Some(JsonView::Str(req.id_sent(fresh_id))),
{
    req.lemma_request_carries_id(fresh_id);
}

/// What the loop waiting for an answer has seen.
pub enum ResponseEvent {
    /// A text message from the server.
    Message(String),
    /// Some messages were missed.
    Lagged,
    /// No more messages will come.
    ChannelClosed,
}

/// What the loop waiting for an answer does next.
pub enum ResponseDecision {
    /// The message, read as this JSON value, is the answer: hand it over and
    /// stop.
    Deliver(JsonValue),
    /// Not the answer: wait for the next message.
    Skip,
    /// Stop waiting.
    Stop,
}

/// What to do with a message from the server, given what `parsed` holds of
/// it as JSON (`None` when it is not JSON): deliver it when it answers the
/// request whose id is `req_id`, else skip it.
pub fn answer_decision(req_id: &JsonValue, parsed: Option<JsonValue>) -> (r: ResponseDecision)
    ensures
        match parsed {
            Some(m) => if answers(req_id@, m@) {
                r matches ResponseDecision::Deliver(d) && d@ == m@
            } else {
                r is Skip
            },
            None => r is Skip,
        },
{
    match parsed {
        Some(m) => {
            let is_answer = match &m {
                JsonValue::Object(_) => match m.get("id") {
                    Some(id) => json_eq(req_id, id),
                    None => false,
                },
                _ => false,
            };
            if is_answer {
                ResponseDecision::Deliver(m)
            } else {
                ResponseDecision::Skip
            }
        },
        None => ResponseDecision::Skip,
    }
}

/// One step of the wait for an answer: stop once the socket is closed or
/// the messages end; read each message as JSON and hand over the first that
/// answers the request; skip everything else.
pub fn response_step(req_id: &JsonValue, cancelled: bool, event: ResponseEvent) -> (r: ResponseDecision)
    ensures
        cancelled ==> r is Stop,
        !cancelled ==> match event {
            ResponseEvent::Message(text) => match serde_json_reads(text@) {
                Some(m) => if answers(req_id@, m) {
                    r matches ResponseDecision::Deliver(d) && d@ == m
                } else {
                    r is Skip
                },
                None => r is Skip,
            },
            ResponseEvent::Lagged => r is Skip,
            ResponseEvent::ChannelClosed => r is Stop,
        },
{
    if cancelled {
        return ResponseDecision::Stop;
    }
    match event {
        ResponseEvent::Message(text) => {
            let parsed = parse_json(text.as_str());
            answer_decision(req_id, parsed)
        },
        ResponseEvent::Lagged => ResponseDecision::Skip,
        ResponseEvent::ChannelClosed => ResponseDecision::Stop,
    }
}

/// What the loop feeding a subscription has seen.
pub enum SubscriptionEvent {
    /// A message that reads as the subscription's message type.
    Parsed,
    /// A message of another shape.
    Unparsable,
    /// Some messages were missed.
    Lagged,
    /// No more messages will come.
    ChannelClosed,
}

/// What the loop feeding a subscription does next.
pub enum SubscriptionDecision {
    /// Hand the message to the subscriber.
    Forward,
    /// Wait for the next message.
    Skip,
    /// Stop feeding the subscription.
    Stop,
}

/// One step of feeding a subscription: stop once the socket is closed or the
/// messages end; forward what reads as the subscription's messages; skip the
/// rest.
pub fn subscription_step(cancelled: bool, event: SubscriptionEvent) -> (r: SubscriptionDecision)
    ensures
        cancelled ==> r is Stop,
        !cancelled ==> match event {
            SubscriptionEvent::Parsed => r is Forward,
            SubscriptionEvent::Unparsable | SubscriptionEvent::Lagged => r is Skip,
            SubscriptionEvent::ChannelClosed => r is Stop,
        },
{
    if cancelled {
        return SubscriptionDecision::Stop;
    }
    match event {
        SubscriptionEvent::Parsed => SubscriptionDecision::Forward,
        SubscriptionEvent::Unparsable => SubscriptionDecision::Skip,
        SubscriptionEvent::Lagged => SubscriptionDecision::Skip,
        SubscriptionEvent::ChannelClosed => SubscriptionDecision::Stop,
    }
}

} // verus!
