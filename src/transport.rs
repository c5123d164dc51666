//! The decisions of the two transports: what the HTTP pipeline client does
//! after each attempt, and how the WebSocket client frames requests, pairs
//! server frames with callers and tracks its connection.
use vstd::prelude::*;
use crate::codes::{SqliteError, SQLITE_ERROR};
use crate::protocol::SqlStatement;
use crate::value::{decimal, i64_text};
use vstd::string::StringExecFns;

verus! {

/// Attempts made by the HTTP client before it gives up.
pub const MAX_ATTEMPTS: u32 = 5;

/// Pause between two HTTP attempts, in milliseconds.
pub const RETRY_DELAY_MS: u64 = 100;

/// `https://<db_url>/v2/pipeline`
pub fn pipeline_url(db_url: &str) -> (r: String)
    ensures
        r@ == "https://"@ + db_url@ + "/v2/pipeline"@,
{
    String::from_str("https://").concat(db_url).concat("/v2/pipeline")
}

/// The `Authorization` header value for a token.
pub fn bearer(token: &str) -> (r: String)
    ensures
        r@ == "Bearer "@ + token@,
{
    String::from_str("Bearer ").concat(token)
}

/// `wss://<db_url>`
pub fn ws_url(db_url: &str) -> (r: String)
    ensures
        r@ == "wss://"@ + db_url@,
{
    String::from_str("wss://").concat(db_url)
}

/// How one HTTP attempt ended.
pub enum AttemptOutcome {
    /// The request failed, its body could not be read, or the status was not
    /// 2xx; the message says which.
    Failed(String),
    /// A 2xx status, with the body.
    Succeeded(String),
}

/// What the HTTP client does next.
pub enum RetryDecision {
    /// Sleep, then attempt again.
    Retry { delay_ms: u64 },
    /// Stop with this error.
    GiveUp(SqliteError),
    /// Parse this body as the response.
    Accept(String),
}

/// The bounded-retry policy of the HTTP client.
pub struct HttpRetry {
    attempts: u32,
}

impl HttpRetry {
    pub closed spec fn attempts_made(&self) -> nat {
        self.attempts as nat
    }

    pub fn new() -> (r: HttpRetry)
        ensures
            r.attempts_made() == 0,
    {
        HttpRetry { attempts: 0 }
    }

    pub fn attempts(&self) -> (r: u32)
        ensures
            r == self.attempts_made(),
    {
        self.attempts
    }

    /// Records how an attempt ended. A failure is retried after a pause
    /// while fewer than `MAX_ATTEMPTS` attempts were made, and ends the
    /// request with its message on the last one; a 2xx body is accepted.
    pub fn on_outcome(&mut self, outcome: AttemptOutcome) -> (r: RetryDecision)
        requires
            old(self).attempts_made() < MAX_ATTEMPTS,
        ensures
            final(self).attempts_made() == old(self).attempts_made() + 1,
            match outcome {
                AttemptOutcome::Succeeded(body) => r == RetryDecision::Accept(body),
                AttemptOutcome::Failed(m) => if final(self).attempts_made() < MAX_ATTEMPTS {
                    r == RetryDecision::Retry { delay_ms: RETRY_DELAY_MS }
                } else {
                    r == RetryDecision::GiveUp(SqliteError { message: m, code: SQLITE_ERROR })
                },
            },
    {
        self.attempts = self.attempts + 1;
        match outcome {
            AttemptOutcome::Succeeded(body) => RetryDecision::Accept(body),
            AttemptOutcome::Failed(m) => {
                if self.attempts < MAX_ATTEMPTS {
                    RetryDecision::Retry { delay_ms: RETRY_DELAY_MS }
                } else {
                    RetryDecision::GiveUp(SqliteError { message: m, code: SQLITE_ERROR })
                }
            },
        }
    }
}

/// The first error message carried by the results of a parsed pipeline
/// body (`results[*].error.message`) ends the request; it is not retried.
pub fn check_embedded_errors(messages: &Vec<Option<String>>) -> (r: Result<(), SqliteError>)
    ensures
        r is Ok <==> (forall|i: int| 0 <= i < messages@.len() ==> messages@[i] is None),
        r matches Err(e) ==> e.code == SQLITE_ERROR && exists|i: int|
            0 <= i < messages@.len() && messages@[i] == Some(e.message) && forall|j: int|
                0 <= j < i ==> messages@[j] is None,
{
    let mut i: usize = 0;
    while i < messages.len()
        invariant
            i <= messages@.len(),
            forall|j: int| 0 <= j < i ==> messages@[j] is None,
        decreases messages@.len() - i,
    {
        match &messages[i] {
            Some(m) => {
                return Err(SqliteError { message: m.clone(), code: SQLITE_ERROR });
            },
            None => {},
        }
        i = i + 1;
    }
    Ok(())
}

/// The payload of a request frame.
pub enum WsRequest {
    OpenStream { stream_id: u64 },
    Execute { stmt: SqlStatement, stream_id: u64 },
}

/// A frame sent over the WebSocket.
pub enum WsFrame {
    Hello { jwt: String },
    Request { request_id: u64, request: WsRequest },
}

/// The handshake frame `{type: "hello", jwt}`.
pub fn hello_frame(token: &str) -> (r: WsFrame)
    ensures
        r matches WsFrame::Hello { jwt } && jwt@ == token@,
{
    WsFrame::Hello { jwt: String::from_str(token) }
}

/// `{type: "request", request_id, request: {type: "open_stream", stream_id}}`
pub fn open_stream_frame(request_id: u64, stream_id: u64) -> (r: WsFrame)
    ensures
        r == (WsFrame::Request { request_id, request: WsRequest::OpenStream { stream_id } }),
{
    WsFrame::Request { request_id, request: WsRequest::OpenStream { stream_id } }
}

/// `{type: "request", request_id, request: {type: "execute", stmt, stream_id}}`
pub fn execute_frame(request_id: u64, stream_id: u64, stmt: SqlStatement) -> (r: WsFrame)
    ensures
        r == (WsFrame::Request { request_id, request: WsRequest::Execute { stmt, stream_id } }),
{
    WsFrame::Request { request_id, request: WsRequest::Execute { stmt, stream_id } }
}

/// The key under which a server frame is handed to its waiting caller.
pub enum CorrelationKey {
    RequestId(i64),
    Id(i64),
    Type(String),
}

/// The addressing fields of a server frame.
pub struct InboundFrame {
    pub request_id: Option<i64>,
    pub id: Option<i64>,
    pub frame_type: Option<String>,
}

/// A frame is addressed by its `request_id`, else its `id`, else its `type`.
pub open spec fn key_of(f: InboundFrame) -> Option<CorrelationKey> {
    match f.request_id {
        Some(n) => Some(CorrelationKey::RequestId(n)),
        None => match f.id {
            Some(n) => Some(CorrelationKey::Id(n)),
            None => match f.frame_type {
                Some(t) => Some(CorrelationKey::Type(t)),
                None => None,
            },
        },
    }
}

pub fn correlation_key(f: &InboundFrame) -> (r: Option<CorrelationKey>)
    ensures
        r == key_of(*f),
{
    match f.request_id {
        Some(n) => Some(CorrelationKey::RequestId(n)),
        None => match f.id {
            Some(n) => Some(CorrelationKey::Id(n)),
            None => match &f.frame_type {
                Some(t) => Some(CorrelationKey::Type(t.clone())),
                None => None,
            },
        },
    }
}

/// The text of a key: `request_id:<n>`, `id:<n>` or `type:<s>`.
pub open spec fn key_text_of(k: CorrelationKey) -> Seq<char> {
    match k {
        CorrelationKey::RequestId(n) => "request_id:"@ + decimal(n as int),
        CorrelationKey::Id(n) => "id:"@ + decimal(n as int),
        CorrelationKey::Type(t) => "type:"@ + t@,
    }
}

pub fn key_text(k: &CorrelationKey) -> (r: String)
    ensures
        r@ == key_text_of(*k),
{
    match k {
        CorrelationKey::RequestId(n) => String::from_str("request_id:").concat(
            i64_text(*n).as_str(),
        ),
        CorrelationKey::Id(n) => String::from_str("id:").concat(i64_text(*n).as_str()),
        CorrelationKey::Type(t) => String::from_str("type:").concat(t.as_str()),
    }
}

/// The state of the WebSocket connection.
#[derive(PartialEq, Eq, Structural, Clone, Copy, Debug)]
pub enum WebSocketConnState {
    Connected,
    Disconnected,
}

/// What arrived on the reader side of the WebSocket.
#[derive(PartialEq, Eq, Structural, Clone, Copy, Debug)]
pub enum InboundKind {
    Text,
    Binary,
    Close,
    Failure,
    Other,
}

/// What the reader does with what arrived.
#[derive(PartialEq, Eq, Structural, Clone, Copy, Debug)]
pub enum ReaderAction {
    /// The connection is gone: stop reading.
    Stop,
    /// Parse the payload as JSON and hand it to the response bus.
    Dispatch,
    /// Ignore it.
    Skip,
}

/// The connection bookkeeping of the WebSocket client.
pub struct WsConnection {
    state: WebSocketConnState,
    has_writer: bool,
}

pub struct WsConnectionView {
    pub state: WebSocketConnState,
    pub has_writer: bool,
}

/// A send on this connection must first reconnect and redo the handshake.
pub open spec fn must_reconnect(v: WsConnectionView) -> bool {
    !v.has_writer || v.state == WebSocketConnState::Disconnected
}

/// The connection once the reader has seen `kind`.
pub open spec fn after_inbound(v: WsConnectionView, kind: InboundKind) -> WsConnectionView {
    if kind == InboundKind::Close || kind == InboundKind::Failure {
        WsConnectionView { state: WebSocketConnState::Disconnected, ..v }
    } else {
        v
    }
}

impl View for WsConnection {
    type V = WsConnectionView;

    closed spec fn view(&self) -> WsConnectionView {
        WsConnectionView { state: self.state, has_writer: self.has_writer }
    }
}

impl WsConnection {
    /// A client that has not connected yet.
    pub fn new() -> (r: WsConnection)
        ensures
            r@.state == WebSocketConnState::Disconnected,
            !r@.has_writer,
    {
        WsConnection { state: WebSocketConnState::Disconnected, has_writer: false }
    }

    pub fn state(&self) -> (r: WebSocketConnState)
        ensures
            r == self@.state,
    {
        self.state
    }

    /// Whether a send must first reconnect and redo the handshake.
    pub fn needs_connect(&self) -> (r: bool)
        ensures
            r == must_reconnect(self@),
    {
        !self.has_writer || self.state == WebSocketConnState::Disconnected
    }

    /// The handshake got its `hello_ok`: the connection is up.
    pub fn on_handshake_ok(&mut self)
        ensures
            final(self)@ == (WsConnectionView {
                state: WebSocketConnState::Connected,
                has_writer: true,
            }),
    {
        self.state = WebSocketConnState::Connected;
        self.has_writer = true;
    }

    /// The reader saw `kind`: a close frame or a read error disconnects and
    /// stops the reader; text and binary frames are dispatched; anything
    /// else is skipped.
    pub fn on_inbound(&mut self, kind: InboundKind) -> (r: ReaderAction)
        ensures
            final(self)@ == after_inbound(old(self)@, kind),
            r == if kind == InboundKind::Close || kind == InboundKind::Failure {
                ReaderAction::Stop
            } else if kind == InboundKind::Text || kind == InboundKind::Binary {
                ReaderAction::Dispatch
            } else {
                ReaderAction::Skip
            },
    {
        match kind {
            InboundKind::Close | InboundKind::Failure => {
                self.state = WebSocketConnState::Disconnected;
                ReaderAction::Stop
            },
            InboundKind::Text | InboundKind::Binary => ReaderAction::Dispatch,
            InboundKind::Other => ReaderAction::Skip,
        }
    }
}

/// Once the server has closed the connection, whatever state it was in,
/// the next send reconnects and redoes the handshake before its request.
pub proof fn lemma_close_forces_reconnect(v: WsConnectionView)
    ensures
        must_reconnect(after_inbound(v, InboundKind::Close)),
        must_reconnect(after_inbound(v, InboundKind::Failure)),
{
}

} // verus!
