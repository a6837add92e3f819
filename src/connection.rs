//! The gateway's engine client: its lazily opened channel as a state machine,
//! the per-call deadline, and how transport failures are classified.

use vstd::prelude::*;
use crate::dispatch::ErrorKind;
use crate::text::{owned, parse_u64, u64_of};

verus! {

/// The state of the cached channel to the engine.
#[derive(Debug, Clone, Copy, PartialEq, Eq, Structural)]
pub enum ConnectionState {
    Idle,
    Connecting,
    Ready,
    Failed,
}

/// What happened to the channel.
#[derive(Debug, Clone, Copy, PartialEq, Eq, Structural)]
pub enum ConnectionEvent {
    /// A call needs the channel and none is open.
    Connect,
    ConnectSucceeded,
    ConnectFailed,
    /// A call over the open channel finished; `unavailable` when the
    /// transport reported the engine unavailable.
    CallFinished { unavailable: bool },
    Disconnect,
}

pub open spec fn transition_spec(s: ConnectionState, e: ConnectionEvent) -> ConnectionState {
    match e {
        ConnectionEvent::Disconnect => ConnectionState::Idle,
        ConnectionEvent::Connect => match s {
            ConnectionState::Idle | ConnectionState::Failed => ConnectionState::Connecting,
            _ => s,
        },
        ConnectionEvent::ConnectSucceeded => match s {
            ConnectionState::Connecting => ConnectionState::Ready,
            _ => s,
        },
        ConnectionEvent::ConnectFailed => match s {
            ConnectionState::Connecting => ConnectionState::Failed,
            _ => s,
        },
        ConnectionEvent::CallFinished { unavailable } => match s {
            ConnectionState::Ready => if unavailable {
                ConnectionState::Idle
            } else {
                ConnectionState::Ready
            },
            _ => s,
        },
    }
}

/// The next state of the channel; an event that does not apply leaves it as it is.
pub fn transition(s: ConnectionState, e: ConnectionEvent) -> (r: ConnectionState)
    ensures
        r == transition_spec(s, e),
{
    match e {
        ConnectionEvent::Disconnect => ConnectionState::Idle,
        ConnectionEvent::Connect => match s {
            ConnectionState::Idle | ConnectionState::Failed => ConnectionState::Connecting,
            _ => s,
        },
        ConnectionEvent::ConnectSucceeded => match s {
            ConnectionState::Connecting => ConnectionState::Ready,
            _ => s,
        },
        ConnectionEvent::ConnectFailed => match s {
            ConnectionState::Connecting => ConnectionState::Failed,
            _ => s,
        },
        ConnectionEvent::CallFinished { unavailable } => match s {
            ConnectionState::Ready => if unavailable {
                ConnectionState::Idle
            } else {
                ConnectionState::Ready
            },
            _ => s,
        },
    }
}

/// Whether a call must open the channel first: the first call opens it, and
/// later calls reuse it until it is invalidated.
pub fn needs_connect(s: ConnectionState) -> (r: bool)
    ensures
        r == (s == ConnectionState::Idle || s == ConnectionState::Failed),
{
    match s {
        ConnectionState::Idle | ConnectionState::Failed => true,
        _ => false,
    }
}

/// A ready channel stays ready across calls that do not report the engine
/// unavailable, and only such a report or a disconnect takes it back to idle.
pub proof fn lemma_ready_reused(unavailable: bool)
    ensures
        transition_spec(ConnectionState::Ready, ConnectionEvent::CallFinished { unavailable })
            == if unavailable {
            ConnectionState::Idle
        } else {
            ConnectionState::Ready
        },
        transition_spec(ConnectionState::Ready, ConnectionEvent::Connect) == ConnectionState::Ready,
{
}

/// The canonical transport codes that the core produces.
#[derive(Debug, Clone, Copy, PartialEq, Eq, Structural)]
pub enum TransportCode {
    DeadlineExceeded,
    Unavailable,
    InvalidArgument,
    Internal,
}

/// A deadline hit is a `Timeout`; every other transport failure is `Transport`.
pub fn classify_transport(code: TransportCode) -> (r: ErrorKind)
    ensures
        r == if code == TransportCode::DeadlineExceeded {
            ErrorKind::Timeout
        } else {
            ErrorKind::Transport
        },
{
    match code {
        TransportCode::DeadlineExceeded => ErrorKind::Timeout,
        _ => ErrorKind::Transport,
    }
}

/// Whether a failure with this code invalidates the cached channel.
pub fn invalidates_channel(code: TransportCode) -> (r: bool)
    ensures
        r == (code == TransportCode::Unavailable),
{
    match code {
        TransportCode::Unavailable => true,
        _ => false,
    }
}

pub open spec fn call_deadline_spec(timeout_ms: i32, request_timeout_secs: u64) -> nat {
    if timeout_ms > 0 {
        timeout_ms as nat
    } else if request_timeout_secs * 1000 <= u64::MAX {
        (request_timeout_secs * 1000) as nat
    } else {
        u64::MAX as nat
    }
}

/// The deadline of one call in milliseconds: the request's own when positive,
/// else the configured request timeout.
pub fn call_deadline_ms(timeout_ms: i32, request_timeout_secs: u64) -> (r: u64)
    ensures
        r as nat == call_deadline_spec(timeout_ms, request_timeout_secs),
{
    if timeout_ms > 0 {
        timeout_ms as u64
    } else if request_timeout_secs <= u64::MAX / 1000 {
        request_timeout_secs * 1000
    } else {
        u64::MAX
    }
}

/// The engine endpoint dialled when none is configured.
pub const DEFAULT_ENDPOINT: &'static str = "http://127.0.0.1:50051";

/// The connect deadline, in seconds, when none is configured.
pub const DEFAULT_CONNECT_TIMEOUT_SECS: u64 = 10;

/// The per-call deadline, in seconds, when none is configured.
pub const DEFAULT_REQUEST_TIMEOUT_SECS: u64 = 30;

/// TCP keep-alive of the channel, in seconds.
pub const KEEPALIVE_SECS: u64 = 60;

/// The largest encoded message in either direction, in bytes.
pub const MAX_MESSAGE_BYTES: usize = 16777216;

/// The gateway's client of the engine: where it dials, its deadlines, and
/// the state of its lazily opened channel. The transport itself is driven by
/// the caller, which reports each connection event.
#[derive(Debug)]
pub struct AnalyticsEngineClient {
    endpoint: String,
    connection_timeout_secs: u64,
    request_timeout_secs: u64,
    state: ConnectionState,
}

/// A configured number of seconds: the value when it reads as a number, else
/// the default.
pub open spec fn seconds_or(text: Option<Seq<char>>, default: u64) -> u64 {
    match text {
        Some(t) => match u64_of(t) {
            Some(v) => v,
            None => default,
        },
        None => default,
    }
}

fn read_seconds(text: Option<&str>, default: u64) -> (r: u64)
    ensures
        r == seconds_or(crate::crud::opt_view(text), default),
{
    match text {
        Some(t) => match parse_u64(t) {
            Some(v) => v,
            None => default,
        },
        None => default,
    }
}

impl AnalyticsEngineClient {
    pub closed spec fn endpoint_spec(&self) -> Seq<char> {
        self.endpoint@
    }

    pub closed spec fn connect_timeout_spec(&self) -> u64 {
        self.connection_timeout_secs
    }

    pub closed spec fn request_timeout_spec(&self) -> u64 {
        self.request_timeout_secs
    }

    pub closed spec fn state_spec(&self) -> ConnectionState {
        self.state
    }

    /// A client of `endpoint` with the default deadlines and no channel yet.
    pub fn new(endpoint: &str) -> (r: AnalyticsEngineClient)
        ensures
            r.endpoint_spec() == endpoint@,
            r.connect_timeout_spec() == DEFAULT_CONNECT_TIMEOUT_SECS,
            r.request_timeout_spec() == DEFAULT_REQUEST_TIMEOUT_SECS,
            r.state_spec() == ConnectionState::Idle,
    {
        AnalyticsEngineClient {
            endpoint: owned(endpoint),
            connection_timeout_secs: DEFAULT_CONNECT_TIMEOUT_SECS,
            request_timeout_secs: DEFAULT_REQUEST_TIMEOUT_SECS,
            state: ConnectionState::Idle,
        }
    }

    /// A client from configuration text (`ANALYTICS_ENGINE_ENDPOINT`,
    /// `ANALYTICS_CONNECTION_TIMEOUT_SEC`, `ANALYTICS_REQUEST_TIMEOUT_SEC`);
    /// missing or unreadable values take the defaults.
    pub fn from_settings(
        endpoint: Option<&str>,
        connection_timeout: Option<&str>,
        request_timeout: Option<&str>,
    ) -> (r: AnalyticsEngineClient)
        ensures
            r.endpoint_spec() == match endpoint {
                Some(e) => e@,
                None => DEFAULT_ENDPOINT@,
            },
            r.connect_timeout_spec() == seconds_or(
                crate::crud::opt_view(connection_timeout),
                DEFAULT_CONNECT_TIMEOUT_SECS,
            ),
            r.request_timeout_spec() == seconds_or(
                crate::crud::opt_view(request_timeout),
                DEFAULT_REQUEST_TIMEOUT_SECS,
            ),
            r.state_spec() == ConnectionState::Idle,
    {
        let endpoint = match endpoint {
            Some(e) => owned(e),
            None => owned(DEFAULT_ENDPOINT),
        };
        AnalyticsEngineClient {
            endpoint,
            connection_timeout_secs: read_seconds(connection_timeout, DEFAULT_CONNECT_TIMEOUT_SECS),
            request_timeout_secs: read_seconds(request_timeout, DEFAULT_REQUEST_TIMEOUT_SECS),
            state: ConnectionState::Idle,
        }
    }

    pub fn endpoint(&self) -> (r: &str)
        ensures
            r@ == self.endpoint_spec(),
    {
        self.endpoint.as_str()
    }

    pub fn connection_timeout_secs(&self) -> (r: u64)
        ensures
            r == self.connect_timeout_spec(),
    {
        self.connection_timeout_secs
    }

    /// The deadline of a call whose request asks for `timeout_ms`.
    pub fn deadline_ms(&self, timeout_ms: i32) -> (r: u64)
        ensures
            r as nat == call_deadline_spec(timeout_ms, self.request_timeout_spec()),
    {
        call_deadline_ms(timeout_ms, self.request_timeout_secs)
    }

    /// Whether a channel is open.
    pub fn is_connected(&self) -> (r: bool)
        ensures
            r == (self.state_spec() == ConnectionState::Ready),
    {
        self.state == ConnectionState::Ready
    }

    /// Whether the next call must open the channel first.
    pub fn needs_connect(&self) -> (r: bool)
        ensures
            r == (self.state_spec() == ConnectionState::Idle || self.state_spec() == ConnectionState::Failed),
    {
        needs_connect(self.state)
    }

    /// Records what happened to the channel.
    pub fn record(&mut self, event: ConnectionEvent)
        ensures
            final(self).state_spec() == transition_spec(old(self).state_spec(), event),
            final(self).endpoint_spec() == old(self).endpoint_spec(),
            final(self).connect_timeout_spec() == old(self).connect_timeout_spec(),
            final(self).request_timeout_spec() == old(self).request_timeout_spec(),
    {
        self.state = transition(self.state, event);
    }

    /// Records a failed call: a failure that reports the engine unavailable
    /// drops the cached channel. The failure's kind is returned.
    pub fn record_failure(&mut self, code: TransportCode) -> (r: ErrorKind)
        ensures
            r == if code == TransportCode::DeadlineExceeded { ErrorKind::Timeout } else { ErrorKind::Transport },
            final(self).state_spec() == transition_spec(
                old(self).state_spec(),
                ConnectionEvent::CallFinished { unavailable: code == TransportCode::Unavailable },
            ),
            final(self).endpoint_spec() == old(self).endpoint_spec(),
    {
        let unavailable = invalidates_channel(code);
        self.state = transition(self.state, ConnectionEvent::CallFinished { unavailable });
        classify_transport(code)
    }

    /// Drops the channel.
    pub fn disconnect(&mut self)
        ensures
            final(self).state_spec() == ConnectionState::Idle,
            final(self).endpoint_spec() == old(self).endpoint_spec(),
    {
        self.state = transition(self.state, ConnectionEvent::Disconnect);
    }
}

/// Makes engine clients.
#[derive(Debug)]
pub struct AnalyticsEngineClientFactory;

impl AnalyticsEngineClientFactory {
    /// A client of the local development engine.
    pub fn create_dev() -> (r: AnalyticsEngineClient)
        ensures
            r.endpoint_spec() == "http://127.0.0.1:50051"@,
            r.state_spec() == ConnectionState::Idle,
    {
        AnalyticsEngineClient::new("http://127.0.0.1:50051")
    }

    /// A client of the production engine, reached over the private network.
    pub fn create_prod() -> (r: AnalyticsEngineClient)
        ensures
            r.endpoint_spec() == "http://10.0.0.1:50051"@,
            r.state_spec() == ConnectionState::Idle,
    {
        AnalyticsEngineClient::new("http://10.0.0.1:50051")
    }
}

} // verus!
