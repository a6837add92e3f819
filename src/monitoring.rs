//! Log levels, the console logger's filter, trace contexts and timers.

use vstd::prelude::*;
use vstd::string::StringExecFns;
use crate::ids::{new_uuid, now_millis, utc_in_range, utc_millis_text, utc_text};
use crate::text::{decimal, push_decimal};
use crate::text::{lower_of, owned, str_eq, to_lower};

verus! {

/// Severity of a log record, in increasing order.
#[derive(Debug, Clone, Copy, PartialEq, Eq, Structural)]
pub enum LogLevel {
    Trace,
    Debug,
    Info,
    Warn,
    Error,
}

/// The rank of a level: trace lowest, error highest.
pub open spec fn rank(l: LogLevel) -> nat {
    match l {
        LogLevel::Trace => 0,
        LogLevel::Debug => 1,
        LogLevel::Info => 2,
        LogLevel::Warn => 3,
        LogLevel::Error => 4,
    }
}

/// The level that a lower-case name selects.
pub open spec fn level_of(l: Seq<char>) -> Option<LogLevel> {
    if l == "trace"@ {
        Some(LogLevel::Trace)
    } else if l == "debug"@ {
        Some(LogLevel::Debug)
    } else if l == "info"@ {
        Some(LogLevel::Info)
    } else if l == "warn"@ || l == "warning"@ {
        Some(LogLevel::Warn)
    } else if l == "error"@ {
        Some(LogLevel::Error)
    } else {
        None
    }
}

impl LogLevel {
    /// Reads a level name, in any case.
    pub fn from_str(s: &str) -> (r: Option<LogLevel>)
        ensures
            r == level_of(lower_of(s@)),
    {
        let l = to_lower(s);
        let l = l.as_str();
        if str_eq(l, "trace") {
            Some(LogLevel::Trace)
        } else if str_eq(l, "debug") {
            Some(LogLevel::Debug)
        } else if str_eq(l, "info") {
            Some(LogLevel::Info)
        } else if str_eq(l, "warn") || str_eq(l, "warning") {
            Some(LogLevel::Warn)
        } else if str_eq(l, "error") {
            Some(LogLevel::Error)
        } else {
            None
        }
    }

    pub open spec fn name_spec(self) -> Seq<char> {
        match self {
            LogLevel::Trace => "trace"@,
            LogLevel::Debug => "debug"@,
            LogLevel::Info => "info"@,
            LogLevel::Warn => "warn"@,
            LogLevel::Error => "error"@,
        }
    }

    /// The level's name.
    pub fn as_str(&self) -> (r: &'static str)
        ensures
            r@ == self.name_spec(),
    {
        match self {
            LogLevel::Trace => "trace",
            LogLevel::Debug => "debug",
            LogLevel::Info => "info",
            LogLevel::Warn => "warn",
            LogLevel::Error => "error",
        }
    }

    /// The level's rank.
    pub fn rank(&self) -> (r: u8)
        ensures
            r as nat == rank(*self),
    {
        match self {
            LogLevel::Trace => 0,
            LogLevel::Debug => 1,
            LogLevel::Info => 2,
            LogLevel::Warn => 3,
            LogLevel::Error => 4,
        }
    }
}

/// A logger that writes records at or above its level.
#[derive(Debug)]
pub struct ConsoleLogger {
    min_level: LogLevel,
}

impl ConsoleLogger {
    pub closed spec fn level_spec(&self) -> LogLevel {
        self.min_level
    }

    pub fn new(min_level: LogLevel) -> (r: ConsoleLogger)
        ensures
            r.level_spec() == min_level,
    {
        ConsoleLogger { min_level }
    }

    pub fn set_level(&mut self, level: LogLevel)
        ensures
            final(self).level_spec() == level,
    {
        self.min_level = level;
    }

    /// Whether a record of `level` is written.
    pub fn should_log(&self, level: LogLevel) -> (r: bool)
        ensures
            r == (rank(level) >= rank(self.level_spec())),
    {
        level.rank() >= self.min_level.rank()
    }
}

/// Kinds of metric.
#[derive(Debug, Clone, Copy, PartialEq, Eq, Structural)]
pub enum MetricType {
    Counter,
    Gauge,
    Histogram,
    Timer,
}

/// The trace context carried across calls.
#[derive(Debug)]
pub struct TraceContext {
    pub trace_id: String,
    pub span_id: String,
    pub parent_span_id: Option<String>,
    pub sampled: bool,
    pub flags: u8,
}

impl TraceContext {
    /// A new trace with fresh random ids.
    pub fn new() -> (r: TraceContext)
        ensures
            r.trace_id@.len() == 36,
            r.span_id@.len() == 36,
            r.parent_span_id is None,
            r.sampled,
            r.flags == 0,
    {
        TraceContext {
            trace_id: new_uuid(),
            span_id: new_uuid(),
            parent_span_id: None,
            sampled: true,
            flags: 0,
        }
    }

    /// A child span of the same trace, whose parent is this span.
    pub fn child_span(&self) -> (r: TraceContext)
        ensures
            r.trace_id@ == self.trace_id@,
            r.span_id@.len() == 36,
            r.parent_span_id is Some && r.parent_span_id->0@ == self.span_id@,
            r.sampled == self.sampled,
            r.flags == self.flags,
    {
        TraceContext {
            trace_id: self.trace_id.clone(),
            span_id: new_uuid(),
            parent_span_id: Some(self.span_id.clone()),
            sampled: self.sampled,
            flags: self.flags,
        }
    }

    /// The headers that carry the context: trace id, span id, and the parent
    /// span id when there is one.
    pub fn to_headers(&self) -> (r: Vec<(String, String)>)
        ensures
            r@.len() == if self.parent_span_id is Some { 3int } else { 2int },
            r@[0].0@ == "x-trace-id"@ && r@[0].1@ == self.trace_id@,
            r@[1].0@ == "x-span-id"@ && r@[1].1@ == self.span_id@,
            self.parent_span_id is Some ==> r@[2].0@ == "x-parent-span-id"@ && r@[2].1@
                == self.parent_span_id->0@,
    {
        let mut h: Vec<(String, String)> = Vec::new();
        h.push((owned("x-trace-id"), self.trace_id.clone()));
        h.push((owned("x-span-id"), self.span_id.clone()));
        match &self.parent_span_id {
            Some(p) => h.push((owned("x-parent-span-id"), p.clone())),
            None => {},
        }
        h
    }
}

/// Measures the time of one named operation.
#[derive(Debug)]
pub struct Timer {
    start_ms: i64,
    name: String,
}

impl Timer {
    pub closed spec fn name_spec(&self) -> Seq<char> {
        self.name@
    }

    /// Starts timing.
    pub fn start(name: &str) -> (r: Timer)
        ensures
            r.name_spec() == name@,
    {
        Timer { start_ms: now_millis(), name: owned(name) }
    }

    /// Stops timing: the milliseconds since the start, or zero when the
    /// clock went backwards.
    pub fn stop(self) -> (r: u64) {
        let now = now_millis();
        if now >= self.start_ms {
            let d = (now as i128) - (self.start_ms as i128);
            if d > u64::MAX as i128 {
                u64::MAX
            } else {
                d as u64
            }
        } else {
            0
        }
    }
}

impl LogLevel {
    pub open spec fn upper_spec(self) -> Seq<char> {
        match self {
            LogLevel::Trace => "TRACE"@,
            LogLevel::Debug => "DEBUG"@,
            LogLevel::Info => "INFO"@,
            LogLevel::Warn => "WARN"@,
            LogLevel::Error => "ERROR"@,
        }
    }

    /// The level's name in capitals, as log lines show it.
    pub fn upper_name(&self) -> (r: &'static str)
        ensures
            r@ == self.upper_spec(),
    {
        match self {
            LogLevel::Trace => "TRACE",
            LogLevel::Debug => "DEBUG",
            LogLevel::Info => "INFO",
            LogLevel::Warn => "WARN",
            LogLevel::Error => "ERROR",
        }
    }
}

/// One structured log record. The time is in milliseconds since the Unix epoch.
#[derive(Debug)]
pub struct LogEntry {
    pub timestamp: i64,
    pub level: LogLevel,
    pub message: String,
    pub trace_id: Option<String>,
    pub correlation_id: Option<String>,
    pub user_id: Option<String>,
    pub request_id: Option<String>,
    pub component: Option<String>,
    pub file: Option<String>,
    pub line: Option<u32>,
    /// Extra fields: key and JSON text of the value.
    pub fields: Vec<(String, String)>,
}

impl LogEntry {
    /// A record made now.
    pub fn new(level: LogLevel, message: String) -> (r: LogEntry)
        ensures
            r.level == level,
            r.message@ == message@,
            r.trace_id is None && r.correlation_id is None && r.user_id is None && r.request_id is None,
            r.component is None && r.file is None && r.line is None,
            r.fields@.len() == 0,
    {
        LogEntry {
            timestamp: now_millis(),
            level,
            message,
            trace_id: None,
            correlation_id: None,
            user_id: None,
            request_id: None,
            component: None,
            file: None,
            line: None,
            fields: Vec::new(),
        }
    }

    pub fn with_trace_id(self, trace_id: String) -> (r: LogEntry)
        ensures
            r == (LogEntry { trace_id: Some(trace_id), ..self }),
    {
        let mut e = self;
        e.trace_id = Some(trace_id);
        e
    }

    pub fn with_correlation_id(self, correlation_id: String) -> (r: LogEntry)
        ensures
            r == (LogEntry { correlation_id: Some(correlation_id), ..self }),
    {
        let mut e = self;
        e.correlation_id = Some(correlation_id);
        e
    }

    pub fn with_user_id(self, user_id: String) -> (r: LogEntry)
        ensures
            r == (LogEntry { user_id: Some(user_id), ..self }),
    {
        let mut e = self;
        e.user_id = Some(user_id);
        e
    }

    pub fn with_request_id(self, request_id: String) -> (r: LogEntry)
        ensures
            r == (LogEntry { request_id: Some(request_id), ..self }),
    {
        let mut e = self;
        e.request_id = Some(request_id);
        e
    }

    pub fn with_component(self, component: String) -> (r: LogEntry)
        ensures
            r == (LogEntry { component: Some(component), ..self }),
    {
        let mut e = self;
        e.component = Some(component);
        e
    }

    pub fn with_location(self, file: String, line: u32) -> (r: LogEntry)
        ensures
            r == (LogEntry { file: Some(file), line: Some(line), ..self }),
    {
        let mut e = self;
        e.file = Some(file);
        e.line = Some(line);
        e
    }

    /// Adds a field whose value is already JSON text.
    pub fn with_field(self, key: &str, value_json: String) -> (r: LogEntry)
        ensures
            r == (LogEntry { fields: r.fields, ..self }),
            r.fields@.len() == self.fields@.len() + 1,
            r.fields@.drop_last() == self.fields@,
            r.fields@.last().0@ == key@ && r.fields@.last().1@ == value_json@,
    {
        let mut e = self;
        e.fields.push((crate::text::owned(key), value_json));
        e
    }
}

/// The text of a log line after its time: level, message, and the trace,
/// correlation and location annotations present.
pub open spec fn line_tail(e: LogEntry) -> Seq<char> {
    let base = " ["@ + e.level.upper_spec() + "] "@ + e.message@;
    let t = match e.trace_id {
        Some(t) => base + " [trace_id="@ + t@ + "]"@,
        None => base,
    };
    let c = match e.correlation_id {
        Some(c) => t + " [correlation_id="@ + c@ + "]"@,
        None => t,
    };
    match (e.file, e.line) {
        (Some(f), Some(l)) => c + " ["@ + f@ + ":"@ + decimal(l as nat) + "]"@,
        _ => c,
    }
}

fn tail_text(entry: &LogEntry) -> (r: String)
    ensures
        r@ == line_tail(*entry),
{
    let mut s = crate::text::owned(" [");
    s.append(entry.level.upper_name());
    s.append("] ");
    s.append(entry.message.as_str());
    let ghost base = s@;
    assert(base =~= " ["@ + entry.level.upper_spec() + "] "@ + entry.message@);
    match &entry.trace_id {
        Some(t) => {
            s.append(" [trace_id=");
            s.append(t.as_str());
            s.append("]");
        },
        None => {},
    }
    match &entry.correlation_id {
        Some(c) => {
            s.append(" [correlation_id=");
            s.append(c.as_str());
            s.append("]");
        },
        None => {},
    }
    match (&entry.file, entry.line) {
        (Some(f), Some(l)) => {
            s.append(" [");
            s.append(f.as_str());
            s.append(":");
            push_decimal(&mut s, l as u64);
            s.append("]");
        },
        _ => {},
    }
    s
}

impl ConsoleLogger {
    /// The line that the logger writes for `entry`, or none when the entry is
    /// below the logger's level. The time shows as UTC; a time that cannot be
    /// shown is replaced by the current time.
    pub fn format_entry(&self, entry: &LogEntry) -> (r: Option<String>)
        ensures
            r is Some <==> rank(entry.level) >= rank(self.level_spec()),
            r is Some && utc_in_range(entry.timestamp as int) ==> r->0@ == "["@ + utc_text(
                entry.timestamp as int,
            ) + "]"@ + line_tail(*entry),
    {
        if !self.should_log(entry.level) {
            return None;
        }
        let time = match utc_millis_text(entry.timestamp) {
            Some(t) => t,
            None => match utc_millis_text(now_millis()) {
                Some(t) => t,
                None => String::new(),
            },
        };
        let mut s = crate::text::owned("[");
        s.append(time.as_str());
        s.append("]");
        let tail = tail_text(entry);
        s.append(tail.as_str());
        Some(s)
    }
}

} // verus!
