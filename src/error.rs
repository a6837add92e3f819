//! Application error codes and the gateway's error value with its tracing
//! annotations.

use vstd::prelude::*;
use vstd::string::StringExecFns;
use crate::text::{decimal, decimal_string, owned};

verus! {

/// Application error code, each mapped to an HTTP status.
#[derive(Debug, Clone, Copy, PartialEq, Eq, Structural)]
pub enum ErrorCode {
    BadRequest,
    Unauthorized,
    Forbidden,
    NotFound,
    Validation,
    TooManyRequests,
    Internal,
    NotImplemented,
    ServiceUnavailable,
    Database,
    Timeout,
}

/// The HTTP status of each code.
pub open spec fn status_of(c: ErrorCode) -> u16 {
    match c {
        ErrorCode::BadRequest => 400,
        ErrorCode::Unauthorized => 401,
        ErrorCode::Forbidden => 403,
        ErrorCode::NotFound => 404,
        ErrorCode::Validation => 422,
        ErrorCode::TooManyRequests => 429,
        ErrorCode::Internal => 500,
        ErrorCode::NotImplemented => 501,
        ErrorCode::ServiceUnavailable => 503,
        ErrorCode::Database => 500,
        ErrorCode::Timeout => 504,
    }
}

impl ErrorCode {
    /// The HTTP status code.
    pub fn status_code(&self) -> (r: u16)
        ensures
            r == status_of(*self),
    {
        match self {
            ErrorCode::BadRequest => 400,
            ErrorCode::Unauthorized => 401,
            ErrorCode::Forbidden => 403,
            ErrorCode::NotFound => 404,
            ErrorCode::Validation => 422,
            ErrorCode::TooManyRequests => 429,
            ErrorCode::Internal => 500,
            ErrorCode::NotImplemented => 501,
            ErrorCode::ServiceUnavailable => 503,
            ErrorCode::Database => 500,
            ErrorCode::Timeout => 504,
        }
    }

    /// A client error has a status below 500.
    pub fn is_client_error(&self) -> (r: bool)
        ensures
            r == (status_of(*self) < 500),
    {
        self.status_code() < 500
    }

    /// A server error has a status of 500 or more.
    pub fn is_server_error(&self) -> (r: bool)
        ensures
            r == (status_of(*self) >= 500),
    {
        self.status_code() >= 500
    }
}

/// The application error.
#[derive(Debug, Clone)]
pub struct AppError {
    pub code: ErrorCode,
    pub message: String,
    pub context: Option<String>,
    pub trace_id: Option<String>,
    pub correlation_id: Option<String>,
    /// The message of the underlying error, if one was attached.
    pub source: Option<String>,
    pub location: Option<String>,
}

/// The characters of an optional string.
pub open spec fn opt_chars(o: Option<String>) -> Option<Seq<char>> {
    match o {
        Some(s) => Some(s@),
        None => None,
    }
}

/// Copies an optional string.
pub fn copy_opt(o: &Option<String>) -> (r: Option<String>)
    ensures
        opt_chars(r) == opt_chars(*o),
{
    match o {
        Some(s) => Some(s.clone()),
        None => None,
    }
}

/// What an `AppError` holds, as plain values.
pub ghost struct AppErrorModel {
    pub code: ErrorCode,
    pub message: Seq<char>,
    pub context: Option<Seq<char>>,
    pub trace_id: Option<Seq<char>>,
    pub correlation_id: Option<Seq<char>>,
    pub source: Option<Seq<char>>,
    pub location: Option<Seq<char>>,
}

impl View for AppError {
    type V = AppErrorModel;

    open spec fn view(&self) -> AppErrorModel {
        AppErrorModel {
            code: self.code,
            message: self.message@,
            context: opt_chars(self.context),
            trace_id: opt_chars(self.trace_id),
            correlation_id: opt_chars(self.correlation_id),
            source: opt_chars(self.source),
            location: opt_chars(self.location),
        }
    }
}

/// The text of an error: `[status] message`, then each annotation present.
pub open spec fn display_of(e: AppErrorModel) -> Seq<char> {
    let base = "["@ + decimal(status_of(e.code) as nat) + "] "@ + e.message;
    let with_context = match e.context {
        Some(c) => base + " (Context: "@ + c + ")"@,
        None => base,
    };
    let with_trace = match e.trace_id {
        Some(t) => with_context + " (TraceID: "@ + t + ")"@,
        None => with_context,
    };
    let with_correlation = match e.correlation_id {
        Some(c) => with_trace + " (CorrelationID: "@ + c + ")"@,
        None => with_trace,
    };
    match e.location {
        Some(l) => with_correlation + " (Location: "@ + l + ")"@,
        None => with_correlation,
    }
}

fn append_annotation(s: &mut String, label: &str, value: &Option<String>)
    ensures
        final(s)@ == match opt_chars(*value) {
            Some(v) => old(s)@ + label@ + v + ")"@,
            None => old(s)@,
        },
{
    match value {
        Some(v) => {
            s.append(label);
            s.append(v.as_str());
            s.append(")");
        },
        None => {},
    }
}

impl AppError {
    /// A new error with the given code and message and no annotations.
    pub fn new(code: ErrorCode, message: &str) -> (r: AppError)
        ensures
            r@ == (AppErrorModel {
                code,
                message: message@,
                context: None,
                trace_id: None,
                correlation_id: None,
                source: None,
                location: None,
            }),
    {
        AppError {
            code,
            message: owned(message),
            context: None,
            trace_id: None,
            correlation_id: None,
            source: None,
            location: None,
        }
    }

    /// Sets the context.
    pub fn with_context(self, context: &str) -> (r: AppError)
        ensures
            r@ == (AppErrorModel { context: Some(context@), ..self@ }),
    {
        let mut e = self;
        e.context = Some(owned(context));
        e
    }

    /// Sets the trace id.
    pub fn with_trace_id(self, trace_id: &str) -> (r: AppError)
        ensures
            r@ == (AppErrorModel { trace_id: Some(trace_id@), ..self@ }),
    {
        let mut e = self;
        e.trace_id = Some(owned(trace_id));
        e
    }

    /// Sets the correlation id.
    pub fn with_correlation_id(self, correlation_id: &str) -> (r: AppError)
        ensures
            r@ == (AppErrorModel { correlation_id: Some(correlation_id@), ..self@ }),
    {
        let mut e = self;
        e.correlation_id = Some(owned(correlation_id));
        e
    }

    /// Attaches the message of an underlying error.
    pub fn with_source(self, source: &str) -> (r: AppError)
        ensures
            r@ == (AppErrorModel { source: Some(source@), ..self@ }),
    {
        let mut e = self;
        e.source = Some(owned(source));
        e
    }

    /// Sets the location.
    pub fn with_location(self, location: &str) -> (r: AppError)
        ensures
            r@ == (AppErrorModel { location: Some(location@), ..self@ }),
    {
        let mut e = self;
        e.location = Some(owned(location));
        e
    }

    /// A fresh random trace id: a hyphenated UUID of 36 characters.
    pub fn generate_trace_id() -> (r: String)
        ensures
            r@.len() == 36,
    {
        crate::ids::new_uuid()
    }

    pub fn bad_request(message: &str) -> (r: AppError)
        ensures
            r@ == AppError::new_model(ErrorCode::BadRequest, message@),
    {
        AppError::new(ErrorCode::BadRequest, message)
    }

    pub fn unauthorized(message: &str) -> (r: AppError)
        ensures
            r@ == AppError::new_model(ErrorCode::Unauthorized, message@),
    {
        AppError::new(ErrorCode::Unauthorized, message)
    }

    pub fn forbidden(message: &str) -> (r: AppError)
        ensures
            r@ == AppError::new_model(ErrorCode::Forbidden, message@),
    {
        AppError::new(ErrorCode::Forbidden, message)
    }

    pub fn not_found(message: &str) -> (r: AppError)
        ensures
            r@ == AppError::new_model(ErrorCode::NotFound, message@),
    {
        AppError::new(ErrorCode::NotFound, message)
    }

    pub fn validation(message: &str) -> (r: AppError)
        ensures
            r@ == AppError::new_model(ErrorCode::Validation, message@),
    {
        AppError::new(ErrorCode::Validation, message)
    }

    pub fn internal(message: &str) -> (r: AppError)
        ensures
            r@ == AppError::new_model(ErrorCode::Internal, message@),
    {
        AppError::new(ErrorCode::Internal, message)
    }

    pub fn database(message: &str) -> (r: AppError)
        ensures
            r@ == AppError::new_model(ErrorCode::Database, message@),
    {
        AppError::new(ErrorCode::Database, message)
    }

    pub fn timeout(message: &str) -> (r: AppError)
        ensures
            r@ == AppError::new_model(ErrorCode::Timeout, message@),
    {
        AppError::new(ErrorCode::Timeout, message)
    }

    /// The model of a fresh error.
    pub open spec fn new_model(code: ErrorCode, message: Seq<char>) -> AppErrorModel {
        AppErrorModel {
            code,
            message,
            context: None,
            trace_id: None,
            correlation_id: None,
            source: None,
            location: None,
        }
    }

    /// The error as text: `[status] message` and its annotations.
    pub fn display_string(&self) -> (r: String)
        ensures
            r@ == display_of(self@),
    {
        let mut s = owned("[");
        s.append(decimal_string(self.code.status_code() as u64).as_str());
        s.append("] ");
        s.append(self.message.as_str());
        append_annotation(&mut s, " (Context: ", &self.context);
        append_annotation(&mut s, " (TraceID: ", &self.trace_id);
        append_annotation(&mut s, " (CorrelationID: ", &self.correlation_id);
        append_annotation(&mut s, " (Location: ", &self.location);
        s
    }
}

/// Sets the location of an error.
pub fn with_location(error: AppError, location: &str) -> (r: AppError)
    ensures
        r@ == (AppErrorModel { location: Some(location@), ..error@ }),
{
    error.with_location(location)
}

/// Sets the trace id and the location of an error.
pub fn with_trace(error: AppError, trace_id: String, location: &str) -> (r: AppError)
    ensures
        r@ == (AppErrorModel { trace_id: Some(trace_id@), location: Some(location@), ..error@ }),
{
    let mut e = error;
    e.trace_id = Some(trace_id);
    e.location = Some(owned(location));
    e
}

/// Sets the trace id, the correlation id and the location of an error.
pub fn with_full_trace(
    error: AppError,
    trace_id: String,
    correlation_id: String,
    location: &str,
) -> (r: AppError)
    ensures
        r@ == (AppErrorModel {
            trace_id: Some(trace_id@),
            correlation_id: Some(correlation_id@),
            location: Some(location@),
            ..error@
        }),
{
    let mut e = error;
    e.trace_id = Some(trace_id);
    e.correlation_id = Some(correlation_id);
    e.location = Some(owned(location));
    e
}

/// The gateway's result type.
pub type AppResult<T> = Result<T, Box<AppError>>;

/// Annotations on a failed result.
pub trait ResultExt<T>: Sized {
    /// Sets the context of the error.
    fn with_context(self, context: &str) -> AppResult<T>;

    /// Sets the trace id of the error.
    fn with_trace(self, trace_id: &str) -> AppResult<T>;

    /// Replaces the error by a new one of the given code and message.
    fn map_err_to(self, error_code: ErrorCode, message: &str) -> AppResult<T>;
}

impl<T> ResultExt<T> for AppResult<T> {
    fn with_context(self, context: &str) -> (r: AppResult<T>)
        ensures
            match (self, r) {
                (Ok(a), Ok(b)) => a == b,
                (Err(e), Err(f)) => f@ == (AppErrorModel { context: Some(context@), ..e@ }),
                _ => false,
            },
    {
        match self {
            Ok(v) => Ok(v),
            Err(e) => Err(Box::new((*e).with_context(context))),
        }
    }

    fn with_trace(self, trace_id: &str) -> (r: AppResult<T>)
        ensures
            match (self, r) {
                (Ok(a), Ok(b)) => a == b,
                (Err(e), Err(f)) => f@ == (AppErrorModel { trace_id: Some(trace_id@), ..e@ }),
                _ => false,
            },
    {
        match self {
            Ok(v) => Ok(v),
            Err(e) => Err(Box::new((*e).with_trace_id(trace_id))),
        }
    }

    fn map_err_to(self, error_code: ErrorCode, message: &str) -> (r: AppResult<T>)
        ensures
            match (self, r) {
                (Ok(a), Ok(b)) => a == b,
                (Err(_), Err(f)) => f@ == AppError::new_model(error_code, message@),
                _ => false,
            },
    {
        match self {
            Ok(v) => Ok(v),
            Err(_) => Err(Box::new(AppError::new(error_code, message))),
        }
    }
}

} // verus!
