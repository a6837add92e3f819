//! HTTP-facing value types of the gateway: pagination, error details, and a
//! simulated client used in development.

use vstd::prelude::*;
use vstd::string::StringExecFns;
use crate::error::{opt_chars, status_of, AppError, ErrorCode};
use crate::ids::now_seconds;
use crate::text::{owned, str_eq};

verus! {

/// Paging parameters of a list request.
#[derive(Debug)]
pub struct PaginationQuery {
    /// Page number, from 1.
    pub page: Option<u32>,
    pub size: Option<u32>,
    pub sort: Option<String>,
    /// `asc` or `desc`.
    pub order: Option<String>,
}

impl PaginationQuery {
    pub open spec fn page_spec(&self) -> u32 {
        match self.page {
            Some(p) => if p < 1 {
                1
            } else {
                p
            },
            None => 1,
        }
    }

    pub open spec fn size_spec(&self) -> u32 {
        match self.size {
            Some(s) => if s < 1 {
                1
            } else if s > 100 {
                100
            } else {
                s
            },
            None => 20,
        }
    }

    /// The page number, at least 1 (default 1).
    pub fn page(&self) -> (r: u32)
        ensures
            r == self.page_spec(),
    {
        match self.page {
            Some(p) => if p < 1 {
                1
            } else {
                p
            },
            None => 1,
        }
    }

    /// The page size, between 1 and 100 (default 20).
    pub fn size(&self) -> (r: u32)
        ensures
            r == self.size_spec(),
    {
        match self.size {
            Some(s) => if s < 1 {
                1
            } else if s > 100 {
                100
            } else {
                s
            },
            None => 20,
        }
    }

    /// The number of records before the page.
    pub fn offset(&self) -> (r: u32)
        requires
            (self.page_spec() - 1) * self.size_spec() <= u32::MAX,
        ensures
            r == (self.page_spec() - 1) * self.size_spec(),
    {
        (self.page() - 1) * self.size()
    }

    /// The field to sort by, if any.
    pub fn sort_field(&self) -> (r: Option<&str>)
        ensures
            match r {
                Some(s) => self.sort is Some && s@ == self.sort->0@,
                None => self.sort is None,
            },
    {
        match &self.sort {
            Some(s) => Some(s.as_str()),
            None => None,
        }
    }

    /// Whether the order is `desc`.
    pub fn is_desc(&self) -> (r: bool)
        ensures
            r == (self.order is Some && self.order->0@ == "desc"@),
    {
        match &self.order {
            Some(o) => str_eq(o.as_str(), "desc"),
            None => false,
        }
    }
}

/// Paging facts of a list response.
#[derive(Debug, Clone, Copy, PartialEq, Eq, Structural)]
pub struct PaginationInfo {
    pub page: u32,
    pub size: u32,
    pub total: u64,
    pub pages: u32,
    pub has_next: bool,
    pub has_prev: bool,
}

/// One page of items with its paging facts.
#[derive(Debug)]
pub struct PaginatedResponse<T> {
    pub items: Vec<T>,
    pub pagination: PaginationInfo,
}

/// The number of pages of `size` that `total` records fill, at most `u32::MAX`.
pub open spec fn pages_spec(total: nat, size: nat) -> nat {
    let p: int = (total + size - 1) / (size as int);
    if p > u32::MAX {
        u32::MAX as nat
    } else {
        p as nat
    }
}

impl<T> PaginatedResponse<T> {
    /// The page `query` asks for, of `total` records.
    pub fn new(items: Vec<T>, query: &PaginationQuery, total: u64) -> (r: PaginatedResponse<T>)
        ensures
            r.items@ == items@,
            r.pagination.page == query.page_spec(),
            r.pagination.size == query.size_spec(),
            r.pagination.total == total,
            r.pagination.pages as nat == pages_spec(total as nat, query.size_spec() as nat),
            r.pagination.has_next == (r.pagination.page < r.pagination.pages),
            r.pagination.has_prev == (r.pagination.page > 1),
    {
        let page = query.page();
        let size = query.size();
        let p = ((total as u128) + (size as u128) - 1) / (size as u128);
        let pages: u32 = if p > u32::MAX as u128 {
            u32::MAX
        } else {
            p as u32
        };
        PaginatedResponse {
            items,
            pagination: PaginationInfo {
                page,
                size,
                total,
                pages,
                has_next: page < pages,
                has_prev: page > 1,
            },
        }
    }
}

/// The name of an error code, as it appears in an error detail.
pub open spec fn code_name_spec(c: ErrorCode) -> Seq<char> {
    match c {
        ErrorCode::BadRequest => "BadRequest"@,
        ErrorCode::Unauthorized => "Unauthorized"@,
        ErrorCode::Forbidden => "Forbidden"@,
        ErrorCode::NotFound => "NotFound"@,
        ErrorCode::Validation => "Validation"@,
        ErrorCode::TooManyRequests => "TooManyRequests"@,
        ErrorCode::Internal => "Internal"@,
        ErrorCode::NotImplemented => "NotImplemented"@,
        ErrorCode::ServiceUnavailable => "ServiceUnavailable"@,
        ErrorCode::Database => "Database"@,
        ErrorCode::Timeout => "Timeout"@,
    }
}

/// The name of an error code.
pub fn code_name(c: ErrorCode) -> (r: &'static str)
    ensures
        r@ == code_name_spec(c),
{
    match c {
        ErrorCode::BadRequest => "BadRequest",
        ErrorCode::Unauthorized => "Unauthorized",
        ErrorCode::Forbidden => "Forbidden",
        ErrorCode::NotFound => "NotFound",
        ErrorCode::Validation => "Validation",
        ErrorCode::TooManyRequests => "TooManyRequests",
        ErrorCode::Internal => "Internal",
        ErrorCode::NotImplemented => "NotImplemented",
        ErrorCode::ServiceUnavailable => "ServiceUnavailable",
        ErrorCode::Database => "Database",
        ErrorCode::Timeout => "Timeout",
    }
}

/// The error part of an HTTP response.
#[derive(Debug)]
pub struct ErrorDetail {
    pub code: String,
    pub message: String,
    pub context: Option<String>,
    pub location: Option<String>,
}

impl ErrorDetail {
    /// The detail of an application error.
    pub fn from_app_error(e: &AppError) -> (r: ErrorDetail)
        ensures
            r.code@ == code_name_spec(e.code),
            r.message@ == e.message@,
            opt_chars(r.context) == opt_chars(e.context),
            opt_chars(r.location) == opt_chars(e.location),
    {
        ErrorDetail {
            code: owned(code_name(e.code)),
            message: e.message.clone(),
            context: crate::error::copy_opt(&e.context),
            location: crate::error::copy_opt(&e.location),
        }
    }
}

/// Simulated requests: each answers with a JSON text that echoes the request.
pub trait HttpClient {
    fn get(&self, url: &str) -> Result<String, AppError>;

    fn post(&self, url: &str, body: &str) -> Result<String, AppError>;

    fn put(&self, url: &str, body: &str) -> Result<String, AppError>;

    fn delete(&self, url: &str) -> Result<String, AppError>;
}

/// A client for development and tests: it sends nothing and echoes requests.
#[derive(Debug)]
pub struct SimpleHttpClient {
    timeout_secs: u64,
    headers: Vec<(String, String)>,
}

/// The echo of a request without a body.
pub open spec fn echo_text(url: Seq<char>, method: Seq<char>) -> Seq<char> {
    "{\"url\": \""@ + url + "\", \"method\": \""@ + method + "\"}"@
}

/// The echo of a request with a body.
pub open spec fn echo_body_text(url: Seq<char>, method: Seq<char>, body: Seq<char>) -> Seq<char> {
    "{\"url\": \""@ + url + "\", \"method\": \""@ + method + "\", \"body\": \""@ + body + "\"}"@
}

fn echo(url: &str, method: &str) -> (r: String)
    ensures
        r@ == echo_text(url@, method@),
{
    let mut s = owned("{\"url\": \"");
    s.append(url);
    s.append("\", \"method\": \"");
    s.append(method);
    s.append("\"}");
    s
}

fn echo_body(url: &str, method: &str, body: &str) -> (r: String)
    ensures
        r@ == echo_body_text(url@, method@, body@),
{
    let mut s = owned("{\"url\": \"");
    s.append(url);
    s.append("\", \"method\": \"");
    s.append(method);
    s.append("\", \"body\": \"");
    s.append(body);
    s.append("\"}");
    s
}

impl SimpleHttpClient {
    pub closed spec fn timeout_spec(&self) -> u64 {
        self.timeout_secs
    }

    /// The headers, as key and value.
    pub closed spec fn headers_spec(&self) -> Seq<(Seq<char>, Seq<char>)> {
        self.headers@.map_values(|p: (String, String)| (p.0@, p.1@))
    }

    /// A client with a 30 s timeout and no headers.
    pub fn new() -> (r: SimpleHttpClient)
        ensures
            r.timeout_spec() == 30,
            r.headers_spec().len() == 0,
    {
        let r = SimpleHttpClient { timeout_secs: 30, headers: Vec::new() };
        assert(r.headers_spec() =~= Seq::<(Seq<char>, Seq<char>)>::empty());
        r
    }

    pub fn timeout_secs(&self) -> (r: u64)
        ensures
            r == self.timeout_spec(),
    {
        self.timeout_secs
    }

    /// Sets the default timeout.
    pub fn with_timeout(self, timeout_seconds: u64) -> (r: SimpleHttpClient)
        ensures
            r.timeout_spec() == timeout_seconds,
            r.headers_spec() == self.headers_spec(),
    {
        let mut c = self;
        c.timeout_secs = timeout_seconds;
        c
    }

    /// Sets a default header, replacing an earlier value of the same key.
    pub fn with_header(self, key: &str, value: &str) -> (r: SimpleHttpClient)
        ensures
            r.timeout_spec() == self.timeout_spec(),
            exists|i: int| 0 <= i < r.headers_spec().len() && r.headers_spec()[i] == (key@, value@),
            forall|i: int|
                0 <= i < r.headers_spec().len() && r.headers_spec()[i].0 != key@ ==> self.headers_spec().contains(
                    #[trigger] r.headers_spec()[i],
                ),
            forall|i: int|
                0 <= i < self.headers_spec().len() && self.headers_spec()[i].0 != key@ ==> r.headers_spec().contains(
                    #[trigger] self.headers_spec()[i],
                ),
    {
        let mut c = self;
        let mut i: usize = 0;
        while i < c.headers.len()
            invariant
                c.headers@ == self.headers@,
                c.timeout_secs == self.timeout_secs,
                i <= c.headers@.len(),
            decreases c.headers.len() - i,
        {
            if str_eq(c.headers[i].0.as_str(), key) {
                let ghost before = c.headers_spec();
                c.headers.set(i, (owned(key), owned(value)));
                proof {
                    assert(c.headers_spec() =~= before.update(i as int, (key@, value@)));
                    assert(c.headers_spec()[i as int] == (key@, value@));
                    assert forall|j: int|
                        0 <= j < c.headers_spec().len() && c.headers_spec()[j].0 != key@ implies self.headers_spec().contains(
                            #[trigger] c.headers_spec()[j],
                        ) by {
                        assert(c.headers_spec()[j] == self.headers_spec()[j]);
                    }
                    assert forall|j: int|
                        0 <= j < self.headers_spec().len() && self.headers_spec()[j].0 != key@ implies c.headers_spec().contains(
                            #[trigger] self.headers_spec()[j],
                        ) by {
                        assert(c.headers_spec()[j] == self.headers_spec()[j]);
                    }
                }
                return c;
            }
            i = i + 1;
        }
        let ghost before = c.headers_spec();
        c.headers.push((owned(key), owned(value)));
        proof {
            assert(c.headers_spec() =~= before.push((key@, value@)));
            assert(c.headers_spec()[before.len() as int] == (key@, value@));
            assert forall|j: int|
                0 <= j < c.headers_spec().len() && c.headers_spec()[j].0 != key@ implies self.headers_spec().contains(
                    #[trigger] c.headers_spec()[j],
                ) by {
                assert(c.headers_spec()[j] == self.headers_spec()[j]);
            }
            assert forall|j: int|
                0 <= j < self.headers_spec().len() && self.headers_spec()[j].0 != key@ implies c.headers_spec().contains(
                    #[trigger] self.headers_spec()[j],
                ) by {
                assert(c.headers_spec()[j] == self.headers_spec()[j]);
            }
        }
        c
    }

    /// The echo of a GET request.
    pub fn get_echo(&self, url: &str) -> (r: String)
        ensures
            r@ == echo_text(url@, "GET"@),
    {
        echo(url, "GET")
    }

    /// The echo of a POST request.
    pub fn post_echo(&self, url: &str, body: &str) -> (r: String)
        ensures
            r@ == echo_body_text(url@, "POST"@, body@),
    {
        echo_body(url, "POST", body)
    }

    /// The echo of a PUT request.
    pub fn put_echo(&self, url: &str, body: &str) -> (r: String)
        ensures
            r@ == echo_body_text(url@, "PUT"@, body@),
    {
        echo_body(url, "PUT", body)
    }

    /// The echo of a DELETE request.
    pub fn delete_echo(&self, url: &str) -> (r: String)
        ensures
            r@ == echo_text(url@, "DELETE"@),
    {
        echo(url, "DELETE")
    }
}

impl HttpClient for SimpleHttpClient {
    fn get(&self, url: &str) -> (r: Result<String, AppError>)
        ensures
            r is Ok && r->Ok_0@ == echo_text(url@, "GET"@),
    {
        Ok(self.get_echo(url))
    }

    fn post(&self, url: &str, body: &str) -> (r: Result<String, AppError>)
        ensures
            r is Ok && r->Ok_0@ == echo_body_text(url@, "POST"@, body@),
    {
        Ok(self.post_echo(url, body))
    }

    fn put(&self, url: &str, body: &str) -> (r: Result<String, AppError>)
        ensures
            r is Ok && r->Ok_0@ == echo_body_text(url@, "PUT"@, body@),
    {
        Ok(self.put_echo(url, body))
    }

    fn delete(&self, url: &str) -> (r: Result<String, AppError>)
        ensures
            r is Ok && r->Ok_0@ == echo_text(url@, "DELETE"@),
    {
        Ok(self.delete_echo(url))
    }
}

/// Makes HTTP clients.
pub struct HttpFactory;

impl HttpFactory {
    /// The development client.
    pub fn create_client() -> (r: SimpleHttpClient)
        ensures
            r.timeout_spec() == 30,
            r.headers_spec().len() == 0,
    {
        SimpleHttpClient::new()
    }
}

/// The paths that need no authentication.
pub open spec fn is_public_path_spec(path: Seq<char>) -> bool {
    path == "/"@ || path == "/health"@ || path == "/api/info"@ || path == "/api/auth/login"@
}

/// Whether `path` may be served without authentication.
pub fn is_public_path(path: &str) -> (r: bool)
    ensures
        r == is_public_path_spec(path@),
{
    str_eq(path, "/") || str_eq(path, "/health") || str_eq(path, "/api/info") || str_eq(
        path,
        "/api/auth/login",
    )
}

/// The uniform HTTP response body.
#[derive(Debug)]
pub struct HttpResponse<T> {
    pub status: u16,
    pub message: String,
    pub data: Option<T>,
    pub error: Option<ErrorDetail>,
    pub trace_id: Option<String>,
    /// Seconds since the Unix epoch when the response was made.
    pub timestamp: i64,
}

impl<T> HttpResponse<T> {
    /// A 200 response that carries `data`.
    pub fn success(data: T) -> (r: HttpResponse<T>)
        ensures
            r.status == 200,
            r.message@ == "Success"@,
            r.data == Some(data),
            r.error is None,
            r.trace_id is None,
    {
        HttpResponse {
            status: 200,
            message: owned("Success"),
            data: Some(data),
            error: None,
            trace_id: None,
            timestamp: now_seconds(),
        }
    }

    /// Sets the trace id.
    pub fn with_trace_id(self, trace_id: String) -> (r: HttpResponse<T>)
        ensures
            r == (HttpResponse { trace_id: Some(trace_id), ..self }),
    {
        let mut h = self;
        h.trace_id = Some(trace_id);
        h
    }
}

impl HttpResponse<()> {
    /// A 200 response without data.
    pub fn ok() -> (r: HttpResponse<()>)
        ensures
            r.status == 200,
            r.message@ == "OK"@,
            r.data == Some(()),
            r.error is None,
            r.trace_id is None,
    {
        HttpResponse {
            status: 200,
            message: owned("OK"),
            data: Some(()),
            error: None,
            trace_id: None,
            timestamp: now_seconds(),
        }
    }

    /// The response of an application error: its status, its message, its
    /// details and its trace id.
    pub fn from_app_error(error: AppError) -> (r: HttpResponse<()>)
        ensures
            r.status == status_of(error.code),
            r.message@ == error.message@,
            r.data is None,
            r.error is Some && r.error->0.code@ == code_name_spec(error.code) && r.error->0.message@
                == error.message@ && opt_chars(r.error->0.context) == opt_chars(error.context)
                && opt_chars(r.error->0.location) == opt_chars(error.location),
            opt_chars(r.trace_id) == opt_chars(error.trace_id),
    {
        let detail = ErrorDetail::from_app_error(&error);
        HttpResponse {
            status: error.code.status_code(),
            message: error.message,
            data: None,
            error: Some(detail),
            trace_id: error.trace_id,
            timestamp: now_seconds(),
        }
    }
}

} // verus!
