//! Authentication through a generic service parameter, resolved at compile time.

use vstd::prelude::*;
use crate::text::{owned, str_eq};

verus! {

/// Checks a user name and password.
pub trait AuthService {
    /// Whether the service accepts these credentials.
    spec fn accepts(&self, username: Seq<char>, password: Seq<char>) -> bool;

    fn authenticate(&self, username: &str, password: &str) -> (r: bool)
        ensures
            r == self.accepts(username@, password@),
    ;
}

/// Accepts only `admin` with `password`.
#[derive(Debug)]
pub struct JwtAuthService;

impl JwtAuthService {
    /// Whether these are the fixed administrator credentials.
    pub fn check(username: &str, password: &str) -> (r: bool)
        ensures
            r == (username@ == "admin"@ && password@ == "password"@),
    {
        str_eq(username, "admin") && str_eq(password, "password")
    }
}

impl AuthService for JwtAuthService {
    open spec fn accepts(&self, username: Seq<char>, password: Seq<char>) -> bool {
        username == "admin"@ && password == "password"@
    }

    fn authenticate(&self, username: &str, password: &str) -> (r: bool) {
        JwtAuthService::check(username, password)
    }
}

/// Accepts everyone.
#[derive(Debug)]
pub struct MockAuthService;

impl AuthService for MockAuthService {
    open spec fn accepts(&self, username: Seq<char>, password: Seq<char>) -> bool {
        true
    }

    fn authenticate(&self, username: &str, password: &str) -> (r: bool) {
        true
    }
}

/// Logs in through the given service: a token when it accepts the
/// credentials, else an error.
pub fn login<A: AuthService>(auth_service: A, username: &str, password: &str) -> (r: Result<
    String,
    &'static str,
>)
    ensures
        r is Ok <==> auth_service.accepts(username@, password@),
        r is Ok ==> r->Ok_0@ == "token_123"@,
        r is Err ==> r->Err_0@ == "认证失败"@,
{
    if auth_service.authenticate(username, password) {
        Ok(owned("token_123"))
    } else {
        Err("认证失败")
    }
}

/// Marks the generic-parameter approach.
#[derive(Debug)]
pub struct StaticDispatchPerformance;

} // verus!
