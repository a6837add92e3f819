//! Authentication selected by a constant parameter.

use vstd::prelude::*;
use crate::text::{owned, str_eq};

verus! {

/// Selects the credential check.
pub const JWT_AUTH: usize = 0;

/// Selects the service that accepts everyone.
pub const MOCK_AUTH: usize = 1;

/// Logs in through the service that `SERVICE` selects.
pub fn login<const SERVICE: usize>(username: &str, password: &str) -> (r: Result<String, &'static str>)
    requires
        SERVICE == JWT_AUTH || SERVICE == MOCK_AUTH,
    ensures
        SERVICE == JWT_AUTH ==> (r is Ok <==> (username@ == "admin"@ && password@ == "password"@)),
        SERVICE == JWT_AUTH && r is Ok ==> r->Ok_0@ == "token_123"@,
        SERVICE == MOCK_AUTH ==> r is Ok && r->Ok_0@ == "mock_token"@,
        r is Err ==> r->Err_0@ == "认证失败"@,
{
    if SERVICE == JWT_AUTH {
        if str_eq(username, "admin") && str_eq(password, "password") {
            Ok(owned("token_123"))
        } else {
            Err("认证失败")
        }
    } else {
        Ok(owned("mock_token"))
    }
}

/// Marks the constant-parameter approach.
#[derive(Debug)]
pub struct ConstGenericPerformance;

} // verus!
