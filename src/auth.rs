//! Users and login requests of the gateway's authentication slice, with the
//! in-memory user store used in development.

use vstd::prelude::*;
use crate::error::AppError;
use vstd::string::StringExecFns;
use crate::text::{owned, str_eq};

verus! {

/// A login attempt.
#[derive(Debug)]
pub struct LoginRequest {
    pub username: String,
    pub password: String,
}

/// Failures of authentication.
#[derive(Debug)]
pub enum AuthError {
    InvalidCredentials,
    UserNotFound,
    TokenExpired,
    InvalidToken,
    Database(String),
}

/// A user account.
#[derive(Debug)]
pub struct User {
    pub id: String,
    pub username: String,
    pub password_hash: String,
}

impl User {
    /// A field-by-field copy.
    pub fn duplicate(&self) -> (r: User)
        ensures
            r.id@ == self.id@,
            r.username@ == self.username@,
            r.password_hash@ == self.password_hash@,
    {
        User {
            id: self.id.clone(),
            username: self.username.clone(),
            password_hash: self.password_hash.clone(),
        }
    }
}

/// The user store that the authentication slice consults.
pub trait UserRepository {
    fn find_by_username(&self, username: &str) -> Result<Option<User>, AppError>;

    fn verify_credentials(&self, username: &str, password: &str) -> Result<bool, AppError>;
}

/// A fixed in-memory user store: the single user `testuser`, whose password
/// is `password123`.
#[derive(Debug)]
pub struct MemoryUserRepository {
    users: Vec<User>,
}

impl MemoryUserRepository {
    /// The user names held, in order.
    pub closed spec fn usernames(&self) -> Seq<Seq<char>> {
        self.users@.map_values(|u: User| u.username@)
    }

    pub fn new() -> (r: MemoryUserRepository)
        ensures
            r.usernames() == seq!["testuser"@],
    {
        let mut users: Vec<User> = Vec::new();
        users.push(
            User {
                id: owned("user123"),
                username: owned("testuser"),
                password_hash: owned("hashed_password"),
            },
        );
        let r = MemoryUserRepository { users };
        assert(r.usernames() =~= seq!["testuser"@]);
        r
    }

    /// The first user named `username`.
    pub fn find_user(&self, username: &str) -> (r: Option<User>)
        ensures
            r is Some <==> self.usernames().contains(username@),
            r is Some ==> r->0.username@ == username@,
    {
        let mut i: usize = 0;
        while i < self.users.len()
            invariant
                i <= self.users@.len(),
                forall|k: int| 0 <= k < i ==> self.usernames()[k] != username@,
            decreases self.users.len() - i,
        {
            if str_eq(self.users[i].username.as_str(), username) {
                assert(self.usernames()[i as int] == username@);
                return Some(self.users[i].duplicate());
            }
            i = i + 1;
        }
        None
    }

    /// Known users are accepted with the fixed development password.
    pub fn check_credentials(&self, username: &str, password: &str) -> (r: bool)
        ensures
            r == (self.usernames().contains(username@) && password@ == "password123"@),
    {
        match self.find_user(username) {
            Some(_) => str_eq(password, "password123"),
            None => false,
        }
    }
}

impl UserRepository for MemoryUserRepository {
    fn find_by_username(&self, username: &str) -> (r: Result<Option<User>, AppError>)
        ensures
            r is Ok,
            r->Ok_0 is Some <==> self.usernames().contains(username@),
            r->Ok_0 is Some ==> r->Ok_0->0.username@ == username@,
    {
        Ok(self.find_user(username))
    }

    fn verify_credentials(&self, username: &str, password: &str) -> (r: Result<bool, AppError>)
        ensures
            r == Ok::<bool, AppError>(self.usernames().contains(username@) && password@ == "password123"@),
    {
        Ok(self.check_credentials(username, password))
    }
}

impl AuthError {
    pub open spec fn message_spec(&self) -> Seq<char> {
        match self {
            AuthError::InvalidCredentials => "无效的凭证"@,
            AuthError::UserNotFound => "用户不存在"@,
            AuthError::TokenExpired => "令牌已过期"@,
            AuthError::InvalidToken => "令牌无效"@,
            AuthError::Database(m) => "数据库错误: "@ + m@,
        }
    }

    /// The error as text.
    pub fn message(&self) -> (r: String)
        ensures
            r@ == self.message_spec(),
    {
        match self {
            AuthError::InvalidCredentials => owned("无效的凭证"),
            AuthError::UserNotFound => owned("用户不存在"),
            AuthError::TokenExpired => owned("令牌已过期"),
            AuthError::InvalidToken => owned("令牌无效"),
            AuthError::Database(m) => {
                let mut s = owned("数据库错误: ");
                s.append(m.as_str());
                s
            },
        }
    }
}

} // verus!
