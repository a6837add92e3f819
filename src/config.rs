//! The deployment environment of the gateway.

use vstd::prelude::*;
use crate::text::{lower_of, str_eq, to_lower};

verus! {

/// The deployment environment.
#[derive(Debug, Clone, Copy, PartialEq, Eq, Structural)]
pub enum Environment {
    Development,
    Test,
    Staging,
    Production,
}

/// The environment that a lower-case name selects; anything unknown is development.
pub open spec fn environment_of(l: Seq<char>) -> Environment {
    if l == "production"@ || l == "prod"@ {
        Environment::Production
    } else if l == "staging"@ {
        Environment::Staging
    } else if l == "test"@ {
        Environment::Test
    } else {
        Environment::Development
    }
}

impl Environment {
    /// The environment named by `name`, in any case; unknown names select
    /// development. The caller reads the name from `APP_ENV` or `RUST_ENV`.
    pub fn from_name(name: &str) -> (r: Environment)
        ensures
            r == environment_of(lower_of(name@)),
    {
        let l = to_lower(name);
        let l = l.as_str();
        if str_eq(l, "production") || str_eq(l, "prod") {
            Environment::Production
        } else if str_eq(l, "staging") {
            Environment::Staging
        } else if str_eq(l, "test") {
            Environment::Test
        } else {
            Environment::Development
        }
    }

    pub fn is_production(&self) -> (r: bool)
        ensures
            r == (*self == Environment::Production),
    {
        *self == Environment::Production
    }

    pub fn is_development(&self) -> (r: bool)
        ensures
            r == (*self == Environment::Development),
    {
        *self == Environment::Development
    }

    pub fn is_test(&self) -> (r: bool)
        ensures
            r == (*self == Environment::Test),
    {
        *self == Environment::Test
    }

    pub open spec fn name_spec(self) -> Seq<char> {
        match self {
            Environment::Development => "development"@,
            Environment::Test => "test"@,
            Environment::Staging => "staging"@,
            Environment::Production => "production"@,
        }
    }

    /// The environment's name.
    pub fn name(&self) -> (r: &'static str)
        ensures
            r@ == self.name_spec(),
    {
        match self {
            Environment::Development => "development",
            Environment::Test => "test",
            Environment::Staging => "staging",
            Environment::Production => "production",
        }
    }
}

} // verus!
