//! Stored credentials and profiles.

use vstd::prelude::*;

verus! {

/// A profile of the service, as stored.
#[derive(Debug, Clone, PartialEq, Eq)]
pub struct AuthProfile {
    pub arn: String,
    pub profile_name: String,
}

/// A secret value; its `Debug` form does not show it.
#[derive(Clone, PartialEq, Eq)]
pub struct Secret(pub String);

impl From<String> for Secret {
    fn from(value: String) -> (res: Self)
        ensures
            res == Secret(value),
    {
        Secret(value)
    }
}

impl vstd::std_specs::convert::FromSpecImpl<String> for Secret {
    open spec fn obeys_from_spec() -> bool {
        true
    }

    open spec fn from_spec(v: String) -> Self {
        Secret(v)
    }
}

/// The tables of the database.
#[derive(Debug, Clone, Copy, PartialEq, Eq, Structural)]
pub enum Table {
    /// SSO and Builder ID credentials.
    Auth,
}

impl Table {
    /// The table's name in the database.
    pub fn name(&self) -> (res: &'static str)
        ensures
            res@ == "auth_kv"@,
    {
        match self {
            Table::Auth => "auth_kv",
        }
    }
}

} // verus!
