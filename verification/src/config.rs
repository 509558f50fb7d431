//! Handler configuration: the two diagnostic-only values read from the
//! environment, resolved once at process start with their declared
//! defaults. They never influence a decision; the authorizer only logs
//! them.

use vstd::prelude::*;

verus! {

/// The configuration a handler process runs with.
#[derive(Debug)]
pub struct HandlerConfig {
    pub username: String,
    pub password: String,
}

/// The value a configuration entry resolves to: the environment's value
/// where one is set, else the default `"null"`.
pub open spec fn resolved(entry: Option<String>) -> Seq<char> {
    match entry {
        Some(v) => v@,
        None => "null"@,
    }
}

/// Resolve the configuration from what the environment held at startup.
pub fn resolve_config(username: Option<String>, password: Option<String>) -> (r: HandlerConfig)
    ensures
        r.username@ == resolved(username),
        r.password@ == resolved(password),
{
    let username = match username {
        Some(v) => v,
        None => "null".to_owned(),
    };
    let password = match password {
        Some(v) => v,
        None => "null".to_owned(),
    };
    HandlerConfig { username, password }
}

} // verus!
