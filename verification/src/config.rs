//! The settings that the service is started with.

use vstd::prelude::*;

verus! {

/// The settings of a running service. They are read once, at the start.
#[derive(Debug)]
pub struct Config {
    pub database_url: String,
    pub rust_log: String,
    pub jwt_secret: String,
}

/// The log filter that is used where none is given.
pub open spec fn default_log_filter() -> Seq<char> {
    "axum_api=debug"@
}

impl Config {
    /// Makes the settings from the values found in the environment. The
    /// store's address and the secret are required; the log filter has a
    /// default.
    pub fn parse(database_url: String, rust_log: Option<String>, jwt_secret: String) -> (r: Self)
        ensures
            r.database_url == database_url,
            r.jwt_secret == jwt_secret,
            r.rust_log@ == match rust_log {
                Some(filter) => filter@,
                None => default_log_filter(),
            },
    {
        Config {
            database_url,
            rust_log: match rust_log {
                Some(filter) => filter,
                None => String::from_str("axum_api=debug"),
            },
            jwt_secret,
        }
    }
}

} // verus!
