use vstd::prelude::*;
use vstd::string::*;

verus! {

/// Address the server binds to when none is configured.
pub const DEFAULT_BIND: &'static str = "0.0.0.0:8080";

/// Base URL of the downstream service when none is configured.
pub const DEFAULT_DOWNSTREAM_URL: &'static str = "http://go-deploy1-svc:8080";

/// Settings read once at startup and held for the life of the process.
pub struct Config {
    pub bind: String,
    pub downstream_url: String,
}

/// A configured value, or the default where none was given.
pub open spec fn setting_or(given: Option<String>, default: Seq<char>) -> Seq<char> {
    match given {
        Some(v) => v@,
        None => default,
    }
}

/// A configured value, or the default `default` where none was given.
pub fn setting_or_default(given: Option<String>, default: &str) -> (r: String)
    ensures
        r@ == setting_or(given, default@),
{
    match given {
        Some(v) => v,
        None => String::from_str(default),
    }
}

impl Config {
    /// The settings from what the environment gave: each value that is
    /// present is taken as it is, each one that is missing falls back to
    /// its default.
    pub fn resolve(bind: Option<String>, downstream_url: Option<String>) -> (r: Config)
        ensures
            r.bind@ == setting_or(bind, DEFAULT_BIND@),
            r.downstream_url@ == setting_or(downstream_url, DEFAULT_DOWNSTREAM_URL@),
    {
        Config {
            bind: setting_or_default(bind, DEFAULT_BIND),
            downstream_url: setting_or_default(downstream_url, DEFAULT_DOWNSTREAM_URL),
        }
    }
}

} // verus!
