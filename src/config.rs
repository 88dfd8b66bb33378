//! Connection settings read from the environment.
use vstd::prelude::*;

use crate::text::{parse_u64, u64_parse_error, unsigned_decimal};

verus! {

/// The connection-acquisition timeout, in seconds, where none or no valid one is configured.
pub const DEFAULT_CONNECTION_TIMEOUT_SECS: u64 = 30;

/// The timeout that a configured value gives, where it is a valid number of seconds.
pub open spec fn configured_timeout(value: Option<&str>) -> Option<int> {
    match value {
        Some(s) => match unsigned_decimal(s@) {
            Some(v) => if v <= u64::MAX {
                Some(v)
            } else {
                None
            },
            None => None,
        },
        None => None,
    }
}

/// Why the default timeout was taken in place of a configured one.
#[derive(Debug, PartialEq, Eq)]
pub enum TimeoutFallback {
    /// No value is configured.
    Missing,
    /// The configured value is not a number of seconds; the text is the parser's message.
    Unparsable(String),
}

/// The connection-acquisition timeout to use, and why the default was taken, if it was.
#[derive(Debug, PartialEq, Eq)]
pub struct ConnectionTimeout {
    pub secs: u64,
    pub fallback: Option<TimeoutFallback>,
}

/// Reads the configured timeout value, if any. An absent or unreadable value
/// gives the default, with the reason.
pub fn resolve_connection_timeout(value: Option<&str>) -> (r: ConnectionTimeout)
    ensures
        r.secs == (match configured_timeout(value) {
            Some(v) => v,
            None => DEFAULT_CONNECTION_TIMEOUT_SECS as int,
        }),
        value is None <==> r.fallback == Some(TimeoutFallback::Missing),
        value matches Some(s) ==> (configured_timeout(value) is Some <==> r.fallback is None),
        value matches Some(s) ==> (r.fallback matches Some(TimeoutFallback::Unparsable(e)) ==> e@
            == u64_parse_error(s@)),
{
    match value {
        Some(s) => match parse_u64(s) {
            Ok(v) => ConnectionTimeout { secs: v, fallback: None },
            Err(e) => ConnectionTimeout {
                secs: DEFAULT_CONNECTION_TIMEOUT_SECS,
                fallback: Some(TimeoutFallback::Unparsable(e)),
            },
        },
        None => ConnectionTimeout {
            secs: DEFAULT_CONNECTION_TIMEOUT_SECS,
            fallback: Some(TimeoutFallback::Missing),
        },
    }
}

/// The connection-acquisition timeout in seconds, given the configured value
/// if any. An absent or unreadable value gives the default.
pub fn connection_timeout_secs(value: Option<&str>) -> (r: u64)
    ensures
        r == (match configured_timeout(value) {
            Some(v) => v,
            None => DEFAULT_CONNECTION_TIMEOUT_SECS as int,
        }),
{
    resolve_connection_timeout(value).secs
}

} // verus!
