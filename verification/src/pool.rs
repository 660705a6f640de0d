//! The settings of a connection pool, with the values that stand in for
//! what the configuration leaves out.

use vstd::prelude::*;
use vstd::string::*;
use crate::text::{quote, quoted};

verus! {

/// The number of connections of a pool whose configuration names none.
pub const DEFAULT_MAX_CONNECTIONS: usize = 10;

/// The timeout, in milliseconds, that stands in for one that the
/// configuration does not name.
pub const DEFAULT_TIMEOUT_MS: u64 = 30000;

/// One setting as the configuration holds it.
#[derive(Clone, Copy, Debug, PartialEq, Eq, Structural)]
pub enum Setting<T> {
    /// The key is not set.
    Absent,
    /// The key is set to something that cannot be read.
    Invalid,
    /// The key is set to this value.
    Value(T),
}

/// The settings that a pool is built with. Timeouts are in milliseconds;
/// `None` is no timeout.
#[derive(Clone, Copy, Debug, PartialEq, Eq, Structural)]
pub struct PoolSettings {
    pub max_size: usize,
    pub create_timeout: u64,
    pub wait_timeout: Option<u64>,
    pub recycle_timeout: Option<u64>,
}

/// A setting that always has a value: the default stands in where the key
/// is not set or cannot be read.
pub open spec fn or_default<T>(setting: Setting<T>, default: T) -> T {
    match setting {
        Setting::Value(value) => value,
        _ => default,
    }
}

/// A timeout that may be switched off: the default stands in where the
/// key is not set, and there is no timeout where it cannot be read.
pub open spec fn optional_timeout(setting: Setting<u64>) -> Option<u64> {
    match setting {
        Setting::Value(value) => Some(value),
        Setting::Absent => Some(DEFAULT_TIMEOUT_MS),
        Setting::Invalid => None,
    }
}

/// The settings that follow from what the configuration holds.
pub open spec fn resolved(
    max_connections: Setting<usize>,
    create: Setting<u64>,
    wait: Setting<u64>,
    recycle: Setting<u64>,
) -> PoolSettings {
    PoolSettings {
        max_size: or_default(max_connections, DEFAULT_MAX_CONNECTIONS),
        create_timeout: or_default(create, DEFAULT_TIMEOUT_MS),
        wait_timeout: optional_timeout(wait),
        recycle_timeout: optional_timeout(recycle),
    }
}

/// The message for a pool that could not be built.
pub open spec fn failure_text(quoted_prefix: Seq<char>, reason: Seq<char>) -> Seq<char> {
    "Failed to build pool for "@ + quoted_prefix + ": "@ + reason
}

fn timeout(setting: Setting<u64>) -> (r: Option<u64>)
    ensures
        r == optional_timeout(setting),
{
    match setting {
        Setting::Value(value) => Some(value),
        Setting::Absent => Some(DEFAULT_TIMEOUT_MS),
        Setting::Invalid => None,
    }
}

impl PoolSettings {
    /// Settles the settings of a pool from what the configuration holds
    /// under `pool.max-connections`, `pool.timeout.create`,
    /// `pool.timeout.wait` and `pool.timeout.recycle`.
    pub fn resolve(
        max_connections: Setting<usize>,
        create: Setting<u64>,
        wait: Setting<u64>,
        recycle: Setting<u64>,
    ) -> (settings: PoolSettings)
        ensures
            settings == resolved(max_connections, create, wait, recycle),
    {
        PoolSettings {
            max_size: match max_connections {
                Setting::Value(value) => value,
                _ => DEFAULT_MAX_CONNECTIONS,
            },
            create_timeout: match create {
                Setting::Value(value) => value,
                _ => DEFAULT_TIMEOUT_MS,
            },
            wait_timeout: timeout(wait),
            recycle_timeout: timeout(recycle),
        }
    }
}

/// Puts the message for a pool that could not be built together from the
/// prefix as it is quoted and the builder's own words.
pub fn failure_message(quoted_prefix: &str, reason: &str) -> (text: String)
    ensures
        text@ == failure_text(quoted_prefix@, reason@),
{
    String::from_str("Failed to build pool for ").concat(quoted_prefix).concat(": ").concat(reason)
}

/// The message for the pool under `prefix` that could not be built for
/// `reason`.
pub fn build_failure(prefix: &str, reason: &str) -> (text: String)
    ensures
        text@ == failure_text(quoted(prefix@), reason@),
{
    let quoted_prefix = quote(prefix);
    failure_message(quoted_prefix.as_str(), reason)
}

} // verus!
