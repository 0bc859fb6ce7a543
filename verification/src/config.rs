//! Process configuration as plain values. Reading the environment and any
//! `.env` file happens outside the library; a filled [`Config`] is handed in
//! once at startup and passed explicitly to whoever needs it.

use vstd::prelude::*;

verus! {

pub const ACTOR_FOR_EVERY_WORKER: usize = 2;

pub const WORKER: usize = 1;

/// Seconds within which a repeated request counts as a duplicate.
pub const RATE_LIMIT_DETECT_DUPLICATE_TIME: usize = 2;

/// Seconds a cached user-core entry stays warm.
pub const CACHE_USER_CORE_TIME: usize = 30 * 60;

/// Everything the process reads from its environment at boot.
pub struct Config {
    pub env: String,
    pub rust_log: String,
    pub server: String,
    pub actor_for_every_worker: usize,
    pub worker: usize,
    pub rate_limit_detect_duplicate_time: usize,
    pub sentry_url: String,
    pub rabbitmq_uri: String,
    pub user_core_api_url: String,
    pub user_core_api_key: String,
    pub iam_api: String,
    pub iam_key: String,
    pub redis_uri: String,
}

impl Config {
    /// Whether this configuration runs in the environment named `val`.
    pub fn env(&self, val: String) -> (r: bool)
        ensures
            r == (self.env@ == val@),
    {
        if self.env == val {
            return true;
        }
        false
    }
}

} // verus!
