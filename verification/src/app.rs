//! The application and server markers. Bootstrapping — reading the
//! environment, opening connections, serving HTTP — is I/O plumbing that
//! lives outside the library; what remains here is the configuration
//! predicate the bootstrap decides with.

use vstd::prelude::*;
use crate::config::Config;

verus! {

pub struct Application {}

impl Application {
    /// Whether the process configuration names `env` as the running
    /// environment.
    pub fn env_is(config: &Config, env: String) -> (r: bool)
        ensures
            r == (config.env@ == env@),
    {
        config.env(env)
    }
}

/// Marker for the HTTP serving loop wrapped around the authorization gate.
pub struct Server {}

} // verus!
