//! The manager installed once at server startup.

use vstd::prelude::*;
use crate::config::{Config, ConfigView, spec_default_config};

verus! {

/// Middleware providing user login management.
///
/// Holds the signing key for the cookie transport and the configuration
/// every request reads.  The server wiring installs both around a handler:
/// the key goes to the layer that verifies and signs cookies, the
/// configuration is published to each request.  Immutable once installed.
pub struct LoginManager {
    signing_key: Vec<u8>,
    /// Configuration for this manager.
    pub config: Config,
}

impl LoginManager {
    /// The signing key this manager was constructed with.
    pub closed spec fn key(&self) -> Seq<u8> {
        self.signing_key@
    }

    /// The configuration, as contracts speak of it.
    pub closed spec fn spec_config(&self) -> ConfigView {
        self.config@
    }

    /// Construct a new login middleware using the provided signing key.
    pub fn new(signing_key: Vec<u8>) -> (r: LoginManager)
        ensures
            r.key() == signing_key@,
            r.spec_config() == spec_default_config(),
    {
        LoginManager { signing_key, config: Config::defaults() }
    }

    /// The signing key, for the transport layer that installs the manager.
    pub fn signing_key(&self) -> (r: &Vec<u8>)
        ensures
            r@ == self.key(),
    {
        &self.signing_key
    }
}

} // verus!
