//! Process-wide configuration, read once at startup and passed by
//! reference: no component reads ambient global state.
//!
//! The signing secret has no fallback on purpose: a process without one
//! must fail to configure rather than silently sign tokens with a
//! well-known default.

use vstd::prelude::*;

verus! {

/// Why the process configuration cannot be built.
#[derive(Clone, Copy, PartialEq, Eq, Structural, Debug)]
pub enum ConfigError {
    /// No token-signing secret was provided.
    MissingSecret,
}

/// The record-store location used when none is configured.
pub open spec fn spec_default_database_url() -> Seq<char> {
    "sqlite:assistant.db"@
}

/// Immutable process configuration: the token-signing secret and the
/// record-store location.
pub struct Config {
    pub jwt_secret: String,
    pub database_url: String,
}

impl Config {
    /// Build the configuration from the values the environment supplied.
    /// An absent signing secret is a startup failure; an absent store
    /// location falls back to the default.
    pub fn new(jwt_secret: Option<String>, database_url: Option<String>) -> (r: Result<
        Config,
        ConfigError,
    >)
        ensures
            match jwt_secret {
                None => r matches Err(ConfigError::MissingSecret),
                Some(s) => r matches Ok(c) && c.jwt_secret == s && c.database_url@ == (
                match database_url {
                    Some(d) => d@,
                    None => spec_default_database_url(),
                }),
            },
    {
        let secret = match jwt_secret {
            None => {
                return Err(ConfigError::MissingSecret);
            },
            Some(s) => s,
        };
        let database_url = match database_url {
            Some(d) => d,
            None => "sqlite:assistant.db".to_owned(),
        };
        Ok(Config { jwt_secret: secret, database_url })
    }
}

} // verus!
