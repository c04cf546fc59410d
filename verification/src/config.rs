//! Configuration values and the rules that complete them.
//!
//! Reading the configuration file and the process environment is the
//! application layer's business; this module owns the pure part of
//! loading: which file each configuration item lives in, how a value read
//! from the environment overrides one read from the file, which fields
//! fall back to defaults, and when the configuration is complete.

use vstd::prelude::*;

use crate::error::Error;

verus! {

/// The files kept in the configuration directory.
#[derive(Debug, PartialEq, Eq, Copy, Clone, Structural)]
pub enum ConfigFile {
    /// The cached authentication token.
    Token,
    /// The configuration values.
    Config,
}

impl ConfigFile {
    /// The file name under which this file is stored.
    pub open spec fn spec_file_name(self) -> Seq<char> {
        match self {
            ConfigFile::Token => "token.json"@,
            ConfigFile::Config => "config.toml"@,
        }
    }

    /// The file name under which this file is stored.
    pub fn file_name(&self) -> (r: &'static str)
        ensures
            r@ == self.spec_file_name(),
    {
        match self {
            ConfigFile::Token => "token.json",
            ConfigFile::Config => "config.toml",
        }
    }
}

/// A complete set of configuration values.
#[derive(Debug, Clone, PartialEq, Eq)]
pub struct Config {
    /// The application's client id; required.
    pub client_id: String,
    /// The application's client secret; required.
    pub client_secret: String,
    /// Where the authentication flow redirects; defaulted when absent.
    pub redirect_uri: String,
    /// How many percentage points a volume step moves; defaulted when
    /// absent.
    pub volume_increment: u8,
}

/// The values one source (the configuration file, or the process
/// environment) provides; every field may be absent.
#[derive(Debug, Clone, PartialEq, Eq)]
pub struct ConfigSource {
    /// The application's client id, if this source names one.
    pub client_id: Option<String>,
    /// The application's client secret, if this source names one.
    pub client_secret: Option<String>,
    /// The redirect target, if this source names one.
    pub redirect_uri: Option<String>,
    /// The volume step, if this source names one.
    pub volume_increment: Option<u8>,
}

/// The redirect target used when neither source names one.
pub open spec fn default_redirect_uri() -> Seq<char> {
    "http://localhost:8000/callback"@
}

/// The volume step used when neither source names one.
pub open spec fn default_volume_increment() -> u8 {
    10
}

/// The value a field takes when both sources may name one: the
/// environment's value wins over the file's.
pub open spec fn spec_first<T>(env: Option<T>, file: Option<T>) -> Option<T> {
    if env is Some {
        env
    } else {
        file
    }
}

/// Whether the two sources together form a complete configuration: both
/// required fields are named by at least one source.
pub open spec fn spec_config_complete(file: ConfigSource, env: ConfigSource) -> bool {
    spec_first(env.client_id, file.client_id) is Some && spec_first(
        env.client_secret,
        file.client_secret,
    ) is Some
}

/// Combine the values read from the configuration file and from the
/// process environment into a complete configuration.
///
/// For every field the environment wins over the file; `redirect_uri` and
/// `volume_increment` fall back to their defaults, while `client_id` and
/// `client_secret` have none, so the call fails, naming the path of the
/// configuration file, exactly when either is absent from both sources.
pub fn load_config(config_path: &str, file: ConfigSource, env: ConfigSource) -> (r: Result<
    Config,
    Error,
>)
    ensures
        match r {
            Ok(c) => {
                &&& spec_config_complete(file, env)
                &&& spec_first(env.client_id, file.client_id) matches Some(v) && c.client_id@
                    == v@
                &&& spec_first(env.client_secret, file.client_secret) matches Some(v)
                    && c.client_secret@ == v@
                &&& c.redirect_uri@ == match spec_first(env.redirect_uri, file.redirect_uri) {
                    Some(v) => v@,
                    None => default_redirect_uri(),
                }
                &&& c.volume_increment == match spec_first(
                    env.volume_increment,
                    file.volume_increment,
                ) {
                    Some(v) => v,
                    None => default_volume_increment(),
                }
            },
            Err(e) => {
                &&& !spec_config_complete(file, env)
                &&& e matches Error::IncompleteConfig(p) && p@ == config_path@
            },
        },
{
    let client_id = match (env.client_id, file.client_id) {
        (Some(v), _) => v,
        (None, Some(v)) => v,
        (None, None) => {
            return Err(Error::IncompleteConfig(config_path.to_owned()));
        },
    };
    let client_secret = match (env.client_secret, file.client_secret) {
        (Some(v), _) => v,
        (None, Some(v)) => v,
        (None, None) => {
            return Err(Error::IncompleteConfig(config_path.to_owned()));
        },
    };
    let redirect_uri = match (env.redirect_uri, file.redirect_uri) {
        (Some(v), _) => v,
        (None, Some(v)) => v,
        (None, None) => default_redirect_uri_str(),
    };
    let volume_increment = match (env.volume_increment, file.volume_increment) {
        (Some(v), _) => v,
        (None, Some(v)) => v,
        (None, None) => 10,
    };
    Ok(Config { client_id, client_secret, redirect_uri, volume_increment })
}

/// The default redirect target as an owned string.
fn default_redirect_uri_str() -> (s: String)
    ensures
        s@ == default_redirect_uri(),
{
    "http://localhost:8000/callback".to_owned()
}

} // verus!
