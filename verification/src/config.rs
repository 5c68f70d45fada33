//! The service's typed configuration.
//!
//! Three sections are mandatory (`http`, `es`, `auth`), the monitor is
//! optional and the token lifetimes default to thirty seconds. Loading
//! from a file or the environment happens outside the library, which
//! receives the plain values.

use vstd::prelude::*;

verus! {

/// Where the search engine lives and which index the service owns.
#[derive(Debug, Clone)]
pub struct ES {
    pub url: String,
    pub index: String,
}

/// Where the service listens.
#[derive(Debug, Clone)]
pub struct HTTP {
    pub host: String,
    pub port: u32,
}

/// The shared secrets that grant read and write access.
#[derive(Debug, Clone)]
pub struct Auth {
    pub enabled: bool,
    pub read: String,
    pub write: String,
}

/// The crash-monitor sink, when one is configured.
#[derive(Debug, Clone)]
pub struct Monitor {
    pub provider: String,
    pub enabled: bool,
    pub access_token: String,
    pub environment: String,
}

/// The per-mode lifetime, in seconds, of an access code.
#[derive(Debug, Clone)]
pub struct TokensLifetime {
    pub read: u64,
    pub write: u64,
}

impl Default for TokensLifetime {
    /// Thirty seconds for either mode.
    fn default() -> (r: TokensLifetime)
        ensures
            r.read == 30,
            r.write == 30,
    {
        TokensLifetime { read: 30, write: 30 }
    }
}

/// The token section of the configuration.
#[derive(Debug, Clone)]
pub struct Tokens {
    pub lifetime: TokensLifetime,
}

impl Default for Tokens {
    /// The default lifetimes.
    fn default() -> (r: Tokens)
        ensures
            r.lifetime.read == 30,
            r.lifetime.write == 30,
    {
        Tokens { lifetime: TokensLifetime { read: 30, write: 30 } }
    }
}

/// The whole configuration record.
#[derive(Debug, Clone)]
pub struct Config {
    pub http: HTTP,
    pub es: ES,
    pub auth: Auth,
    pub tokens: Tokens,
    pub monitor: Option<Monitor>,
}

} // verus!
