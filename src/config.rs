//! Connection parameters of the broker session.
use vstd::prelude::*;

verus! {

/// A username and password for the broker.
#[derive(Debug, PartialEq, Eq)]
pub struct Credentials {
    pub username: String,
    pub password: String,
}

/// A configuration that cannot be used.
#[derive(Debug, Clone, Copy, PartialEq, Eq, Structural)]
pub enum ConfigError {
    /// Only one of username and password was given.
    PartialCredentials,
}

/// Where and as whom a broker session connects.
#[derive(Debug, PartialEq, Eq)]
pub struct BrokerConfig {
    pub host: String,
    pub port: u16,
    pub client_id: String,
    pub credentials: Option<Credentials>,
}

/// Pairs an optional username with an optional password: both or neither must be given.
pub fn credential_pair(username: Option<String>, password: Option<String>) -> (r: Result<
    Option<Credentials>,
    ConfigError,
>)
    ensures
        match (username, password) {
            (Some(u), Some(p)) => r == Ok::<Option<Credentials>, ConfigError>(
                Some(Credentials { username: u, password: p }),
            ),
            (None, None) => r == Ok::<Option<Credentials>, ConfigError>(None),
            _ => r == Err::<Option<Credentials>, ConfigError>(ConfigError::PartialCredentials),
        },
{
    match (username, password) {
        (Some(u), Some(p)) => Ok(Some(Credentials { username: u, password: p })),
        (None, None) => Ok(None),
        _ => Err(ConfigError::PartialCredentials),
    }
}

impl BrokerConfig {
    /// A configuration from its parts; a lone username or password is refused.
    pub fn new(
        host: String,
        port: u16,
        client_id: String,
        username: Option<String>,
        password: Option<String>,
    ) -> (r: Result<BrokerConfig, ConfigError>)
        ensures
            match (username, password) {
                (Some(u), Some(p)) => r == Ok::<BrokerConfig, ConfigError>(
                    BrokerConfig {
                        host,
                        port,
                        client_id,
                        credentials: Some(Credentials { username: u, password: p }),
                    },
                ),
                (None, None) => r == Ok::<BrokerConfig, ConfigError>(
                    BrokerConfig { host, port, client_id, credentials: None },
                ),
                _ => r == Err::<BrokerConfig, ConfigError>(ConfigError::PartialCredentials),
            },
    {
        match credential_pair(username, password) {
            Ok(credentials) => Ok(BrokerConfig { host, port, client_id, credentials }),
            Err(e) => Err(e),
        }
    }
}

} // verus!
