//! Configuration loading: the database connection string comes from the
//! process environment, and its absence is a fatal startup error.

use vstd::prelude::*;

verus! {

/// The configuration the server runs with: the database connection string.
#[derive(Debug)]
pub struct Config {
    pub database_url: String,
}

/// The fatal startup errors: each one terminates the process before any
/// request is served.
#[derive(Clone, Copy, Debug, PartialEq, Eq, Structural)]
pub enum StartupError {
    /// The environment variable holding the connection string was not set.
    MissingDatabaseUrl,
    /// The connection string was malformed, so the pool could not be built.
    InvalidDatabaseUrl,
    /// The listening address could not be bound.
    BindFailed,
}

impl StartupError {
    /// The fatal message written for this error before the process exits.
    pub open spec fn spec_message(self) -> Seq<char> {
        match self {
            StartupError::MissingDatabaseUrl => "DATABASE_URL must be set in .env"@,
            StartupError::InvalidDatabaseUrl => "Failed to create database pool"@,
            StartupError::BindFailed => "Failed to bind the listening address"@,
        }
    }

    /// The descriptive text of this fatal error.
    pub fn message(&self) -> (r: &'static str)
        ensures
            r@ == self.spec_message(),
    {
        match self {
            StartupError::MissingDatabaseUrl => "DATABASE_URL must be set in .env",
            StartupError::InvalidDatabaseUrl => "Failed to create database pool",
            StartupError::BindFailed => "Failed to bind the listening address",
        }
    }
}

impl Config {
    /// Decide the configuration from the value the environment held for the
    /// connection-string variable: a present value is taken as is, an absent
    /// one is the fatal error that stops startup.
    pub fn from_env_value(value: Option<String>) -> (r: Result<Config, StartupError>)
        ensures
            match value {
                Some(url) => r matches Ok(c) && c.database_url@ == url@,
                None => r matches Err(e) && e == StartupError::MissingDatabaseUrl,
            },
    {
        match value {
            Some(url) => Ok(Config { database_url: url }),
            None => Err(StartupError::MissingDatabaseUrl),
        }
    }
}

/// The name of the environment variable that holds the connection string.
pub fn database_url_key() -> (r: &'static str)
    ensures
        r@ == "DATABASE_URL"@,
{
    "DATABASE_URL"
}

} // verus!
