//! A verified model of a minimal health-check service: configuration
//! loading, the startup state machine, and the handler that maps a database
//! outcome to an HTTP response. The network, the database driver and the
//! environment live outside; this crate holds every decision they feed.

pub mod config;
pub mod health;
pub mod server;

