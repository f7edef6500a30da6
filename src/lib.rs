//! A streaming client for a market-data feed: the subscription envelope,
//! the decoding of inbound updates and the session's decisions, each with
//! its contract.
pub mod config;
pub mod error;
pub mod json;
pub mod models;
pub mod session;
pub mod laws;
