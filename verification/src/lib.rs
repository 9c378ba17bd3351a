//! Collection and publication core of a Mastodon metrics exporter.
//!
//! The crate decides what each polled response contributes to a set of
//! labelled gauges and renders those gauges as a scrape body. Network
//! access, scheduling and configuration files live with the caller; every
//! function here works on plain values and states its effect as a contract.

pub mod collectors;
pub mod config;
pub mod cycle;
pub mod decimal;
pub mod fetch;
pub mod laws;
pub mod mastodon;
pub mod metrics;
pub mod ratelimit;
pub mod registry;
pub mod series;
pub mod timestamp;
