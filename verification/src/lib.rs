//! Core of an ingestion service: records arrive over a network API, are
//! validated and routed to a per-content-type topic on a publish/subscribe
//! message bus, and the caller is told which records went through.
//!
//! This library holds the decision logic — validation policy, topic routing,
//! single-item and batch ingestion semantics, and partial-failure
//! aggregation — each function with a verified contract. The transport
//! (HTTP handlers, the bus connection, configuration from the environment)
//! lives outside the library and hands it plain values.

pub mod config;
pub mod error;
pub mod models;
pub mod routes;
pub mod routing;
pub mod validate;
mod sys;
