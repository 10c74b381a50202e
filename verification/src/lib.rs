//! Core of a typed client for a time-series database's HTTP management API
//! (buckets, health, readiness).
//!
//! The library holds the pure halves of each API call: encoding filter
//! parameters into a query string, building an authenticated outbound
//! request, and classifying a raw response into a typed result or a
//! structured error. The network transport itself is left to the caller,
//! who executes an [`request::OutboundRequest`] and hands the resulting
//! [`response::RawResponse`] back.

pub mod client;
pub mod json;
pub mod models;
pub mod query;
pub mod request;
pub mod response;
pub mod text;
