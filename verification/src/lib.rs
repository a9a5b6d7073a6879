//! Client library for a remote heartbeat-monitoring service.
//!
//! A monitor ("check") reports in on a schedule; the service tracks its
//! state.  This crate holds the verified core of a command-line client
//! for that service: the `Check` entity with its derived identifiers
//! and display-ready timestamp views, and the `ApiClient` layer that
//! validates inputs, builds each request, and classifies every outcome
//! into one of four failure kinds.  The HTTP transport and the JSON
//! decoding of responses live with the caller, which hands outcomes
//! back as plain values.

pub mod check;
pub mod client;
pub mod error;
pub mod payload;
pub mod text;
pub mod timestamp;
