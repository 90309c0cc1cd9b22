//! A typed client core for the Lemon markets REST API.
//!
//! The crate models the request/response cycle of the service: building
//! authorized requests (paths, query strings, JSON bodies), decoding the
//! uniform response envelopes, and classifying failures into transport,
//! remote and decode errors.  The network exchange itself is left to the
//! caller, who performs the prepared request and hands the resulting
//! status and body back to the response handlers.

pub mod api;
pub mod client;
pub mod data_client;
pub mod error;
pub mod http;
pub mod json;
pub mod query;
pub mod text;
