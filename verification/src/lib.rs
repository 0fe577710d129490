//! A small client library for a distributed-tracing backend's query API.
//!
//! The library builds the request for the trace-query endpoint: it maps the
//! logical endpoint to its URL, renders the optional time-range and
//! result-count filters as decimal query parameters, and applies them to an
//! outgoing request. Performing the network call is left to the caller.

pub mod api;
pub mod digits;
pub mod http;
