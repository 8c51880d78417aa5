//! A small request adapter for an authenticated HTTP API.
//!
//! The adapter merges caller-supplied query parameters with a configured
//! API key, builds a GET request descriptor against a fixed base URL, hands
//! it to a host-supplied HTTP capability, and unwraps the textual response
//! body, aborting on any of three failure conditions.

pub mod adapter;
pub mod http;
pub mod params;
