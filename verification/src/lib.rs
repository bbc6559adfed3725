//! Typed client for a remote media-pipeline control daemon speaking HTTP+JSON.
//!
//! The crate models the daemon's wire protocol: the uniform response envelope
//! with its status-code enumeration and payload variants, the decoder that
//! resolves the payload shape in a fixed order, the percent-encoded request
//! paths composed by the resource handles, and the client that owns the base
//! address. Sending requests over the network is left to the embedding
//! application; everything that can be computed from plain values is here.
pub mod client;
pub mod support;
pub mod envelope;
pub mod errors;
pub mod gstd_types;
pub mod json;
pub mod percent;
pub mod resources;
