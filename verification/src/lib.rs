//! A client library for a transactional-email REST service.
//!
//! The heart of the crate is the shared request-dispatch layer: a [`Config`]
//! owns the credential, the base URL, the user agent and the transport, and
//! every resource facade routes its calls through it.  Request construction,
//! response classification and the admission discipline of the rate limiter
//! are all specified and verified here; the network itself is driven by the
//! caller, outside this crate.

use vstd::prelude::*;

pub use client::Client;

pub mod client;
pub mod config;
pub mod contacts;
pub mod emails;
pub mod jsonfmt;
pub mod limit;
pub mod request;

verus! {

/// The structured error body that the remote service returns for client and
/// server error statuses: a stable error-kind identifier and a readable
/// message.
#[derive(Debug, Clone)]
pub struct ErrorResponse {
    /// Stable identifier of the error kind, such as `validation_error`.
    pub name: String,
    /// Human-readable description of the error.
    pub message: String,
}

/// Error type for dispatched requests: either the transport failed (network
/// or decoding), or the remote service answered with a classified error.
#[derive(Debug, Clone)]
pub enum Error {
    /// A transport-level failure: the request could not be built or sent, or
    /// a response body could not be decoded where a well-formed one was
    /// expected.
    Http(String),
    /// The remote service responded with an error status and a decodable
    /// structured error body.
    Resend(ErrorResponse),
}

/// A fatal misconfiguration found while constructing a client: the handle is
/// never usable, so these are reported once at construction and never at
/// dispatch time.
#[derive(Debug, Clone, PartialEq, Eq, Structural)]
pub enum ConfigError {
    /// The base URL is not a valid absolute URL.
    InvalidBaseUrl,
    /// The rate-limit override is not a valid positive request count.
    InvalidRateLimit,
    /// The underlying HTTP transport could not be initialized.
    TransportUnavailable,
}

} // verus!
