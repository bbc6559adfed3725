//! The closed error taxonomy of the client.
//!
//! Three independent failure layers are kept distinct: transport failures,
//! HTTP-status failures and domain failures, beside the two construction-time
//! failures (base address, request path) and the body-decoding failure.
use vstd::prelude::*;
use crate::gstd_types::ResponseCode;

verus! {

/// Everything a public operation of this client can fail with.
///
/// Every operation either returns a successfully decoded envelope whose code
/// is `Success`, or exactly one of these kinds; no failure is swallowed and
/// none is retried.
#[derive(Clone, Debug)]
pub enum Error {
    /// The configured base address is not a well-formed URL.
    /// Carries the parse-failure detail.
    InvalidBaseAddress(String),
    /// Composing the base address with a resource path failed.
    /// Carries the parse-failure detail.
    InvalidRequestPath(String),
    /// The request could not be sent or no response was received.
    /// Carries the underlying cause.
    TransportFailure(String),
    /// The HTTP layer returned a non-2xx status; the envelope is not parsed
    /// in this case. Carries the status code.
    UnsuccessfulHttpStatus(u16),
    /// The response body is not valid JSON or matches no envelope shape.
    /// Carries the decode-failure detail.
    MalformedBody(String),
    /// The envelope decoded successfully but its code is not `Success`.
    /// Carries that code.
    DomainFailure(ResponseCode),
}

} // verus!
