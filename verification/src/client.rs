//! The transport client: owns the validated base address, resolves request
//! URLs against it, and exposes the envelope-decoding pipeline.
//!
//! Validation of the base address happens eagerly at construction — a
//! malformed address fails with [`Error::InvalidBaseAddress`] before any
//! request is attempted. Sending requests over the network is the embedding
//! application's concern; this module supplies everything around it: the
//! absolute URL of each request and the decoding of each raw response.
use vstd::prelude::*;
use vstd::string::*;
use crate::envelope::{decode_response, decodes_to};
use crate::errors::Error;
use crate::gstd_types::Response;
use crate::resources;

verus! {

/// The well-known default address of a daemon on the local machine.
pub const DEFAULT_BASE_ADDRESS: &'static str = "http://127.0.0.1:5000/";

/// Declares `url::Url` so that it can stand in signatures; the value is
/// opaque to the verifier.
#[verifier::external_type_specification]
#[verifier::external_body]
pub struct ExUrl(url::Url);

/// The normalized serialization of a base-address string, if it is a
/// well-formed absolute URL. Stands for what `url::Url::parse` accepts and
/// how it serializes the result.
pub uninterp spec fn url_norm(s: Seq<char>) -> Option<Seq<char>>;

/// The normalized serialization of a relative path resolved against a base
/// address, if both are well-formed. Stands for `url::Url::parse` followed
/// by `url::Url::join`.
pub uninterp spec fn url_join_norm(base: Seq<char>, rel: Seq<char>) -> Option<Seq<char>>;

/// Relies on `url::Url::parse` and the `String` conversion of `url::Url`:
/// parsing succeeds exactly on well-formed absolute URLs and yields the
/// normalized serialization, and that serialization parses back to itself
/// (the crate stores a URL as its serialization and documents that a
/// serialized URL re-parses equal).
#[verifier::external_body]
fn parse_base_address(s: &str) -> (r: Result<String, String>)
    ensures
        r matches Ok(u) ==> url_norm(s@) == Some(u@) && url_norm(u@) == Some(u@),
        r matches Err(_) ==> url_norm(s@) is None,
{
    match url::Url::parse(s) {
        Ok(u) => Ok(String::from(u)),
        Err(e) => Err(e.to_string()),
    }
}

/// Relies on `url::Url::as_str`: every URL value serializes to a string
/// that parses back to itself.
#[verifier::external_body]
fn url_serialization(u: &url::Url) -> (r: String)
    ensures
        url_norm(r@) == Some(r@),
{
    u.as_str().to_owned()
}

/// Relies on `url::Url::parse` and `url::Url::join`: resolving a relative
/// path against a base address succeeds exactly when both are well-formed,
/// and yields the normalized absolute URL.
#[verifier::external_body]
fn resolve_against_base(base: &str, rel: &str) -> (r: Result<String, String>)
    ensures
        r matches Ok(u) ==> url_join_norm(base@, rel@) == Some(u@),
        r matches Err(_) ==> url_join_norm(base@, rel@) is None,
{
    match url::Url::parse(base) {
        Ok(b) => match b.join(rel) {
            Ok(u) => Ok(String::from(u)),
            Err(e) => Err(e.to_string()),
        },
        Err(e) => Err(e.to_string()),
    }
}

/// A client of the daemon's HTTP API: the validated base address every
/// request URL is resolved against.
#[derive(Clone, Debug)]
pub struct GstClient {
    base_url: String,
}

impl View for GstClient {
    type V = Seq<char>;

    /// A client is characterized by its resolved base address.
    closed spec fn view(&self) -> Seq<char> {
        self.base_url@
    }
}

impl GstClient {
    /// Builds a client from a textual base address, validating it eagerly.
    ///
    /// Construction succeeds exactly on well-formed base addresses; the
    /// client then holds the normalized serialization, which round-trips:
    /// parsing the resolved base address yields it back unchanged. A
    /// malformed address fails with [`Error::InvalidBaseAddress`], and no
    /// network activity is involved either way.
    pub fn build(base_url: &str) -> (r: Result<GstClient, Error>)
        ensures
            r matches Ok(c) ==> url_norm(base_url@) == Some(c@) && url_norm(c@) == Some(c@),
            r matches Err(e) ==> url_norm(base_url@) is None && e is InvalidBaseAddress,
    {
        match parse_base_address(base_url) {
            Ok(u) => Ok(GstClient { base_url: u }),
            Err(detail) => Err(Error::InvalidBaseAddress(detail)),
        }
    }

    /// A client on an already-parsed URL; its base address round-trips.
    pub fn from_url(u: &url::Url) -> (r: GstClient)
        ensures
            url_norm(r@) == Some(r@),
    {
        GstClient { base_url: url_serialization(u) }
    }

    /// The resolved base address.
    pub fn base_address(&self) -> (r: &str)
        ensures
            r@ == self@,
    {
        self.base_url.as_str()
    }

    /// The absolute URL of a request, its relative path resolved against
    /// the base address; failure is [`Error::InvalidRequestPath`].
    pub fn request_url(&self, path: &str) -> (r: Result<String, Error>)
        ensures
            r matches Ok(u) ==> url_join_norm(self@, path@) == Some(u@),
            r matches Err(e) ==> url_join_norm(self@, path@) is None && e is InvalidRequestPath,
    {
        match resolve_against_base(self.base_url.as_str(), path) {
            Ok(u) => Ok(u),
            Err(detail) => Err(Error::InvalidRequestPath(detail)),
        }
    }

    /// Decodes a raw response: HTTP status first, then the envelope, then
    /// the domain status code, as [`decodes_to`] states.
    pub fn process_resp(&self, status: u16, body: &str) -> (r: Result<Response, Error>)
        ensures
            decodes_to(status, body@, r),
    {
        decode_response(status, body)
    }

    /// The request that lists the daemon's pipelines.
    pub fn pipelines(&self) -> (r: resources::Request)
        ensures
            r.verb == resources::Verb::Get,
            r.path@ == resources::pipelines_path(),
    {
        resources::Request { verb: resources::Verb::Get, path: String::from_str("pipelines") }
    }

    /// A handle on the pipeline of this name.
    pub fn pipeline(&self, name: &str) -> (r: resources::Pipeline)
        ensures
            r.name@ == name@,
    {
        resources::Pipeline::new(name)
    }

    /// A handle on the daemon's debug subsystem.
    pub fn debug(&self) -> (r: resources::Debug) {
        resources::Debug::new()
    }
}

impl Default for GstClient {
    /// The default client points at the daemon's well-known local address.
    fn default() -> (r: GstClient)
        ensures
            r@ == DEFAULT_BASE_ADDRESS@,
    {
        GstClient { base_url: String::from_str(DEFAULT_BASE_ADDRESS) }
    }
}

} // verus!
