//! Plain-data model of the HTTP exchanges the client performs.
//!
//! The library never opens a connection itself: it builds `HttpRequest`
//! values with fully specified contents, and classifies the
//! `HttpResponse` values that the surrounding I/O layer hands back.

use vstd::prelude::*;

verus! {

/// The HTTP methods the ingestion API uses.
#[derive(Clone, Copy, Debug, PartialEq, Eq, Structural)]
pub enum Method {
    Get,
    Post,
}

/// The two batch endpoints of the ingestion API.
#[derive(Clone, Copy, Debug, PartialEq, Eq, Structural)]
pub enum Endpoint {
    Validate,
    Push,
}

impl Endpoint {
    /// The full URL of this endpoint.
    pub open spec fn spec_url(self) -> Seq<char> {
        match self {
            Endpoint::Validate => "https://api.stitchdata.com/v2/import/validate"@,
            Endpoint::Push => "https://api.stitchdata.com/v2/import/push"@,
        }
    }

    /// Renders the full URL of this endpoint.
    pub fn url(&self) -> (r: String)
        ensures
            r@ == self.spec_url(),
    {
        match self {
            Endpoint::Validate => String::from_str("https://api.stitchdata.com/v2/import/validate"),
            Endpoint::Push => String::from_str("https://api.stitchdata.com/v2/import/push"),
        }
    }
}

/// The full URL of the service status endpoint.
pub open spec fn spec_status_url() -> Seq<char> {
    "https://api.stitchdata.com/v2/import/status"@
}

/// Renders the full URL of the service status endpoint.
pub fn status_url() -> (r: String)
    ensures
        r@ == spec_status_url(),
{
    String::from_str("https://api.stitchdata.com/v2/import/status")
}

/// One outbound HTTP request, described as plain data.
///
/// `content_length`, when present, equals the byte length of `body`;
/// the builders in this crate guarantee that relation in their
/// contracts.
#[derive(Debug)]
pub struct HttpRequest {
    pub method: Method,
    pub url: String,
    /// Bearer token for the `Authorization` header, when the endpoint
    /// is authenticated.
    pub bearer_token: Option<String>,
    /// Whether a `Content-Type: application/json` header is sent.
    pub content_type_json: bool,
    pub content_length: Option<u64>,
    pub body: Option<Vec<u8>>,
}

/// One inbound HTTP response, reduced to what classification reads.
#[derive(Debug)]
pub struct HttpResponse {
    pub status: u16,
    pub body: Vec<u8>,
}

/// The HTTP success range.
pub open spec fn is_success_status(code: u16) -> bool {
    200 <= code < 300
}

} // verus!
