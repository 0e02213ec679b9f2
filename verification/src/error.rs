//! The client's error taxonomy.

use vstd::prelude::*;

verus! {

/// What a client operation can fail with.
///
/// `HyperStatus` carries the HTTP status of a non-success response;
/// `Buffer` a static description of a stream-chunking fault; `Hyper`
/// and `HyperTls` carry the rendered detail of a transport-level or
/// TLS-setup failure, as the I/O layer reported it.
#[derive(Debug)]
pub enum Error {
    HyperStatus(u16),
    Buffer(&'static str),
    Hyper(String),
    HyperTls(String),
}

/// The canonical reason phrase that the `http` crate associates with a
/// status code, when the code is registered.
pub uninterp spec fn canonical_reason_of(code: u16) -> Option<Seq<char>>;

/// Relies on `hyper::StatusCode::{from_u16, canonical_reason}` (the
/// `http` crate's `StatusCode`, re-exported by hyper): the canonical
/// reason phrase is a fixed table keyed by the code alone, and codes
/// outside the range the crate accepts have none.
#[verifier::external_body]
fn canonical_reason(code: u16) -> (r: Option<&'static str>)
    ensures
        r is Some <==> canonical_reason_of(code) is Some,
        r matches Some(s) ==> canonical_reason_of(code) == Some(s@),
{
    match hyper::StatusCode::from_u16(code) {
        Ok(status) => status.canonical_reason(),
        Err(_) => None,
    }
}

impl Error {
    /// The documented failure status this error carries, when it is a
    /// status error with one of the statuses the ingestion API
    /// documents.
    pub open spec fn spec_documented_status(self) -> Option<crate::status::Error> {
        match self {
            Error::HyperStatus(code) => crate::status::Error::spec_from_code(code),
            _ => None,
        }
    }

    /// Classifies this error against the failure statuses the
    /// ingestion API documents.
    pub fn documented_status(&self) -> (r: Option<crate::status::Error>)
        ensures
            r == self.spec_documented_status(),
    {
        match self {
            Error::HyperStatus(code) => crate::status::Error::from_code(*code),
            _ => None,
        }
    }

    /// What `description` returns for this error.
    pub open spec fn spec_description(self) -> Seq<char> {
        match self {
            Error::HyperStatus(code) => match canonical_reason_of(code) {
                Some(reason) => reason,
                None => "Unregistered Status Code"@,
            },
            Error::Buffer(msg) => msg@,
            Error::Hyper(detail) => detail@,
            Error::HyperTls(detail) => detail@,
        }
    }

    /// A human-readable description of the error: the canonical reason
    /// phrase for a status error, the carried detail otherwise.
    pub fn description(&self) -> (r: &str)
        ensures
            r@ == self.spec_description(),
    {
        match self {
            Error::HyperStatus(code) => match canonical_reason(*code) {
                Some(reason) => reason,
                None => "Unregistered Status Code",
            },
            Error::Buffer(msg) => msg,
            Error::Hyper(detail) => detail.as_str(),
            Error::HyperTls(detail) => detail.as_str(),
        }
    }
}

} // verus!
