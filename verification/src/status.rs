//! The failure statuses the ingestion API documents.

use vstd::prelude::*;

verus! {

/// The non-success HTTP statuses the ingestion API is documented to
/// answer with.
#[derive(Clone, Copy, Debug, PartialEq, Eq, Structural)]
pub enum Error {
    BadRequest,
    Unauthorized,
    Forbidden,
    MethodNotAllowed,
    RequestEntityTooLarge,
    UnsupportedMediaType,
    UnprocessableEntity,
    ServiceUnavailable,
    GatewayTimeout,
}

impl Error {
    /// The HTTP status code of each variant.
    pub open spec fn spec_code(self) -> u16 {
        match self {
            Error::BadRequest => 400,
            Error::Unauthorized => 401,
            Error::Forbidden => 403,
            Error::MethodNotAllowed => 405,
            Error::RequestEntityTooLarge => 413,
            Error::UnsupportedMediaType => 415,
            Error::UnprocessableEntity => 422,
            Error::ServiceUnavailable => 503,
            Error::GatewayTimeout => 504,
        }
    }

    /// The variant a status code denotes, when it is one the API
    /// documents.
    pub open spec fn spec_from_code(code: u16) -> Option<Error> {
        match code {
            400u16 => Some(Error::BadRequest),
            401u16 => Some(Error::Unauthorized),
            403u16 => Some(Error::Forbidden),
            405u16 => Some(Error::MethodNotAllowed),
            413u16 => Some(Error::RequestEntityTooLarge),
            415u16 => Some(Error::UnsupportedMediaType),
            422u16 => Some(Error::UnprocessableEntity),
            503u16 => Some(Error::ServiceUnavailable),
            504u16 => Some(Error::GatewayTimeout),
            _ => None,
        }
    }

    /// Returns the HTTP status code of this variant.
    pub fn code(&self) -> (c: u16)
        ensures
            c == self.spec_code(),
    {
        match self {
            Error::BadRequest => 400,
            Error::Unauthorized => 401,
            Error::Forbidden => 403,
            Error::MethodNotAllowed => 405,
            Error::RequestEntityTooLarge => 413,
            Error::UnsupportedMediaType => 415,
            Error::UnprocessableEntity => 422,
            Error::ServiceUnavailable => 503,
            Error::GatewayTimeout => 504,
        }
    }

    /// Classifies a status code as one of the documented failures.
    pub fn from_code(code: u16) -> (r: Option<Error>)
        ensures
            r == Self::spec_from_code(code),
    {
        match code {
            400u16 => Some(Error::BadRequest),
            401u16 => Some(Error::Unauthorized),
            403u16 => Some(Error::Forbidden),
            405u16 => Some(Error::MethodNotAllowed),
            413u16 => Some(Error::RequestEntityTooLarge),
            415u16 => Some(Error::UnsupportedMediaType),
            422u16 => Some(Error::UnprocessableEntity),
            503u16 => Some(Error::ServiceUnavailable),
            504u16 => Some(Error::GatewayTimeout),
            _ => None,
        }
    }
}

} // verus!
