//! The error values that the access layer hands to its callers.

use vstd::prelude::*;
use crate::text::{chars_of, extend, string_of};

verus! {

/// The transport error of the HTTP client, carried through unopened.
#[verifier::external_type_specification]
#[verifier::external_body]
pub struct ExTransportError(reqwest::Error);

/// A failure to obtain a bearer token.
#[derive(Debug)]
pub enum AuthError {
    /// The identity provider answered with a status other than success.
    TokenRequestFailed(String),
    /// The request did not complete.
    HttpError(reqwest::Error),
    /// The token response could not be decoded.
    ParseError(String),
    /// A credential needed for the exchange is absent.
    MissingCredentials(String),
}

/// A failure of a request against the data service.
#[derive(Debug)]
pub enum ODataError {
    /// No bearer token could be obtained.
    AuthError(AuthError),
    /// The request did not complete.
    HttpError(reqwest::Error),
    /// The service kept answering 429; the value is the last wait it asked for, in seconds.
    RateLimited(u64),
    /// The service answered with this status and body.
    ServerError(u16, String),
    /// A response body could not be decoded.
    ParseError(String),
    /// What was asked for does not exist.
    NotFound(String),
}

impl From<AuthError> for ODataError {
    fn from(e: AuthError) -> (r: ODataError) {
        ODataError::AuthError(e)
    }
}

impl vstd::std_specs::convert::FromSpecImpl<AuthError> for ODataError {
    open spec fn obeys_from_spec() -> bool {
        true
    }

    open spec fn from_spec(e: AuthError) -> ODataError {
        ODataError::AuthError(e)
    }
}

impl From<reqwest::Error> for AuthError {
    fn from(e: reqwest::Error) -> (r: AuthError) {
        AuthError::HttpError(e)
    }
}

impl vstd::std_specs::convert::FromSpecImpl<reqwest::Error> for AuthError {
    open spec fn obeys_from_spec() -> bool {
        true
    }

    open spec fn from_spec(e: reqwest::Error) -> AuthError {
        AuthError::HttpError(e)
    }
}

impl From<reqwest::Error> for ODataError {
    fn from(e: reqwest::Error) -> (r: ODataError) {
        ODataError::HttpError(e)
    }
}

impl vstd::std_specs::convert::FromSpecImpl<reqwest::Error> for ODataError {
    open spec fn obeys_from_spec() -> bool {
        true
    }

    open spec fn from_spec(e: reqwest::Error) -> ODataError {
        ODataError::HttpError(e)
    }
}

/// What was being decoded when decoding failed.
#[derive(Debug, Clone, Copy, PartialEq, Eq)]
pub enum Decoding {
    /// The bytes of the metadata document.
    MetadataBytes,
    /// A page of an entity set.
    Page,
    /// A single record.
    Entity,
}

/// How the message of a decoding failure begins.
pub open spec fn decoding_prefix(what: Decoding) -> Seq<char> {
    match what {
        Decoding::MetadataBytes => "Failed to read metadata bytes: "@,
        Decoding::Page => "Failed to parse OData response: "@,
        Decoding::Entity => "Failed to parse entity: "@,
    }
}

/// The error for a body that could not be decoded; `detail` is what the
/// decoder said.
pub fn parse_failure(what: Decoding, detail: &str) -> (e: ODataError)
    ensures
        match e {
            ODataError::ParseError(m) => m@ == decoding_prefix(what) + detail@,
            _ => false,
        },
{
    let mut out = match what {
        Decoding::MetadataBytes => chars_of("Failed to read metadata bytes: "),
        Decoding::Page => chars_of("Failed to parse OData response: "),
        Decoding::Entity => chars_of("Failed to parse entity: "),
    };
    extend(&mut out, &chars_of(detail));
    ODataError::ParseError(string_of(&out))
}

} // verus!
