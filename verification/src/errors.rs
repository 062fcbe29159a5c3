//! The error taxonomy and its mapping to HTTP-visible responses.

use vstd::prelude::*;

verus! {

use vstd::string::StringExecFns;
use crate::response::HttpResponse;

/// A failure reported by the underlying security-context primitive,
/// reduced to its mechanism status codes.  The raw error text is never
/// shown to the client.
#[derive(Clone, Copy, PartialEq, Eq, Structural, Debug)]
pub struct GssFailure {
    pub major: u32,
    pub minor: u32,
}

/// Every way a negotiation can fail, plus the passthrough case for a
/// failure of the inner handler.
pub enum Error {
    /// The configured service principal name is not ASCII.
    InvalidSpn,
    /// The inner handler failed; its already-rendered response is carried
    /// through unchanged in status and body.
    NextMiddleware(HttpResponse),
    /// The security-context primitive reported a failure.
    GssApi(GssFailure),
    /// The exchange was not complete after one step; only single-round
    /// negotiation is supported.
    MultipassSpnego,
    /// The `Authorization` header is absent, not a readable header value,
    /// or does not carry the `Negotiate ` scheme.
    InvalidAuthorizationHeader,
    /// The negotiation token is not valid base64.
    InvalidGssapiData,
    /// No principal was attached to the request: the middleware did not
    /// run upstream of the extractor.
    UpnExtensionNotFound,
}

impl Error {
    /// The HTTP status each failure maps to.  Server-side negotiation
    /// failures all map to 500 so that no mechanism detail leaks to the
    /// client; a failed inner handler keeps its own status.
    pub open spec fn status_spec(&self) -> u16 {
        match self {
            Error::InvalidSpn | Error::MultipassSpnego | Error::GssApi(_) => 500,
            Error::NextMiddleware(resp) => resp.status,
            Error::InvalidGssapiData => 400,
            Error::UpnExtensionNotFound | Error::InvalidAuthorizationHeader => 401,
        }
    }

    /// The body each failure maps to: a generic phrase, never the
    /// underlying error text; a failed inner handler keeps its own body.
    pub open spec fn body_spec(&self) -> Seq<char> {
        match self {
            Error::InvalidSpn | Error::MultipassSpnego | Error::GssApi(_) => {
                "internal server error"@
            },
            Error::NextMiddleware(resp) => resp.body@,
            Error::InvalidGssapiData => "bad request"@,
            Error::UpnExtensionNotFound | Error::InvalidAuthorizationHeader => "unauthorized"@,
        }
    }

    /// The `WWW-Authenticate` header each failure carries: the bare
    /// scheme name on a 401, nothing on a 400 or 500, and whatever a
    /// failed inner handler already carried.
    pub open spec fn challenge_spec(&self) -> Option<Seq<char>> {
        match self {
            Error::NextMiddleware(resp) => resp.www_authenticate.deep_view(),
            Error::UpnExtensionNotFound | Error::InvalidAuthorizationHeader => Some("Negotiate"@),
            _ => None,
        }
    }

    /// Renders the failure as the one HTTP response it maps to.
    pub fn into_response(self) -> (r: HttpResponse)
        ensures
            r.status == self.status_spec(),
            r.body@ == self.body_spec(),
            r.www_authenticate.deep_view() == self.challenge_spec(),
    {
        match self {
            Error::InvalidSpn | Error::MultipassSpnego | Error::GssApi(_) => HttpResponse {
                status: 500,
                body: String::from_str("internal server error"),
                www_authenticate: None,
            },
            Error::NextMiddleware(resp) => resp,
            Error::InvalidGssapiData => HttpResponse {
                status: 400,
                body: String::from_str("bad request"),
                www_authenticate: None,
            },
            Error::UpnExtensionNotFound | Error::InvalidAuthorizationHeader => HttpResponse {
                status: 401,
                body: String::from_str("unauthorized"),
                www_authenticate: Some(crate::codec::bare_challenge()),
            },
        }
    }
}

} // verus!
