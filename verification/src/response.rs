//! A plain model of the HTTP response this middleware produces: the
//! status code, the body, and the optional `WWW-Authenticate` header.

use vstd::prelude::*;

verus! {

/// The HTTP-visible outcome of one request, as far as this middleware
/// shapes it.
pub struct HttpResponse {
    /// The HTTP status code.
    pub status: u16,
    /// The response body.
    pub body: String,
    /// The value of the `WWW-Authenticate` header, if one is attached.
    pub www_authenticate: Option<String>,
}

} // verus!
