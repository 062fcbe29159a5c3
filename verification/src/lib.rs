//! HTTP `Negotiate` (SPNEGO) request authentication.
//!
//! The middleware parses the `Authorization` header of an inbound request,
//! drives exactly one step of an underlying security-context exchange,
//! attaches the authenticated principal to the request for downstream
//! handlers, and builds the `WWW-Authenticate` challenge or continuation
//! header on the way out.

use vstd::prelude::*;

pub mod codec;
pub mod driver;
pub mod errors;
pub mod extensions;
pub mod response;

verus! {

use crate::errors::Error;

/// The server's own identity, validated at construction: the service
/// principal name must be ASCII.
#[derive(Clone)]
pub struct NegotiateAuthLayer {
    spn: String,
}

/// One middleware instance: the inner handler it protects, and the
/// service principal name it authenticates requests under.
#[derive(Clone)]
pub struct NegotiateAuthLayerMiddleware<I> {
    pub inner: I,
    pub spn: String,
}

impl NegotiateAuthLayer {
    /// The configured service principal name.
    pub closed spec fn spn_view(&self) -> Seq<char> {
        self.spn@
    }

    /// Builds the layer, rejecting a service principal name that is not
    /// ASCII.
    pub fn new(spn: String) -> (r: Result<Self, Error>)
        ensures
            vstd::string::string_is_ascii(&spn) ==> (r matches Ok(l) && l.spn_view() == spn@),
            !vstd::string::string_is_ascii(&spn) ==> (r matches Err(e) && e is InvalidSpn),
    {
        if spn.is_ascii() {
            Ok(NegotiateAuthLayer { spn })
        } else {
            Err(Error::InvalidSpn)
        }
    }

    /// Wraps an inner handler with this layer's configuration.
    pub fn layer<I>(&self, inner: I) -> (r: NegotiateAuthLayerMiddleware<I>)
        ensures
            r.spn@ == self.spn_view(),
            r.inner == inner,
    {
        NegotiateAuthLayerMiddleware { inner, spn: self.spn.clone() }
    }
}

} // verus!
