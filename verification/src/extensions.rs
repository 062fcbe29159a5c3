//! Principal propagation: the request-scoped store the middleware puts
//! the authenticated principal into, and the downstream extraction of it.

use vstd::prelude::*;

verus! {

use crate::errors::Error;

/// The user principal name of the authenticated user.
pub struct Upn(pub String);

impl Upn {
    /// The principal as text.
    pub fn as_str(&self) -> (r: &str)
        ensures
            r@ == self.0@,
    {
        self.0.as_str()
    }
}

impl Clone for Upn {
    fn clone(&self) -> (r: Self)
        ensures
            r == *self,
    {
        Upn(self.0.clone())
    }
}

/// The per-request extension store, reduced to the one entry this
/// middleware uses: the resolved principal.  It starts empty and is
/// filled only on a completed negotiation.
pub struct RequestExtensions {
    upn: Option<Upn>,
}

impl RequestExtensions {
    /// The principal attached to the request, if any.
    pub closed spec fn upn_view(&self) -> Option<Seq<char>> {
        match self.upn {
            Some(u) => Some(u.0@),
            None => None,
        }
    }

    /// A fresh request carries no principal.
    pub fn new() -> (r: Self)
        ensures
            r.upn_view() is None,
    {
        RequestExtensions { upn: None }
    }

    /// Attaches the resolved principal for downstream handlers.
    pub fn insert_upn(&mut self, upn: Upn)
        ensures
            final(self).upn_view() == Some(upn.0@),
    {
        self.upn = Some(upn);
    }
}

impl Upn {
    /// Downstream extraction of the principal.  When no middleware ran
    /// upstream the store holds nothing and extraction fails with
    /// `UpnExtensionNotFound`; a default or empty identity is never made
    /// up.
    pub fn from_request_parts(parts: &RequestExtensions) -> (r: Result<Upn, Error>)
        ensures
            parts.upn_view() matches Some(n) ==> (r matches Ok(u) && u.0@ == n),
            parts.upn_view() is None ==> (r matches Err(e) && e is UpnExtensionNotFound),
    {
        match &parts.upn {
            Some(u) => Ok(u.clone()),
            None => Err(Error::UpnExtensionNotFound),
        }
    }
}

} // verus!
