//! The negotiation driver: the per-request state machine that drives
//! exactly one step of the security-context exchange, enforces the
//! single-round policy, and carries the authenticated principal and the
//! continuation token into the response.
//!
//! The security-context primitive itself is an external collaborator; the
//! caller performs its three calls and hands each outcome to the machine,
//! which takes every decision.

use vstd::prelude::*;

verus! {

use crate::codec::{challenge_value, encode_challenge};
use crate::errors::{Error, GssFailure};
use crate::extensions::Upn;
use crate::response::HttpResponse;

/// What one successful step of the security context reports: an optional
/// outbound continuation token, and whether the exchange is complete.
pub struct StepSuccess {
    pub token: Option<Vec<u8>>,
    pub complete: bool,
}

/// The per-request negotiation state.  A request starts at `Start`,
/// passes `Exchanging` and `AwaitingPrincipal` when each call into the
/// security context succeeds, and ends at `Authenticated` or `Rejected`.
pub enum Negotiation {
    /// No security context has been acquired yet.
    Start,
    /// A context exists for the configured service principal name; the
    /// client token has not been submitted yet.
    Exchanging,
    /// The exchange completed after its one permitted step; the source
    /// principal has not been read yet.
    AwaitingPrincipal { token: Option<Vec<u8>> },
    /// Terminal: the client is authenticated.
    Authenticated { upn: Upn, token: Option<Vec<u8>> },
    /// Terminal: the negotiation failed; the error says how.
    Rejected { error: Error },
}

impl Negotiation {
    /// Where acquiring the security context leads: failure is terminal.
    pub open spec fn after_acquire(outcome: Result<(), GssFailure>) -> Negotiation {
        match outcome {
            Ok(_) => Negotiation::Exchanging,
            Err(f) => Negotiation::Rejected { error: Error::GssApi(f) },
        }
    }

    /// Where the one token exchange step leads: a reported failure is
    /// terminal, an incomplete exchange is rejected rather than continued
    /// (only single-round negotiation is supported), and a complete one
    /// waits for the principal.
    pub open spec fn after_step(outcome: Result<StepSuccess, GssFailure>) -> Negotiation {
        match outcome {
            Err(f) => Negotiation::Rejected { error: Error::GssApi(f) },
            Ok(st) => if !st.complete {
                Negotiation::Rejected { error: Error::MultipassSpnego }
            } else {
                Negotiation::AwaitingPrincipal { token: st.token }
            },
        }
    }

    /// Where reading the source principal leads: failure is terminal,
    /// success authenticates the request under that name.
    pub open spec fn after_principal(
        self,
        outcome: Result<String, GssFailure>,
    ) -> Negotiation {
        match outcome {
            Err(f) => Negotiation::Rejected { error: Error::GssApi(f) },
            Ok(name) => Negotiation::Authenticated {
                upn: Upn(name),
                token: match self {
                    Negotiation::AwaitingPrincipal { token } => token,
                    _ => None,
                },
            },
        }
    }

    /// A fresh request begins with no context.
    pub fn begin() -> (s: Self)
        ensures
            s is Start,
    {
        Negotiation::Start
    }

    /// Consumes the outcome of acquiring a security context for the
    /// configured service principal name.
    pub fn on_context_acquired(self, outcome: Result<(), GssFailure>) -> (s: Self)
        requires
            self is Start,
        ensures
            s == Self::after_acquire(outcome),
    {
        match outcome {
            Ok(()) => Negotiation::Exchanging,
            Err(f) => Negotiation::Rejected { error: Error::GssApi(f) },
        }
    }

    /// Consumes what the security context reported for the one step the
    /// decoded client token is submitted to.
    pub fn on_step(self, outcome: Result<StepSuccess, GssFailure>) -> (s: Self)
        requires
            self is Exchanging,
        ensures
            s == Self::after_step(outcome),
    {
        match outcome {
            Err(f) => Negotiation::Rejected { error: Error::GssApi(f) },
            Ok(st) => if !st.complete {
                Negotiation::Rejected { error: Error::MultipassSpnego }
            } else {
                Negotiation::AwaitingPrincipal { token: st.token }
            },
        }
    }

    /// Consumes the outcome of reading the source principal from the
    /// completed context.
    pub fn on_principal(self, outcome: Result<String, GssFailure>) -> (s: Self)
        requires
            self is AwaitingPrincipal,
        ensures
            s == self.after_principal(outcome),
    {
        match outcome {
            Err(f) => Negotiation::Rejected { error: Error::GssApi(f) },
            Ok(name) => {
                let token = match self {
                    Negotiation::AwaitingPrincipal { token } => token,
                    _ => None,
                };
                Negotiation::Authenticated { upn: Upn(name), token }
            },
        }
    }
}

/// An exchange left incomplete after its one permitted step never
/// authenticates: it is rejected as unsupported multi-round negotiation,
/// a server-side failure with status 500, before any inner handler could
/// run.
pub proof fn lemma_incomplete_exchange_rejected(outcome: Result<StepSuccess, GssFailure>)
    requires
        outcome matches Ok(st) && !st.complete,
    ensures
        Negotiation::after_step(outcome) matches Negotiation::Rejected { error } && error
            is MultipassSpnego && error.status_spec() == 500,
        !(Negotiation::after_step(outcome) is Authenticated),
        !(Negotiation::after_step(outcome) is AwaitingPrincipal),
{
}

/// A principal can be read only after the one step the context reported
/// complete: no failed and no incomplete exchange leads past the
/// exchange state.
pub proof fn lemma_principal_only_after_complete(outcome: Result<StepSuccess, GssFailure>)
    ensures
        Negotiation::after_step(outcome) is AwaitingPrincipal <==> (outcome matches Ok(st)
            && st.complete),
{
}

/// A complete exchange authenticates the request under exactly the
/// principal the security context reported, and keeps the continuation
/// token the step produced.
pub proof fn lemma_complete_exchange_authenticates(st: StepSuccess, name: String)
    requires
        st.complete,
    ensures
        ({
            let after = Negotiation::after_step(Ok(st)).after_principal(Ok(name));
            after matches Negotiation::Authenticated { upn, token } && upn.0@ == name@ && token
                == st.token
        }),
{
}

/// The token an exchange produced, seen as the bytes it holds.
pub open spec fn token_view(token: Option<Vec<u8>>) -> Option<Seq<u8>> {
    match token {
        Some(t) => Some(t@),
        None => None,
    }
}

/// Decorates what came back from the inner handler.  A successful
/// response always gets the continuation challenge; a failed inner
/// handler passes through in status and body, still decorated when a
/// continuation token exists.
pub fn finish_response(inner: Result<HttpResponse, HttpResponse>, token: Option<Vec<u8>>) -> (r:
    Result<HttpResponse, Error>)
    ensures
        inner matches Ok(resp) ==> (r matches Ok(out) && out.status == resp.status && out.body@
            == resp.body@ && (out.www_authenticate matches Some(h) && h@ == challenge_value(
            token_view(token),
        ))),
        inner matches Err(resp) ==> (r matches Err(e) && e matches Error::NextMiddleware(out) && ((
        token is Some ==> out.status == resp.status && out.body@ == resp.body@
            && (out.www_authenticate matches Some(h) && h@ == challenge_value(token_view(token))))
            && (token is None ==> out == resp))),
{
    match inner {
        Ok(resp) => {
            let header = encode_challenge(
                match &token {
                    Some(t) => Some(t),
                    None => None,
                },
            );
            Ok(
                HttpResponse {
                    status: resp.status,
                    body: resp.body,
                    www_authenticate: Some(header),
                },
            )
        },
        Err(resp) => match &token {
            Some(t) => {
                let header = encode_challenge(Some(t));
                Err(
                    Error::NextMiddleware(
                        HttpResponse {
                            status: resp.status,
                            body: resp.body,
                            www_authenticate: Some(header),
                        },
                    ),
                )
            },
            None => Err(Error::NextMiddleware(resp)),
        },
    }
}

} // verus!
