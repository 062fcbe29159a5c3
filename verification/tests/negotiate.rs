use negotiate_auth::codec::{decode_request, encode_challenge, reencode_token};
use negotiate_auth::driver::{finish_response, Negotiation, StepSuccess};
use negotiate_auth::errors::{Error, GssFailure};
use negotiate_auth::extensions::{RequestExtensions, Upn};
use negotiate_auth::response::HttpResponse;
use negotiate_auth::NegotiateAuthLayer;

#[test]
fn missing_header_is_unauthorized() {
    let e = match decode_request(None) {
        Err(e) => e,
        Ok(_) => panic!("a request without a header must be rejected"),
    };
    assert!(matches!(e, Error::InvalidAuthorizationHeader));
    let resp = e.into_response();
    assert_eq!(resp.status, 401);
    assert_eq!(resp.body, "unauthorized");
    assert_eq!(resp.www_authenticate.as_deref(), Some("Negotiate"));
}

#[test]
fn wrong_scheme_is_unauthorized() {
    let e = match decode_request(Some("Basic QWxhZGRpbjpvcGVuc2VzYW1l")) {
        Err(e) => e,
        Ok(_) => panic!("a non-Negotiate scheme must be rejected"),
    };
    assert!(matches!(e, Error::InvalidAuthorizationHeader));
    assert_eq!(e.into_response().status, 401);
}

#[test]
fn scheme_without_space_is_unauthorized() {
    let e = match decode_request(Some("Negotiate")) {
        Err(e) => e,
        Ok(_) => panic!("the scheme must be followed by a space"),
    };
    assert!(matches!(e, Error::InvalidAuthorizationHeader));
}

#[test]
fn non_ascii_header_is_unauthorized() {
    let e = match decode_request(Some("Negotiate \u{00e9}\u{00e9}")) {
        Err(e) => e,
        Ok(_) => panic!("a header that is not ASCII must be rejected"),
    };
    assert!(matches!(e, Error::InvalidAuthorizationHeader));
}

#[test]
fn invalid_base64_is_bad_request() {
    let e = match decode_request(Some("Negotiate !!!")) {
        Err(e) => e,
        Ok(_) => panic!("an undecodable token must be rejected"),
    };
    assert!(matches!(e, Error::InvalidGssapiData));
    let resp = e.into_response();
    assert_eq!(resp.status, 400);
    assert_eq!(resp.body, "bad request");
    assert!(resp.www_authenticate.is_none());
}

#[test]
fn token_decodes_to_bytes() {
    match decode_request(Some("Negotiate AQI=")) {
        Ok(bytes) => assert_eq!(bytes, vec![1u8, 2u8]),
        Err(_) => panic!("a valid base64 token must decode"),
    }
    match decode_request(Some("Negotiate ")) {
        Ok(bytes) => assert_eq!(bytes, Vec::<u8>::new()),
        Err(_) => panic!("an empty token must decode to no bytes"),
    }
}

#[test]
fn continuation_token_header_value() {
    let header = encode_challenge(Some(&vec![0x01u8, 0x02u8]));
    assert_eq!(header, "Negotiate AQI=");
}

#[test]
fn empty_challenge_keeps_trailing_space() {
    let header = encode_challenge(None);
    assert_eq!(header, "Negotiate ");
}

#[test]
fn decode_then_encode_round_trips() {
    assert_eq!(reencode_token("AQI=").as_deref(), Some("AQI="));
    assert_eq!(reencode_token("SGVsbG8gd29ybGQ=").as_deref(), Some("SGVsbG8gd29ybGQ="));
    assert_eq!(reencode_token("").as_deref(), Some(""));
    assert_eq!(reencode_token("!!!"), None);
}

#[test]
fn complete_exchange_attaches_principal() {
    let state = Negotiation::begin().on_context_acquired(Ok(())).on_step(
        Ok(StepSuccess { token: None, complete: true }),
    ).on_principal(Ok(String::from("alice@EXAMPLE.COM")));
    let (upn, token) = match state {
        Negotiation::Authenticated { upn, token } => (upn, token),
        _ => panic!("a complete exchange must authenticate"),
    };
    assert_eq!(upn.as_str(), "alice@EXAMPLE.COM");
    assert!(token.is_none());

    let mut exts = RequestExtensions::new();
    exts.insert_upn(upn);
    let seen = match Upn::from_request_parts(&exts) {
        Ok(u) => u,
        Err(_) => panic!("the attached principal must be retrievable"),
    };
    assert_eq!(seen.as_str(), "alice@EXAMPLE.COM");

    let inner = HttpResponse { status: 200, body: String::from("ok"), www_authenticate: None };
    match finish_response(Ok(inner), token) {
        Ok(out) => {
            assert_eq!(out.status, 200);
            assert_eq!(out.body, "ok");
            assert_eq!(out.www_authenticate.as_deref(), Some("Negotiate "));
        },
        Err(_) => panic!("a successful inner response must pass through"),
    }
}

#[test]
fn incomplete_exchange_is_internal_error() {
    let state = Negotiation::begin().on_context_acquired(Ok(())).on_step(
        Ok(StepSuccess { token: Some(vec![3u8]), complete: false }),
    );
    let error = match state {
        Negotiation::Rejected { error } => error,
        _ => panic!("an incomplete exchange must be rejected"),
    };
    assert!(matches!(error, Error::MultipassSpnego));
    let resp = error.into_response();
    assert_eq!(resp.status, 500);
    assert_eq!(resp.body, "internal server error");
    assert!(resp.www_authenticate.is_none());
}

#[test]
fn context_failure_is_internal_error() {
    let state = Negotiation::begin().on_context_acquired(
        Err(GssFailure { major: 851968, minor: 2529639053 }),
    );
    let error = match state {
        Negotiation::Rejected { error } => error,
        _ => panic!("a failed acquisition must be rejected"),
    };
    assert!(matches!(error, Error::GssApi(_)));
    let resp = error.into_response();
    assert_eq!(resp.status, 500);
    assert_eq!(resp.body, "internal server error");
    assert!(resp.www_authenticate.is_none());
}

#[test]
fn principal_failure_is_internal_error() {
    let state = Negotiation::begin().on_context_acquired(Ok(())).on_step(
        Ok(StepSuccess { token: None, complete: true }),
    ).on_principal(Err(GssFailure { major: 458752, minor: 0 }));
    let error = match state {
        Negotiation::Rejected { error } => error,
        _ => panic!("a failed principal read must be rejected"),
    };
    assert!(matches!(error, Error::GssApi(_)));
    assert_eq!(error.into_response().status, 500);
}

#[test]
fn extraction_without_middleware_fails() {
    let exts = RequestExtensions::new();
    match Upn::from_request_parts(&exts) {
        Err(e) => {
            assert!(matches!(e, Error::UpnExtensionNotFound));
            let resp = e.into_response();
            assert_eq!(resp.status, 401);
            assert_eq!(resp.www_authenticate.as_deref(), Some("Negotiate"));
        },
        Ok(u) => panic!("no principal may be invented, got {}", u.as_str()),
    }
}

#[test]
fn spn_must_be_ascii() {
    match NegotiateAuthLayer::new(String::from("HTTP/server.example.com@EXAMPLE.COM")) {
        Ok(_) => {},
        Err(_) => panic!("an ASCII service principal name must be accepted"),
    }
    let e = match NegotiateAuthLayer::new(String::from("HTTP/s\u{00e9}rver")) {
        Err(e) => e,
        Ok(_) => panic!("a non-ASCII service principal name must be refused"),
    };
    assert!(matches!(e, Error::InvalidSpn));
    assert_eq!(e.into_response().status, 500);
}

#[test]
fn layer_hands_configuration_to_middleware() {
    let layer = match NegotiateAuthLayer::new(String::from("HTTP/gateway@EXAMPLE.COM")) {
        Ok(l) => l,
        Err(_) => panic!("the configuration is ASCII"),
    };
    let middleware = layer.layer(7u32);
    assert_eq!(middleware.spn, "HTTP/gateway@EXAMPLE.COM");
    assert_eq!(middleware.inner, 7u32);
}

#[test]
fn downstream_failure_keeps_status_and_gains_challenge() {
    let failed = HttpResponse { status: 503, body: String::from("boom"), www_authenticate: None };
    match finish_response(Err(failed), Some(vec![0x01u8, 0x02u8])) {
        Err(Error::NextMiddleware(out)) => {
            assert_eq!(out.status, 503);
            assert_eq!(out.body, "boom");
            assert_eq!(out.www_authenticate.as_deref(), Some("Negotiate AQI="));
        },
        _ => panic!("a downstream failure must pass through as such"),
    }
    let failed = HttpResponse { status: 502, body: String::from("bad"), www_authenticate: None };
    match finish_response(Err(failed), None) {
        Err(Error::NextMiddleware(out)) => {
            assert_eq!(out.status, 502);
            assert!(out.www_authenticate.is_none());
        },
        _ => panic!("a downstream failure must pass through as such"),
    }
}
