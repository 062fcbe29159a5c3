//! The header codec: reading the negotiation token out of the
//! `Authorization` header and writing the `WWW-Authenticate` challenge
//! or continuation value.

use vstd::prelude::*;

verus! {

use vstd::string::StringExecFns;
use vstd::utf8::is_ascii_chars;
use crate::errors::Error;

/// What base64's strict standard-alphabet decoder returns for a given
/// text, if it accepts the text at all.
pub uninterp spec fn b64_decode(s: Seq<char>) -> Option<Seq<u8>>;

/// What base64's padded standard-alphabet encoder returns for given bytes.
pub uninterp spec fn b64_encode(b: Seq<u8>) -> Seq<char>;

/// Relies on base64's `STANDARD` engine, `Engine::decode`: the result is a
/// function of the input text alone, and the engine demands canonical `=`
/// padding and zero trailing bits, so the only text it accepts for given
/// bytes is the canonical encoding of those bytes.
#[verifier::external_body]
fn b64_decode_from(s: &str, start: usize) -> (r: Option<Vec<u8>>)
    requires
        vstd::string::is_ascii(s),
        start <= s@.len(),
    ensures
        ({
            let text = s@.subrange(start as int, s@.len() as int);
            match r {
                Some(v) => b64_decode(text) == Some(v@) && b64_encode(v@) == text,
                None => b64_decode(text) is None,
            }
        }),
{
    base64::Engine::decode(&base64::engine::general_purpose::STANDARD, &s.as_bytes()[start..]).ok()
}

/// Relies on base64's `STANDARD` engine, `Engine::encode`: the result is a
/// function of the input bytes alone, is ASCII text, and is empty exactly
/// when the input is empty.
#[verifier::external_body]
fn b64_encode_bytes(b: &Vec<u8>) -> (r: String)
    ensures
        r@ == b64_encode(b@),
        is_ascii_chars(r@),
        b@.len() == 0 <==> r@.len() == 0,
{
    base64::Engine::encode(&base64::engine::general_purpose::STANDARD, b)
}

/// Whether the header value opens with the `Negotiate ` scheme.
pub open spec fn has_negotiate_prefix(s: Seq<char>) -> bool {
    s.len() >= 10 && s.subrange(0, 10) == "Negotiate "@
}

/// The part of the header value after the scheme: the base64 token text.
pub open spec fn token_text(s: Seq<char>) -> Seq<char> {
    s.subrange(10, s.len() as int)
}

/// How an `Authorization` header is read.  An absent value, one that is
/// not readable ASCII header text, or one without the `Negotiate ` scheme
/// is turned away as malformed; otherwise the token text must be valid
/// base64, and the decoded token is the result.
pub open spec fn decode_request_spec(auth: Option<Seq<char>>) -> Result<Seq<u8>, Error> {
    match auth {
        None => Err(Error::InvalidAuthorizationHeader),
        Some(s) => if !(is_ascii_chars(s) && has_negotiate_prefix(s)) {
            Err(Error::InvalidAuthorizationHeader)
        } else {
            match b64_decode(token_text(s)) {
                Some(b) => Ok(b),
                None => Err(Error::InvalidGssapiData),
            }
        },
    }
}

/// Reads the `Authorization` header of a request, as `decode_request_spec`
/// says.  A token that comes back `Ok` also re-encodes to exactly the
/// token text it was read from.
pub fn decode_request(auth: Option<&str>) -> (r: Result<Vec<u8>, Error>)
    ensures
        ({
            let view = match auth {
                Some(s) => Some(s@),
                None => None,
            };
            &&& (r matches Ok(v) ==> decode_request_spec(view) == Ok::<Seq<u8>, Error>(v@))
            &&& (r matches Err(e) ==> decode_request_spec(view) == Err::<Seq<u8>, Error>(e))
        }),
        r matches Ok(v) ==> (auth matches Some(s) && b64_encode(v@) == token_text(s@)),
{
    broadcast use vstd::string::is_ascii_spec_bytes;

    let s = match auth {
        Some(s) => s,
        None => {
            return Err(Error::InvalidAuthorizationHeader);
        },
    };
    if !s.is_ascii() {
        return Err(Error::InvalidAuthorizationHeader);
    }
    let b = s.as_bytes();
    let good = b.len() >= 10 && b[0] == 'N' as u8 && b[1] == 'e' as u8 && b[2] == 'g' as u8
        && b[3] == 'o' as u8 && b[4] == 't' as u8 && b[5] == 'i' as u8 && b[6] == 'a' as u8
        && b[7] == 't' as u8 && b[8] == 'e' as u8 && b[9] == ' ' as u8;
    proof {
        reveal_strlit("Negotiate ");
        if good {
            assert(s@[0] == 'N');
            assert(s@[1] == 'e');
            assert(s@[2] == 'g');
            assert(s@[3] == 'o');
            assert(s@[4] == 't');
            assert(s@[5] == 'i');
            assert(s@[6] == 'a');
            assert(s@[7] == 't');
            assert(s@[8] == 'e');
            assert(s@[9] == ' ');
            assert(s@.subrange(0, 10) =~= "Negotiate "@);
        } else {
            if has_negotiate_prefix(s@) {
                assert(forall|i: int| 0 <= i < 10 ==> s@.subrange(0, 10)[i] == s@[i]);
                assert(s@[0] == 'N' && s@[1] == 'e' && s@[2] == 'g' && s@[3] == 'o' && s@[4]
                    == 't' && s@[5] == 'i' && s@[6] == 'a' && s@[7] == 't' && s@[8] == 'e' && s@[9]
                    == ' ');
                assert(false);
            }
        }
    }
    if !good {
        return Err(Error::InvalidAuthorizationHeader);
    }
    match b64_decode_from(s, 10) {
        Some(v) => {
            proof {
                assert(token_text(s@) =~= s@.subrange(10, s@.len() as int));
            }
            Ok(v)
        },
        None => Err(Error::InvalidGssapiData),
    }
}

/// The `WWW-Authenticate` value owed after a completed exchange: the
/// scheme name and the base64 of the continuation token, which is the
/// scheme name and a trailing space alone when there is no token.
pub open spec fn challenge_value(token: Option<Seq<u8>>) -> Seq<char> {
    "Negotiate "@ + match token {
        Some(b) => b64_encode(b),
        None => Seq::empty(),
    }
}

/// Formats the continuation challenge, as `challenge_value` says; the
/// result is always ASCII, so it is always a well-formed header value.
pub fn encode_challenge(token: Option<&Vec<u8>>) -> (r: String)
    ensures
        r@ == challenge_value(
            match token {
                Some(t) => Some(t@),
                None => None,
            },
        ),
        is_ascii_chars(r@),
{
    let mut out = String::from_str("Negotiate ");
    match token {
        Some(t) => {
            let enc = b64_encode_bytes(t);
            out.append(enc.as_str());
        },
        None => {
            proof {
                assert(out@ + Seq::<char>::empty() =~= out@);
            }
        },
    }
    proof {
        reveal_strlit("Negotiate ");
        assert(is_ascii_chars("Negotiate "@));
        broadcast use vstd::utf8::is_ascii_chars_concat;

        assert(out@ =~= "Negotiate "@ + match token {
            Some(t) => b64_encode(t@),
            None => Seq::<char>::empty(),
        });
    }
    out
}

/// The bare challenge sent with a 401 rejection: the scheme name alone.
pub fn bare_challenge() -> (r: String)
    ensures
        r@ == "Negotiate"@,
{
    String::from_str("Negotiate")
}

/// Every request without a usable `Authorization` header — absent, not
/// readable ASCII header text, or without the `Negotiate ` scheme — is
/// refused with status 401 and a bare `Negotiate` challenge.
pub proof fn lemma_missing_header_unauthorized(auth: Option<Seq<char>>)
    requires
        auth matches Some(s) ==> !(is_ascii_chars(s) && has_negotiate_prefix(s)),
    ensures
        decode_request_spec(auth) matches Err(e) && e.status_spec() == 401 && e.challenge_spec()
            == Some("Negotiate"@),
{
}

/// Every request whose token text is not valid base64 is refused with
/// status 400 and no challenge header.
pub proof fn lemma_invalid_token_bad_request(auth: Seq<char>)
    requires
        is_ascii_chars(auth),
        has_negotiate_prefix(auth),
        b64_decode(token_text(auth)) is None,
    ensures
        decode_request_spec(Some(auth)) matches Err(e) && e.status_spec() == 400
            && e.challenge_spec() is None,
{
}

/// The challenge after an exchange that produced no continuation token is
/// the scheme name and a trailing space alone.
pub proof fn lemma_empty_challenge()
    ensures
        challenge_value(None) == "Negotiate "@,
{
    assert(challenge_value(None) =~= "Negotiate "@);
}

/// Decoding a wire token and re-encoding the decoded bytes restores the
/// original text: the strict decoder accepts only the canonical encoding
/// of the bytes it returns.
pub fn reencode_token(s: &str) -> (r: Option<String>)
    ensures
        r matches Some(t) ==> t@ == s@,
        r is Some <==> (is_ascii_chars(s@) && b64_decode(s@) is Some),
{
    if !s.is_ascii() {
        return None;
    }
    proof {
        assert(s@.subrange(0, s@.len() as int) =~= s@);
    }
    match b64_decode_from(s, 0) {
        Some(v) => Some(b64_encode_bytes(&v)),
        None => None,
    }
}

} // verus!
