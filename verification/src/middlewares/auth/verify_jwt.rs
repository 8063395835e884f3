//! From the `Authorization` header to verified claims.

use crate::auth::jwt::{decoded, read_fields, Claims, ClaimsView, Keys, TokenFields};
use crate::clock::unix_now;
use crate::status::UNAUTHORIZED;
use crate::text::same_text;
use jsonwebtoken::DecodingKey;
use vstd::prelude::*;

verus! {

/// A token was malformed, carried a bad signature, lacked a claim or had
/// expired. The cause is deliberately not told apart.
#[derive(Debug, PartialEq, Eq, Structural, Clone, Copy)]
pub struct JWTDecryptError;

impl JWTDecryptError {
    /// The status sent to the client.
    pub fn status(&self) -> (code: u16)
        ensures
            code == UNAUTHORIZED,
    {
        UNAUTHORIZED
    }

    /// The body sent to the client.
    pub fn body(&self) -> (text: &'static str)
        ensures
            text@ == "Unauthorized"@,
    {
        "Unauthorized"
    }

    /// The text of the error for the server's log.
    pub fn message(&self) -> (text: &'static str)
        ensures
            text@ == "Error decrypting JWT"@,
    {
        "Error decrypting JWT"
    }
}

/// The value of an `Authorization` header, as text.
#[derive(Debug, PartialEq, Eq)]
pub struct BearerToken(pub String);

/// A header byte that may stand in header text: visible ASCII, space or tab.
pub open spec fn is_text_byte(b: u8) -> bool {
    32 <= b < 127 || b == 9
}

/// The text of a header value, where every byte of it is a text byte.
pub open spec fn header_text(raw: Seq<u8>) -> Option<Seq<char>> {
    if forall|i: int| 0 <= i < raw.len() ==> is_text_byte(#[trigger] raw[i]) {
        Some(raw.map_values(|b: u8| b as char))
    } else {
        None
    }
}

/// `HeaderValue::from_bytes` followed by `HeaderValue::to_str`, of the `http`
/// crate that `axum` hands on: the value is text exactly where each byte is
/// visible ASCII, a space or a tab, and the text then has one character per
/// byte.
#[verifier::external_body]
fn header_to_text(raw: &[u8]) -> (text: Option<String>)
    ensures
        match text {
            Some(t) => header_text(raw@) == Some(t@),
            None => header_text(raw@) is None,
        },
{
    axum::http::HeaderValue::from_bytes(raw).ok()?.to_str().ok().map(String::from)
}

/// What bearer extraction yields for a header: its text, or nothing where
/// the header is absent or not text.
pub open spec fn extracted(header: Option<Seq<u8>>) -> Option<Seq<char>> {
    match header {
        Some(raw) => header_text(raw),
        None => None,
    }
}

impl BearerToken {
    /// Takes the `Authorization` header of a request. Rejects with
    /// `UNAUTHORIZED` where the header is absent or is not text.
    pub fn from_header(header: Option<&[u8]>) -> (r: Result<BearerToken, u16>)
        ensures
            match extracted(
                match header {
                    Some(raw) => Some(raw@),
                    None => None,
                },
            ) {
                Some(text) => r is Ok && r->Ok_0.0@ == text,
                None => r == Err::<BearerToken, u16>(UNAUTHORIZED),
            },
    {
        match header {
            Some(raw) => match header_to_text(raw) {
                Some(text) => Ok(BearerToken(text)),
                None => Err(UNAUTHORIZED),
            },
            None => Err(UNAUTHORIZED),
        }
    }

    /// Takes the `Authorization` header of a request that may be anonymous:
    /// no header gives no token and no rejection; a header that is there
    /// must be text, and is rejected with `UNAUTHORIZED` where it is not.
    pub fn from_optional_header(header: Option<&[u8]>) -> (r: Result<Option<BearerToken>, u16>)
        ensures
            match header {
                None => r is Ok && r->Ok_0 is None,
                Some(raw) => match header_text(raw@) {
                    Some(text) => r is Ok && r->Ok_0 is Some && r->Ok_0->Some_0.0@ == text,
                    None => r == Err::<Option<BearerToken>, u16>(UNAUTHORIZED),
                },
            },
    {
        match header {
            None => Ok(None),
            Some(raw) => match BearerToken::from_header(Some(raw)) {
                Ok(bearer) => Ok(Some(bearer)),
                Err(status) => Err(status),
            },
        }
    }

    /// The token proper: the header text without a leading `"Bearer "`.
    pub fn token(&self) -> (text: String)
        ensures
            text@ == without_scheme(self.0@),
    {
        let whole = self.0.as_str();
        let n = whole.unicode_len();
        proof {
            reveal_strlit("Bearer ");
        }
        if n >= 7 && same_text(whole.substring_char(0, 7), "Bearer ") {
            assert(whole@.subrange(0, 7) == "Bearer "@);
            assert(whole@.skip(7) =~= whole@.subrange(7, n as int));
            whole.substring_char(7, n).to_owned()
        } else {
            assert(!scheme().is_prefix_of(whole@)) by {
                if scheme().is_prefix_of(whole@) {
                    assert(whole@.subrange(0, 7) =~= "Bearer "@);
                }
            }
            whole.to_owned()
        }
    }
}

/// Bearer extraction: the token of a request, from the bytes of its
/// `Authorization` header. Rejects with `UNAUTHORIZED` where the header is
/// absent or is not text; otherwise the token is the header's text without a
/// leading `"Bearer "`.
pub fn extract_bearer(header: Option<&[u8]>) -> (r: Result<String, u16>)
    ensures
        match extracted(
            match header {
                Some(raw) => Some(raw@),
                None => None,
            },
        ) {
            Some(text) => r is Ok && r->Ok_0@ == without_scheme(text),
            None => r == Err::<String, u16>(UNAUTHORIZED),
        },
{
    match BearerToken::from_header(header) {
        Ok(bearer) => Ok(bearer.token()),
        Err(status) => Err(status),
    }
}

/// The scheme word, with its space, that precedes a bearer token.
pub open spec fn scheme() -> Seq<char> {
    "Bearer "@
}

/// `text` without a leading scheme word; `text` itself where it has none.
pub open spec fn without_scheme(text: Seq<char>) -> Seq<char> {
    if scheme().is_prefix_of(text) {
        text.skip(scheme().len() as int)
    } else {
        text
    }
}

/// What decoding makes of the fields read from a token, at time `now`.
pub open spec fn accepted(fields: Option<TokenFields>, now: i64) -> Option<ClaimsView> {
    match fields {
        Some(TokenFields { id: Some(id), salt: Some(salt), exp: Some(exp) }) => if now <= exp
            && exp <= usize::MAX {
            Some(ClaimsView { id: id@, salt: salt@, exp: exp as usize })
        } else {
            None
        },
        _ => None,
    }
}

/// Turns the fields read from a token into claims: all three must be there,
/// and the expiration must not lie before `now`.
pub fn claims_from_fields(fields: Option<TokenFields>, now: i64) -> (r: Result<
    Claims,
    JWTDecryptError,
>)
    ensures
        match accepted(fields, now) {
            Some(claims) => r is Ok && r->Ok_0@ == claims,
            None => r == Err::<Claims, JWTDecryptError>(JWTDecryptError),
        },
{
    match fields {
        Some(TokenFields { id: Some(id), salt: Some(salt), exp: Some(exp) }) => {
            if exp > usize::MAX as u64 {
                return Err(JWTDecryptError);
            }
            if now > 0 && now as u64 > exp {
                return Err(JWTDecryptError);
            }
            Ok(Claims { id, salt, exp: exp as usize })
        },
        _ => Err(JWTDecryptError),
    }
}

/// Decodes `token` as of time `now`. Succeeds exactly where the signature
/// verifies under `decoding_key`, the three claims are present and the
/// expiration is not in the past; every failure is the same error.
pub fn get_claims_at(token: &str, decoding_key: &DecodingKey, now: i64) -> (r: Result<
    Claims,
    JWTDecryptError,
>)
    ensures
        match decoded(token@, *decoding_key, now) {
            Some(claims) => r is Ok && r->Ok_0@ == claims,
            None => r == Err::<Claims, JWTDecryptError>(JWTDecryptError),
        },
{
    claims_from_fields(read_fields(token, decoding_key), now)
}

/// Decodes `token` as of the current time. Whatever the clock says, claims
/// that come back are those the token yields at some moment, and a token
/// that yields claims at no moment is rejected.
pub fn get_claims(token: &str, decoding_key: &DecodingKey) -> (r: Result<Claims, JWTDecryptError>)
    ensures
        exists|now: i64|
            match #[trigger] decoded(token@, *decoding_key, now) {
                Some(claims) => r is Ok && r->Ok_0@ == claims,
                None => r == Err::<Claims, JWTDecryptError>(JWTDecryptError),
            },
{
    let now = unix_now();
    get_claims_at(token, decoding_key, now)
}

/// Claims verification on a request that must carry a token.
pub fn get_claims_from_auth_token(bearer_token: BearerToken, keys: &Keys) -> (r: Result<
    Claims,
    JWTDecryptError,
>)
    ensures
        exists|now: i64|
            match #[trigger] decoded(without_scheme(bearer_token.0@), keys.decoding, now) {
                Some(claims) => r is Ok && r->Ok_0@ == claims,
                None => r == Err::<Claims, JWTDecryptError>(JWTDecryptError),
            },
{
    let token = bearer_token.token();
    get_claims(token.as_str(), &keys.decoding)
}

/// What optional claims verification yields: no header gives no claims, a
/// header is verified as on a request that must carry a token.
pub open spec fn optional_claims(
    header_text: Option<Seq<char>>,
    key: DecodingKey,
    now: i64,
) -> Result<Option<ClaimsView>, JWTDecryptError> {
    match header_text {
        None => Ok(None),
        Some(text) => match decoded(without_scheme(text), key, now) {
            Some(claims) => Ok(Some(claims)),
            None => Err(JWTDecryptError),
        },
    }
}

/// The header text of a request that may carry none.
pub open spec fn bearer_text(auth_token: Option<BearerToken>) -> Option<Seq<char>> {
    match auth_token {
        Some(t) => Some(t.0@),
        None => None,
    }
}

/// Whether `r` is the outcome `expected` of optional claims verification.
pub open spec fn is_optional_claims(
    r: Result<Option<Claims>, JWTDecryptError>,
    expected: Result<Option<ClaimsView>, JWTDecryptError>,
) -> bool {
    match expected {
        Ok(Some(claims)) => r is Ok && r->Ok_0 is Some && r->Ok_0->Some_0@ == claims,
        Ok(None) => r is Ok && r->Ok_0 is None,
        Err(e) => r == Err::<Option<Claims>, JWTDecryptError>(e),
    }
}

/// Claims verification, as of time `now`, on a request that may be
/// anonymous: without a header there are no claims and no rejection; a
/// header that is there must hold a valid token.
pub fn get_claims_from_optional_auth_token_at(
    auth_token: Option<BearerToken>,
    keys: &Keys,
    now: i64,
) -> (r: Result<Option<Claims>, JWTDecryptError>)
    ensures
        is_optional_claims(
            r,
            optional_claims(
                bearer_text(auth_token),
                keys.decoding,
                now,
            ),
        ),
{
    match auth_token {
        None => Ok(None),
        Some(bearer) => {
            let token = bearer.token();
            match get_claims_at(token.as_str(), &keys.decoding, now) {
                Ok(claims) => Ok(Some(claims)),
                Err(e) => Err(e),
            }
        },
    }
}

/// Claims verification, as of the current time, on a request that may be
/// anonymous.
pub fn get_claims_from_optional_auth_token(auth_token: Option<BearerToken>, keys: &Keys) -> (r:
    Result<Option<Claims>, JWTDecryptError>)
    ensures
        exists|now: i64|
            is_optional_claims(
                r,
                #[trigger] optional_claims(
                    bearer_text(auth_token),
                    keys.decoding,
                    now,
                ),
            ),
{
    let now = unix_now();
    get_claims_from_optional_auth_token_at(auth_token, keys, now)
}

} // verus!
