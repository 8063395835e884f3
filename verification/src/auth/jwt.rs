//! Identity claims and the signed tokens that carry them.

use jsonwebtoken::{DecodingKey, EncodingKey};
use vstd::prelude::*;

verus! {

/// Signing key of the `jsonwebtoken` crate, carried through as an opaque value.
#[verifier::external_type_specification]
#[verifier::external_body]
pub struct ExEncodingKey(jsonwebtoken::EncodingKey);

/// Verification key of the `jsonwebtoken` crate, carried through as an opaque value.
#[verifier::external_type_specification]
#[verifier::external_body]
pub struct ExDecodingKey(jsonwebtoken::DecodingKey);

/// The shared secret that a signing key holds; `None` for a key that is not
/// a shared-secret key.
pub uninterp spec fn encoding_secret(key: EncodingKey) -> Option<Seq<u8>>;

/// The shared secret that a verification key holds; `None` for a key that is
/// not a shared-secret key.
pub uninterp spec fn decoding_secret(key: DecodingKey) -> Option<Seq<u8>>;

/// `jsonwebtoken::EncodingKey::from_secret`: the key it returns holds exactly
/// the bytes given.
#[verifier::external_body]
fn encoding_key_from_secret(secret: &[u8]) -> (key: EncodingKey)
    ensures
        encoding_secret(key) == Some(secret@),
{
    EncodingKey::from_secret(secret)
}

/// `jsonwebtoken::DecodingKey::from_secret`: the key it returns holds exactly
/// the bytes given.
#[verifier::external_body]
fn decoding_key_from_secret(secret: &[u8]) -> (key: DecodingKey)
    ensures
        decoding_secret(key) == Some(secret@),
{
    DecodingKey::from_secret(secret)
}

/// The pair of keys derived from one configured secret.
pub struct Keys {
    pub encoding: EncodingKey,
    pub decoding: DecodingKey,
}

impl Keys {
    /// Both keys hold `secret`.
    pub open spec fn holds(&self, secret: Seq<u8>) -> bool {
        &&& encoding_secret(self.encoding) == Some(secret)
        &&& decoding_secret(self.decoding) == Some(secret)
    }

    pub fn new(secret: &[u8]) -> (keys: Keys)
        ensures
            keys.holds(secret@),
    {
        Keys {
            encoding: encoding_key_from_secret(secret),
            decoding: decoding_key_from_secret(secret),
        }
    }
}

/// The payload of an identity token.
#[derive(Debug, PartialEq, Eq)]
pub struct Claims {
    /// Identifier of the user the token was issued to.
    pub id: String,
    /// The user's salt at the moment of issue.
    pub salt: String,
    /// Expiration, in seconds since the Unix epoch.
    pub exp: usize,
}

/// What a `Claims` value stands for.
pub struct ClaimsView {
    pub id: Seq<char>,
    pub salt: Seq<char>,
    pub exp: usize,
}

impl View for Claims {
    type V = ClaimsView;

    open spec fn view(&self) -> ClaimsView {
        ClaimsView { id: self.id@, salt: self.salt@, exp: self.exp }
    }
}

impl Clone for Claims {
    fn clone(&self) -> (copy: Claims)
        ensures
            copy@ == self@,
    {
        Claims { id: self.id.clone(), salt: self.salt.clone(), exp: self.exp }
    }
}

/// A token could not be produced.
#[derive(Debug, PartialEq, Eq, Structural, Clone, Copy)]
pub struct EncodeError;

impl EncodeError {
    pub fn message(&self) -> (text: &'static str)
        ensures
            text@ == "Error encoding token"@,
    {
        "Error encoding token"
    }
}

/// The token that signing the claims `(id, salt, exp)` with `secret` yields.
pub uninterp spec fn signed_token(id: Seq<char>, salt: Seq<char>, exp: usize, secret: Seq<u8>) -> Seq<char>;

/// The three claim fields, each as far as it is present with the right type,
/// that a token carries if its signature verifies under `secret`; `None` for
/// a token that is malformed or whose signature does not verify.
pub uninterp spec fn token_fields(token: Seq<char>, secret: Seq<u8>) -> Option<
    (Option<Seq<char>>, Option<Seq<char>>, Option<u64>),
>;

/// The claim fields read from a token whose signature verified.
pub struct TokenFields {
    pub id: Option<String>,
    pub salt: Option<String>,
    pub exp: Option<u64>,
}

impl View for TokenFields {
    type V = (Option<Seq<char>>, Option<Seq<char>>, Option<u64>);

    open spec fn view(&self) -> (Option<Seq<char>>, Option<Seq<char>>, Option<u64>) {
        (
            match self.id {
                Some(id) => Some(id@),
                None => None,
            },
            match self.salt {
                Some(salt) => Some(salt@),
                None => None,
            },
            self.exp,
        )
    }
}

/// `jsonwebtoken::encode` with the default header, on the object
/// `{"id", "salt", "exp"}`. With a shared-secret key it succeeds and returns
/// the signed token, a function of the three fields and the secret; read back
/// under the same secret, that token yields the three fields again. With any
/// other key it fails.
#[verifier::external_body]
fn sign_fields(id: &str, salt: &str, exp: usize, key: &EncodingKey) -> (r: Option<String>)
    ensures
        match encoding_secret(*key) {
            Some(secret) => r is Some && r->Some_0@ == signed_token(id@, salt@, exp, secret)
                && token_fields(r->Some_0@, secret) == Some(
                (Some(id@), Some(salt@), Some(exp as u64)),
            ),
            None => r is None,
        },
{
    let mut payload = serde_json::Map::new();
    payload.insert(String::from("id"), serde_json::Value::from(id));
    payload.insert(String::from("salt"), serde_json::Value::from(salt));
    payload.insert(String::from("exp"), serde_json::Value::from(exp));
    jsonwebtoken::encode(&jsonwebtoken::Header::default(), &payload, key).ok()
}

/// `jsonwebtoken::decode` with the default validation, the expiry test
/// switched off. With a shared-secret key it succeeds exactly on the tokens
/// whose signature verifies under the secret, and then hands out the fields
/// `id`, `salt` and `exp` of the payload; with any other key it fails.
#[verifier::external_body]
pub(crate) fn read_fields(token: &str, key: &DecodingKey) -> (r: Option<TokenFields>)
    ensures
        match decoding_secret(*key) {
            Some(secret) => match r {
                Some(fields) => token_fields(token@, secret) == Some(fields@),
                None => token_fields(token@, secret) is None,
            },
            None => r is None,
        },
{
    let mut validation = jsonwebtoken::Validation::default();
    validation.validate_exp = false;
    let payload = jsonwebtoken::decode::<serde_json::Value>(token, key, &validation).ok()?.claims;
    Some(
        TokenFields {
            id: payload.get("id").and_then(serde_json::Value::as_str).map(String::from),
            salt: payload.get("salt").and_then(serde_json::Value::as_str).map(String::from),
            exp: payload.get("exp").and_then(serde_json::Value::as_u64),
        },
    )
}

/// The token for `claims` under the secret of `key`, where it has one.
pub open spec fn token_of(claims: ClaimsView, key: EncodingKey) -> Option<Seq<char>> {
    match encoding_secret(key) {
        Some(secret) => Some(signed_token(claims.id, claims.salt, claims.exp, secret)),
        None => None,
    }
}

/// Whether `token` was issued for `claims` under `secret`: it is the signed
/// token of the claims, and its signature verifies and gives the claims back.
pub open spec fn issued_under(token: Seq<char>, secret: Seq<u8>, claims: ClaimsView) -> bool {
    &&& token == signed_token(claims.id, claims.salt, claims.exp, secret)
    &&& token_fields(token, secret) == Some(
        (Some(claims.id), Some(claims.salt), Some(claims.exp as u64)),
    )
}

/// Signs `claims` into a token. Succeeds with every shared-secret key, and
/// the token is then issued for the claims under the key's secret; fails
/// with any other key.
pub fn create_token(claims: &Claims, encoding_key: &EncodingKey) -> (r: Result<String, EncodeError>)
    ensures
        match encoding_secret(*encoding_key) {
            Some(secret) => r is Ok && issued_under(r->Ok_0@, secret, claims@),
            None => r == Err::<String, EncodeError>(EncodeError),
        },
{
    match sign_fields(claims.id.as_str(), claims.salt.as_str(), claims.exp, encoding_key) {
        Some(token) => Ok(token),
        None => Err(EncodeError),
    }
}

/// The claims that `token` yields at time `now` under `secret`: the token's
/// signature verifies, all three fields are there, and the expiration is not
/// in the past.
pub open spec fn claims_at(token: Seq<char>, secret: Seq<u8>, now: i64) -> Option<ClaimsView> {
    match token_fields(token, secret) {
        Some((Some(id), Some(salt), Some(exp))) => if now <= exp && exp <= usize::MAX {
            Some(ClaimsView { id, salt, exp: exp as usize })
        } else {
            None
        },
        _ => None,
    }
}

/// The claims that `token` yields at time `now` under `key`; a key without a
/// shared secret yields none.
pub open spec fn decoded(token: Seq<char>, key: DecodingKey, now: i64) -> Option<ClaimsView> {
    match decoding_secret(key) {
        Some(secret) => claims_at(token, secret, now),
        None => None,
    }
}

/// Decoding undoes encoding: a token issued for `claims` under `secret`
/// yields exactly those claims at every moment up to their expiration.
pub proof fn decode_inverts_encode(token: Seq<char>, secret: Seq<u8>, claims: ClaimsView, now: i64)
    requires
        issued_under(token, secret, claims),
        now <= claims.exp,
    ensures
        claims_at(token, secret, now) == Some(claims),
{
}

/// A token whose expiration lies in the past yields no claims, whether or
/// not its signature verifies: claims that come out have not expired.
pub proof fn expired_is_rejected(token: Seq<char>, secret: Seq<u8>, now: i64)
    ensures
        claims_at(token, secret, now) matches Some(claims) ==> now <= claims.exp,
        token_fields(token, secret) matches Some((_, _, Some(exp))) && exp < now ==> claims_at(
            token,
            secret,
            now,
        ) is None,
{
}

} // verus!
