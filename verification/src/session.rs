//! Session tokens for multi-user mode: HS256 JWTs whose subject (`sub`) is
//! the user id, issued at a given time and expiring 30 days later.

use vstd::prelude::*;

use crate::text::owned;

verus! {

/// How long a session lasts: 30 days, in seconds.
pub const SESSION_TTL_SECS: i64 = 2592000;

/// The claims of a session for `user_id` issued at `now_unix`: subject,
/// issued-at and expiry (seconds since the epoch).
pub fn session_claims(user_id: &str, now_unix: i64) -> (c: (String, i64, i64))
    requires
        now_unix + SESSION_TTL_SECS <= i64::MAX,
    ensures
        c.0@ == user_id@,
        c.1 == now_unix,
        c.2 == now_unix + SESSION_TTL_SECS,
{
    (owned(user_id), now_unix, now_unix + SESSION_TTL_SECS)
}

/// The token `jsonwebtoken::encode` makes with the default header (HS256)
/// from the claims `{"exp", "iat", "sub"}` and an HMAC key made of `secret`.
pub uninterp spec fn jwt_hs256(secret: Seq<char>, sub: Seq<char>, iat: int, exp: int) -> Seq<char>;

/// The claims `(sub, iat, exp)` that `jsonwebtoken::decode` with
/// `DecodingKey::from_secret(secret)` and `Validation::default()` accepts in
/// `token`, leaving out the one check that reads the clock (expiry): `None`
/// when the token is malformed, its header is not HS256, its signature does
/// not match, a claim is missing or of another type (`sub` a string, `iat` and
/// `exp` 64-bit integers, `exp` not negative), or it names an audience.
pub uninterp spec fn jwt_hs256_claims(secret: Seq<char>, token: Seq<char>) -> Option<(Seq<char>, int, int)>;

/// Calls `jsonwebtoken::encode` with `Header::default()` (HS256), the claims
/// as a JSON object (written in key order: `exp`, `iat`, `sub`) and
/// `EncodingKey::from_secret`. Claimed, from the crate's source: it succeeds
/// (the key family matches HS256, a map of strings and integers always
/// serializes, HMAC signing cannot fail); the token is a function of the
/// secret and the claims alone, named [`jwt_hs256`]; and decoding it with the
/// same secret gives the claims back, as [`jwt_hs256_claims`] (when `exp` is
/// not negative, as the decoder reads it unsigned).
#[verifier::external_body]
fn encode_session(secret: &str, sub: &str, iat: i64, exp: i64) -> (r: Result<String, String>)
    ensures
        r is Ok,
        r matches Ok(t) ==> t@ == jwt_hs256(secret@, sub@, iat as int, exp as int),
        r matches Ok(t) ==> (0 <= exp ==> jwt_hs256_claims(secret@, t@) == Some((sub@, iat as int, exp as int))),
{
    let mut claims = serde_json::Map::new();
    claims.insert("sub".to_string(), serde_json::Value::from(sub));
    claims.insert("exp".to_string(), serde_json::Value::from(exp));
    claims.insert("iat".to_string(), serde_json::Value::from(iat));
    let key = jsonwebtoken::EncodingKey::from_secret(secret.as_bytes());
    jsonwebtoken::encode(&jsonwebtoken::Header::default(), &claims, &key).map_err(|e| e.to_string())
}

/// Calls `jsonwebtoken::decode` with `DecodingKey::from_secret` and
/// `Validation::default()` (HS256, `exp` required and checked against the
/// current time), reading the claims `sub` (a string) and `iat`, `exp`
/// (64-bit integers). Claimed: what it returns are the token's claims as
/// [`jwt_hs256_claims`] names them; whether it returns them at all also
/// depends on the clock, which is left unsaid.
#[verifier::external_body]
fn decode_session(secret: &str, token: &str) -> (r: Option<(String, i64, i64)>)
    ensures
        r matches Some(c) ==> jwt_hs256_claims(secret@, token@) == Some((c.0@, c.1 as int, c.2 as int)),
{
    let key = jsonwebtoken::DecodingKey::from_secret(secret.as_bytes());
    let validation = jsonwebtoken::Validation::default();
    let data = jsonwebtoken::decode::<serde_json::Map<String, serde_json::Value>>(token, &key, &validation).ok()?;
    let sub = data.claims.get("sub")?.as_str()?.to_string();
    let iat = data.claims.get("iat")?.as_i64()?;
    let exp = data.claims.get("exp")?.as_i64()?;
    Some((sub, iat, exp))
}

/// The user a decoded session belongs to: its subject.
pub fn session_user(decoded: Option<(String, i64, i64)>) -> (r: Option<String>)
    ensures
        r == match decoded {
            Some(c) => Some(c.0),
            None => None::<String>,
        },
{
    match decoded {
        Some(c) => Some(c.0),
        None => None,
    }
}

/// Issues and verifies signed session tokens with one shared secret.
#[derive(Debug, Clone, PartialEq, Eq)]
pub struct JwtCodec {
    pub secret: String,
}

impl JwtCodec {
    /// A codec signing with `secret`.
    pub fn new(secret: &str) -> (c: JwtCodec)
        ensures
            c.secret@ == secret@,
    {
        JwtCodec { secret: owned(secret) }
    }

    /// A signed token for `user_id`, issued at `now_unix` and expiring
    /// [`SESSION_TTL_SECS`] later.
    pub fn issue(&self, user_id: &str, now_unix: i64) -> (r: Result<String, String>)
        requires
            now_unix + SESSION_TTL_SECS <= i64::MAX,
        ensures
            r is Ok,
            r matches Ok(t) ==> t@ == jwt_hs256(self.secret@, user_id@, now_unix as int, now_unix + SESSION_TTL_SECS),
            r matches Ok(t) ==> (0 <= now_unix + SESSION_TTL_SECS ==> jwt_hs256_claims(self.secret@, t@) == Some(
                (user_id@, now_unix as int, now_unix + SESSION_TTL_SECS),
            )),
    {
        let (sub, iat, exp) = session_claims(user_id, now_unix);
        encode_session(self.secret.as_str(), sub.as_str(), iat, exp)
    }

    /// The user id of a token signed with this codec's secret that has not
    /// expired, or `None` for any failure (bad signature, expired, malformed).
    /// A user id it answers is the subject of the token's claims; whether an
    /// acceptable token has expired depends on the clock.
    pub fn verify(&self, token: &str) -> (r: Option<String>)
        ensures
            r matches Some(u) ==> (jwt_hs256_claims(self.secret@, token@) matches Some(c) && u@ == c.0),
            jwt_hs256_claims(self.secret@, token@) is None ==> r is None,
    {
        session_user(decode_session(self.secret.as_str(), token))
    }
}

} // verus!
