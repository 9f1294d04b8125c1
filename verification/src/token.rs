//! The token codec: signed, time-bounded bearer tokens carrying a subject
//! identifier. Issue embeds issued-at and expiry; verification checks the
//! signature through jsonwebtoken and the expiry here, against the clock
//! value the caller passes in.

use vstd::prelude::*;

use crate::schemas::TokenClaims;

verus! {

/// How long an issued token stays valid, in seconds.
pub const TOKEN_TTL_SECONDS: u64 = 3600;

/// What decoding a token against a secret yields: the subject, issued-at
/// and expiry claims it carries, or nothing when the signature does not
/// match the secret or the payload is not shaped as those three claims.
pub uninterp spec fn jwt_decoded(secret: Seq<char>, token: Seq<char>) -> Option<
    (Seq<char>, u64, u64),
>;

/// Whether a token is accepted against `secret` at time `now`: it decodes,
/// and `now` lies before its expiry.
pub open spec fn token_accepted(secret: Seq<char>, token: Seq<char>, now: u64) -> bool {
    match jwt_decoded(secret, token) {
        Some(c) => now < c.2,
        None => false,
    }
}

/// Relies on `jsonwebtoken::encode` with the default (HS256) header: the
/// returned token is signed with the secret and carries exactly the claims
/// given, so decoding it with the same secret yields them back. The call
/// cannot fail here: the key is built for HMAC, matching the default
/// header's algorithm family, serializing the three claims is total, and
/// HMAC signing returns its digest unconditionally.
#[verifier::external_body]
fn jwt_encode(sub: &str, iat: u64, exp: u64, secret: &str) -> (r: String)
    ensures
        jwt_decoded(secret@, r@) == Some((sub@, iat, exp)),
{
    let mut claims = serde_json::Map::new();
    claims.insert("sub".to_string(), serde_json::Value::String(sub.to_string()));
    claims.insert("iat".to_string(), serde_json::Value::from(iat));
    claims.insert("exp".to_string(), serde_json::Value::from(exp));
    jsonwebtoken::encode(
        &jsonwebtoken::Header::default(),
        &serde_json::Value::Object(claims),
        &jsonwebtoken::EncodingKey::from_secret(secret.as_bytes()),
    )
    .unwrap()
}

/// Relies on `jsonwebtoken::decode` restricted to HS256 signature checking
/// (no expiry validation: expiry is checked by the caller, against the
/// clock value it was given). A token whose claims lack a string `sub` and
/// integer `iat` and `exp` counts as not decoding. The outcome is a
/// function of the token and the secret alone.
#[verifier::external_body]
fn jwt_decode(token: &str, secret: &str) -> (r: Option<(String, u64, u64)>)
    ensures
        match r {
            Some(c) => jwt_decoded(secret@, token@) == Some((c.0@, c.1, c.2)),
            None => jwt_decoded(secret@, token@) is None,
        },
{
    let mut validation = jsonwebtoken::Validation::new(jsonwebtoken::Algorithm::HS256);
    validation.validate_exp = false;
    validation.required_spec_claims = std::collections::HashSet::new();
    let key = jsonwebtoken::DecodingKey::from_secret(secret.as_bytes());
    let claims = jsonwebtoken::decode::<serde_json::Value>(token, &key, &validation).ok()?.claims;
    let sub = claims.get("sub")?.as_str()?.to_string();
    let iat = claims.get("iat")?.as_u64()?;
    let exp = claims.get("exp")?.as_u64()?;
    Some((sub, iat, exp))
}

/// Issues a token for `subject` at time `now`: issued-at is `now`, expiry
/// is `now` plus the fixed TTL, signed with `secret`. Issuing always
/// succeeds: symmetric signing has nothing to refuse.
pub fn issue(subject: &String, now: u64, secret: &String) -> (r: String)
    requires
        now + TOKEN_TTL_SECONDS <= u64::MAX,
    ensures
        jwt_decoded(secret@, r@) == Some((subject@, now, (now + TOKEN_TTL_SECONDS) as u64)),
{
    jwt_encode(subject.as_str(), now, now + TOKEN_TTL_SECONDS, secret.as_str())
}

/// Verifies a token at time `now`: the claims when the signature matches
/// and `now` lies before the expiry, nothing otherwise. A bad signature, a
/// malformed payload and an expired token are indistinguishable to the
/// caller.
pub fn verify(token: &String, now: u64, secret: &String) -> (r: Option<TokenClaims>)
    ensures
        r is Some <==> token_accepted(secret@, token@, now),
        r matches Some(c) ==> jwt_decoded(secret@, token@) == Some((c.sub@, c.iat, c.exp))
            && now < c.exp,
{
    match jwt_decode(token.as_str(), secret.as_str()) {
        Some((sub, iat, exp)) => {
            if now < exp {
                Some(TokenClaims { sub, iat, exp })
            } else {
                None
            }
        },
        None => None,
    }
}

/// The validity window of an issued token: one carrying expiry `t0` plus
/// the TTL is accepted at exactly the times before that expiry — every
/// `t0 <= t < t0 + TTL` and no `t >= t0 + TTL`.
pub proof fn lemma_token_validity_window(
    secret: Seq<char>,
    token: Seq<char>,
    sub: Seq<char>,
    t0: u64,
    t: u64,
)
    requires
        t0 + TOKEN_TTL_SECONDS <= u64::MAX,
        jwt_decoded(secret, token) == Some((sub, t0, (t0 + TOKEN_TTL_SECONDS) as u64)),
    ensures
        token_accepted(secret, token, t) <==> t < t0 + TOKEN_TTL_SECONDS,
{
}

} // verus!
