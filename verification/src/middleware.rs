//! The authentication middleware, run before every protected handler. Per
//! request it walks one fixed ladder: find a bearer token (cookie first,
//! then the authorization header), check its signature and expiry, read its
//! subject as an identifier, and finally re-resolve that subject against
//! the user store; the first missing rung rejects the request. It reads
//! exactly one thing from outside (the subject lookup, whose rows the
//! caller passes in) and writes nothing.

use vstd::prelude::*;
use vstd::string::*;

use crate::errors::ApiError;
use crate::ids::parse_uuid;
use crate::ids::uuid_parsed;
use crate::models::UserModel;
use crate::token;
use crate::token::jwt_decoded;
use crate::token::token_accepted;

verus! {

/// Whether a header value is `Bearer ` followed by a token.
pub open spec fn is_bearer(h: Seq<char>) -> bool {
    h.len() >= 7 && h[0] == 'B' && h[1] == 'e' && h[2] == 'a' && h[3] == 'r' && h[4] == 'e'
        && h[5] == 'r' && h[6] == ' '
}

/// The token a request carries: the session cookie's value when the cookie
/// is present, else what follows `Bearer ` in the authorization header,
/// else nothing.
pub open spec fn spec_extracted_token(
    cookie: Option<Seq<char>>,
    header: Option<Seq<char>>,
) -> Option<Seq<char>> {
    match cookie {
        Some(c) => Some(c),
        None => match header {
            Some(h) => if is_bearer(h) {
                Some(h.skip(7))
            } else {
                None
            },
            None => None,
        },
    }
}

/// What the middleware decides from the request's credentials alone: the
/// authenticated subject's identifier, or the rejection owed. A token that
/// fails signature or expiry and a token whose subject is not a well-formed
/// identifier are rejected identically, so a client cannot tell which check
/// failed.
pub open spec fn spec_authenticate(
    cookie: Option<Seq<char>>,
    header: Option<Seq<char>>,
    secret: Seq<char>,
    now: u64,
) -> Result<u128, ApiError> {
    match spec_extracted_token(cookie, header) {
        None => Err(ApiError::NotLoggedIn),
        Some(t) => if !token_accepted(secret, t, now) {
            Err(ApiError::InvalidToken)
        } else {
            match jwt_decoded(secret, t) {
                Some(c) => match uuid_parsed(c.0) {
                    Some(id) => Ok(id),
                    None => Err(ApiError::InvalidToken),
                },
                None => Err(ApiError::InvalidToken),
            }
        },
    }
}

/// The token that follows `Bearer ` in a header value, if the value has
/// that shape.
fn bearer_token(h: &str) -> (r: Option<String>)
    ensures
        match r {
            Some(t) => is_bearer(h@) && t@ == h@.skip(7),
            None => !is_bearer(h@),
        },
{
    let n = h.unicode_len();
    if n < 7 {
        return None;
    }
    if h.get_char(0) == 'B' && h.get_char(1) == 'e' && h.get_char(2) == 'a' && h.get_char(3) == 'r'
        && h.get_char(4) == 'e' && h.get_char(5) == 'r' && h.get_char(6) == ' ' {
        Some(h.substring_char(7, n).to_owned())
    } else {
        None
    }
}

/// Looks the request's bearer token up: the session cookie's value first,
/// else the authorization header's `Bearer ` remainder.
pub fn extract_token(cookie: &Option<String>, header: &Option<String>) -> (r: Option<String>)
    ensures
        match r {
            Some(t) => spec_extracted_token(cookie.deep_view(), header.deep_view()) == Some(t@),
            None => spec_extracted_token(cookie.deep_view(), header.deep_view()) is None,
        },
{
    match cookie {
        Some(c) => Some(c.clone()),
        None => match header {
            Some(h) => bearer_token(h.as_str()),
            None => None,
        },
    }
}

/// Runs the credential rungs of the ladder: token lookup, signature and expiry
/// check, subject parse. What remains for the caller is the one outside
/// read, the subject lookup, answered by `resolve_user`.
pub fn authenticate(
    cookie: &Option<String>,
    header: &Option<String>,
    secret: &String,
    now: u64,
) -> (r: Result<u128, ApiError>)
    ensures
        r == spec_authenticate(cookie.deep_view(), header.deep_view(), secret@, now),
{
    let tok = match extract_token(cookie, header) {
        Some(t) => t,
        None => {
            return Err(ApiError::NotLoggedIn);
        },
    };
    let claims = match token::verify(&tok, now, secret) {
        Some(c) => c,
        None => {
            return Err(ApiError::InvalidToken);
        },
    };
    match parse_uuid(claims.sub.as_str()) {
        Some(id) => Ok(id),
        None => Err(ApiError::InvalidToken),
    }
}

/// Settles the subject lookup: the user row the store answered with, or the
/// rejection owed when the subject no longer exists.
pub fn resolve_user(rows: Vec<UserModel>) -> (r: Result<UserModel, ApiError>)
    ensures
        rows@.len() == 0 ==> r == Err::<UserModel, ApiError>(ApiError::UserGone),
        rows@.len() > 0 ==> (r matches Ok(u) && u@ == rows@[0]@),
{
    let mut rows = rows;
    if rows.len() == 0 {
        Err(ApiError::UserGone)
    } else {
        Ok(rows.remove(0))
    }
}

} // verus!
