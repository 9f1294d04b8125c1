//! Response shapes: the user record with its password hash stripped, and the
//! uniform envelope wrappers around it.

use vstd::prelude::*;
use vstd::string::*;

use crate::ids::uuid_text;
use crate::models::UserView;

verus! {

/// A user as it may be shown to clients: every field of the row except the
/// password hash, with the identifier already in its text form.
#[derive(Clone, PartialEq, Eq, Debug)]
pub struct FilteredUser {
    pub id: String,
    pub username: String,
    pub email: String,
    pub created_at: i64,
}

/// The `data` part of a successful user response.
#[derive(Clone, PartialEq, Eq, Debug)]
pub struct UserData {
    pub user: FilteredUser,
}

/// The whole envelope of a successful user response.
#[derive(Clone, PartialEq, Eq, Debug)]
pub struct UserResponse {
    pub status: String,
    pub data: UserData,
}

/// The plain status-and-message envelope: every failed request answers
/// with it, and so does the health endpoint.
#[derive(Clone, PartialEq, Eq, Debug)]
pub struct ErrorResponse {
    pub status: String,
    pub message: String,
}

/// The mathematical value of a filtered user.
pub struct FilteredUserView {
    pub id: Seq<char>,
    pub username: Seq<char>,
    pub email: Seq<char>,
    pub created_at: i64,
}

impl View for FilteredUser {
    type V = FilteredUserView;

    open spec fn view(&self) -> FilteredUserView {
        FilteredUserView {
            id: self.id@,
            username: self.username@,
            email: self.email@,
            created_at: self.created_at,
        }
    }
}

/// The filtered form of a user row: everything but the password hash, the
/// identifier in its text form.
pub open spec fn filtered_of(u: UserView) -> FilteredUserView {
    FilteredUserView {
        id: uuid_text(u.id),
        username: u.username,
        email: u.email,
        created_at: u.created_at,
    }
}

/// The health endpoint's fixed answer: a success label and the service's
/// greeting line.
pub fn health_envelope() -> (r: ErrorResponse)
    ensures
        r.status@ == "success"@,
        r.message@
            == "Building a simple CRUD API with Rust, Supabase Client (Postgrest), and Axum"@,
{
    ErrorResponse {
        status: String::from_str("success"),
        message: String::from_str(
            "Building a simple CRUD API with Rust, Supabase Client (Postgrest), and Axum",
        ),
    }
}

/// What a handler asks the transport layer to set as a cookie. The
/// transport turns this into a header; nothing else interprets it.
#[derive(Clone, PartialEq, Eq, Debug)]
pub struct CookieSpec {
    pub name: String,
    pub value: String,
    pub path: String,
    pub max_age_seconds: i64,
    pub same_site_lax: bool,
    pub http_only: bool,
}

/// A session cookie: named `token`, holding the token, valid an hour,
/// HTTP-only and same-site lax, over the whole site.
pub open spec fn is_session_cookie(c: CookieSpec, token: Seq<char>) -> bool {
    c.name@ == "token"@ && c.value@ == token && c.path@ == "/"@ && c.max_age_seconds == 3600
        && c.same_site_lax && c.http_only
}

/// A logout cookie: the same cookie with an empty value and a max-age in
/// the past, so the client drops the session.
pub open spec fn is_logout_cookie(c: CookieSpec) -> bool {
    c.name@ == "token"@ && c.value@.len() == 0 && c.path@ == "/"@ && c.max_age_seconds == -3600
        && c.same_site_lax && c.http_only
}

/// Builds the session cookie carrying a freshly issued token.
pub fn session_cookie(token: String) -> (c: CookieSpec)
    ensures
        is_session_cookie(c, token@),
{
    CookieSpec {
        name: String::from_str("token"),
        value: token,
        path: String::from_str("/"),
        max_age_seconds: 3600,
        same_site_lax: true,
        http_only: true,
    }
}

/// Builds the cookie that logs a client out.
pub fn logout_cookie() -> (c: CookieSpec)
    ensures
        is_logout_cookie(c),
{
    CookieSpec {
        name: String::from_str("token"),
        value: String::new(),
        path: String::from_str("/"),
        max_age_seconds: -3600,
        same_site_lax: true,
        http_only: true,
    }
}

/// What a successful registration or login hands back: the filtered user,
/// the issued token, and the cookie that carries it.
#[derive(Clone, PartialEq, Eq, Debug)]
pub struct AuthSuccess {
    pub user: FilteredUser,
    pub token: String,
    pub cookie: CookieSpec,
}

} // verus!
