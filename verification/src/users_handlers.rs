//! The user handlers' decisions. Each handler is a thin orchestration:
//! validated input comes in, exactly one datastore operation happens
//! outside, and the functions here decide everything in between — what the
//! rows that came back mean, what the datastore is sent, and what envelope
//! the client receives. The datastore rows enter as plain arguments, so
//! each decision is checked for every answer the store could give.

use vstd::prelude::*;
use vstd::string::*;

use crate::errors::ApiError;
use crate::errors::UpstreamKind;
use crate::ids::uuid_text;
use crate::ids::uuid_to_string;
use crate::models::UserModel;
use crate::models::UserView;
use crate::password;
use crate::password::password_accepted;
use crate::password::PASSWORD_CHAR_CAP;
use crate::response::filtered_of;
use crate::response::is_session_cookie;
use crate::response::session_cookie;
use crate::response::AuthSuccess;
use crate::response::FilteredUser;
use crate::response::UserData;
use crate::response::UserResponse;
use crate::schemas::RegisterUserSchema;
use crate::token;
use crate::token::jwt_decoded;
use crate::token::TOKEN_TTL_SECONDS;
use crate::validators::LoginEntry;
use crate::validators::RegisterEntry;

verus! {

/// Strips a user row down to what clients may see: the password hash goes,
/// the identifier becomes its text form.
pub fn filter_user_record(user: &UserModel) -> (r: FilteredUser)
    ensures
        r@ == filtered_of(user@),
{
    FilteredUser {
        id: uuid_to_string(user.id),
        username: user.username.clone(),
        email: user.email.clone(),
        created_at: user.created_at,
    }
}

/// Settles the duplicate check of registration: the rows are the user
/// store's answer to a lookup by the candidate email, and registration may
/// proceed exactly when no row with that email came back.
pub fn register_check_existing(rows: &Vec<UserModel>, email: &String) -> (r: Result<(), ApiError>)
    ensures
        r is Err <==> rows@.len() > 0 && rows@[0].email@ == email@,
        r is Err ==> r == Err::<(), ApiError>(ApiError::EmailTaken),
{
    if rows.len() > 0 {
        let first = &rows[0];
        if first.email == *email {
            return Err(ApiError::EmailTaken);
        }
    }
    Ok(())
}

/// Turns a validated registration body into the template the user store is
/// sent: the plaintext password is replaced by a fresh salted hash — a
/// self-describing string the hasher will accept for that plaintext;
/// nothing else changes. Every password within the hasher's character cap
/// is owed success; only a longer one fails.
pub fn register_prepare(body: RegisterEntry) -> (r: Result<RegisterUserSchema, ApiError>)
    ensures
        body.password@.len() <= PASSWORD_CHAR_CAP ==> r is Ok,
        r matches Ok(s) ==> s.username@ == body.username@ && s.email@ == body.email@
            && password_accepted(body.password@, s.password@),
        r matches Ok(s) ==> s.password@.len() > 9 && s.password@.subrange(0, 9) == "$argon2id"@,
        r matches Err(e) ==> (e matches ApiError::Upstream(k, _) && k
            == UpstreamKind::HashPassword),
{
    match password::hash(&body.password) {
        Ok(h) => Ok(
            RegisterUserSchema { username: body.username, email: body.email, password: h },
        ),
        Err(e) => Err(ApiError::Upstream(UpstreamKind::HashPassword, e)),
    }
}

/// Settles the end of registration: the rows are what the insert returned.
/// No row means the user was not created; a row is owed success — the
/// filtered user, a token issued for that user's identifier at `now`, and
/// the session cookie carrying it.
pub fn register_finish(rows: Vec<UserModel>, now: u64, secret: &String) -> (r: Result<
    AuthSuccess,
    ApiError,
>)
    requires
        now + TOKEN_TTL_SECONDS <= u64::MAX,
    ensures
        rows@.len() == 0 ==> r == Err::<AuthSuccess, ApiError>(ApiError::UserNotCreated),
        rows@.len() > 0 ==> (r matches Ok(out) && out.user@ == filtered_of(rows.deep_view()[0])
            && jwt_decoded(secret@, out.token@) == Some(
            (uuid_text(rows.deep_view()[0].id), now, (now + TOKEN_TTL_SECONDS) as u64),
        ) && is_session_cookie(out.cookie, out.token@)),
{
    let mut rows = rows;
    if rows.len() == 0 {
        return Err(ApiError::UserNotCreated);
    }
    let user = rows.remove(0);
    let sub = uuid_to_string(user.id);
    let token = token::issue(&sub, now, secret);
    let filtered = filter_user_record(&user);
    let cookie = session_cookie(token.clone());
    Ok(AuthSuccess { user: filtered, token, cookie })
}

/// Whether a login attempt is rejected on its credentials: no user with
/// that email exists, or the stored hash does not accept the password.
pub open spec fn spec_login_rejected(rows: Seq<UserView>, password: Seq<char>) -> bool {
    rows.len() == 0 || !password_accepted(password, rows[0].password)
}

/// Settles a login: the rows are the user store's answer to a lookup by the
/// body's email. A missing user and a wrong password are rejected with one
/// and the same error; good credentials are owed success — the filtered
/// user, a token issued for that user at `now`, and the session cookie
/// carrying it.
pub fn login_finish(body: &LoginEntry, rows: Vec<UserModel>, now: u64, secret: &String) -> (r:
    Result<AuthSuccess, ApiError>)
    requires
        now + TOKEN_TTL_SECONDS <= u64::MAX,
    ensures
        r is Ok <==> !spec_login_rejected(rows.deep_view(), body.password@),
        r is Err ==> r == Err::<AuthSuccess, ApiError>(ApiError::InvalidCredentials),
        r matches Ok(out) ==> out.user@ == filtered_of(rows.deep_view()[0]) && jwt_decoded(
            secret@,
            out.token@,
        ) == Some(
            (uuid_text(rows.deep_view()[0].id), now, (now + TOKEN_TTL_SECONDS) as u64),
        ) && is_session_cookie(out.cookie, out.token@),
{
    let mut rows = rows;
    if rows.len() == 0 {
        return Err(ApiError::InvalidCredentials);
    }
    let user = rows.remove(0);
    if !password::verify(&body.password, &user.password) {
        return Err(ApiError::InvalidCredentials);
    }
    let sub = uuid_to_string(user.id);
    let token = token::issue(&sub, now, secret);
    let filtered = filter_user_record(&user);
    let cookie = session_cookie(token.clone());
    Ok(AuthSuccess { user: filtered, token, cookie })
}

/// Shapes the response of the logged-in-user endpoint: the authenticated
/// user, filtered, in a success envelope. The middleware has already done
/// all the checking; nothing here can fail.
pub fn get_me(user: &UserModel) -> (r: UserResponse)
    ensures
        r.status@ == "success"@,
        r.data.user@ == filtered_of(user@),
{
    UserResponse {
        status: String::from_str("success"),
        data: UserData { user: filter_user_record(user) },
    }
}

/// Registration then login: the hash registration stores is accepted for
/// the plaintext that was registered, so a login with the same credentials
/// against the stored user is never a credential rejection — and
/// `login_finish`'s contract then pins any issued token's subject to that
/// user's identifier.
pub proof fn lemma_register_then_login(u: UserView, password: Seq<char>)
    requires
        password_accepted(password, u.password),
    ensures
        !spec_login_rejected(seq![u], password),
{
}

} // verus!
