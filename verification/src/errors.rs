//! The uniform error taxonomy: every fallible step of the service maps to one
//! of a small closed set of kinds, and each kind is mapped here, once, to its
//! transport status code, its envelope label and its client-facing message.

use vstd::prelude::*;
use vstd::string::*;

use crate::response::ErrorResponse;

verus! {

/// A single violated field constraint, keyed by the field it concerns.
#[derive(Clone, Copy, PartialEq, Eq, Structural, Debug)]
pub enum ValidationIssue {
    UsernameRequired,
    EmailRequired,
    EmailInvalid,
    PasswordRequired,
    PasswordTooShort,
    TitleRequired,
    DescriptionRequired,
}

impl ValidationIssue {
    /// The name of the field the constraint speaks of.
    pub open spec fn spec_field(self) -> Seq<char> {
        match self {
            ValidationIssue::UsernameRequired => "username"@,
            ValidationIssue::EmailRequired => "email"@,
            ValidationIssue::EmailInvalid => "email"@,
            ValidationIssue::PasswordRequired => "password"@,
            ValidationIssue::PasswordTooShort => "password"@,
            ValidationIssue::TitleRequired => "title"@,
            ValidationIssue::DescriptionRequired => "description"@,
        }
    }

    pub open spec fn spec_message(self) -> Seq<char> {
        match self {
            ValidationIssue::UsernameRequired => "Username is required"@,
            ValidationIssue::EmailRequired => "Email is required"@,
            ValidationIssue::EmailInvalid => "Email is invalid"@,
            ValidationIssue::PasswordRequired => "Password is required"@,
            ValidationIssue::PasswordTooShort => "Password must be at least 6 characters"@,
            ValidationIssue::TitleRequired => "Title is required"@,
            ValidationIssue::DescriptionRequired => "Description is required"@,
        }
    }

    pub fn field(&self) -> (r: String)
        ensures
            r@ == self.spec_field(),
    {
        match self {
            ValidationIssue::UsernameRequired => String::from_str("username"),
            ValidationIssue::EmailRequired => String::from_str("email"),
            ValidationIssue::EmailInvalid => String::from_str("email"),
            ValidationIssue::PasswordRequired => String::from_str("password"),
            ValidationIssue::PasswordTooShort => String::from_str("password"),
            ValidationIssue::TitleRequired => String::from_str("title"),
            ValidationIssue::DescriptionRequired => String::from_str("description"),
        }
    }

    pub fn message(&self) -> (r: String)
        ensures
            r@ == self.spec_message(),
    {
        match self {
            ValidationIssue::UsernameRequired => String::from_str("Username is required"),
            ValidationIssue::EmailRequired => String::from_str("Email is required"),
            ValidationIssue::EmailInvalid => String::from_str("Email is invalid"),
            ValidationIssue::PasswordRequired => String::from_str("Password is required"),
            ValidationIssue::PasswordTooShort => {
                String::from_str("Password must be at least 6 characters")
            },
            ValidationIssue::TitleRequired => String::from_str("Title is required"),
            ValidationIssue::DescriptionRequired => String::from_str("Description is required"),
        }
    }
}

/// Which upstream step failed when a request dies with a 500-class error.
/// The carried string is the diagnostic text of the underlying failure.
#[derive(Clone, Copy, PartialEq, Eq, Structural, Debug)]
pub enum UpstreamKind {
    /// The row-store query itself failed.
    Database,
    /// The row-store answered, but its response body could not be read.
    ReadBody,
    /// The response body was read, but the rows in it could not be decoded.
    DecodeRows,
    /// The password hasher failed.
    HashPassword,
    /// The subject lookup behind the authentication middleware failed.
    UserLookup,
}

impl UpstreamKind {
    /// The fixed prefix the diagnostic text is wrapped in.
    pub open spec fn spec_prefix(self) -> Seq<char> {
        match self {
            UpstreamKind::Database => "Database error: "@,
            UpstreamKind::ReadBody => "Error parsing json response: "@,
            UpstreamKind::DecodeRows => "Error deserializing response: "@,
            UpstreamKind::HashPassword => "Error while hashing password: "@,
            UpstreamKind::UserLookup => "Error fetching user from database: "@,
        }
    }

    pub fn prefix(&self) -> (r: String)
        ensures
            r@ == self.spec_prefix(),
    {
        match self {
            UpstreamKind::Database => String::from_str("Database error: "),
            UpstreamKind::ReadBody => String::from_str("Error parsing json response: "),
            UpstreamKind::DecodeRows => String::from_str("Error deserializing response: "),
            UpstreamKind::HashPassword => String::from_str("Error while hashing password: "),
            UpstreamKind::UserLookup => String::from_str("Error fetching user from database: "),
        }
    }
}

/// Every way a request can fail, across all handlers and the authentication middleware.
#[derive(Clone, PartialEq, Eq, Debug)]
pub enum ApiError {
    /// No bearer token in the cookie or the authorization header.
    NotLoggedIn,
    /// The token failed signature or expiry checks, or carried a malformed subject.
    InvalidToken,
    /// The token was valid but its subject is no longer in the user store.
    UserGone,
    /// Login with an unknown email or a wrong password.
    InvalidCredentials,
    /// Registration with an email that is already taken.
    EmailTaken,
    /// No task row with the given identifier; carries the identifier's text.
    TaskNotFound(String),
    /// A request body failed one or more field constraints.
    Validation(Vec<ValidationIssue>),
    /// An upstream step failed; carries the step and its diagnostic text.
    Upstream(UpstreamKind, String),
    /// The insert during registration returned no row.
    UserNotCreated,
    /// The insert of a task returned no row.
    TaskNotCreated,
    /// The update of a task returned no row.
    TaskNotUpdated,
}

impl ApiError {
    /// The HTTP status code each kind maps to.
    pub open spec fn spec_status_code(self) -> u16 {
        match self {
            ApiError::NotLoggedIn => 401,
            ApiError::InvalidToken => 401,
            ApiError::UserGone => 401,
            ApiError::InvalidCredentials => 400,
            ApiError::EmailTaken => 409,
            ApiError::TaskNotFound(_) => 404,
            ApiError::Validation(_) => 400,
            ApiError::Upstream(_, _) => 500,
            ApiError::UserNotCreated => 500,
            ApiError::TaskNotCreated => 500,
            ApiError::TaskNotUpdated => 500,
        }
    }

    /// The envelope's `status` label: "error" for the three insert/update
    /// anomalies, "fail" for everything else.
    pub open spec fn spec_status_label(self) -> Seq<char> {
        match self {
            ApiError::UserNotCreated => "error"@,
            ApiError::TaskNotCreated => "error"@,
            ApiError::TaskNotUpdated => "error"@,
            _ => "fail"@,
        }
    }

    /// The client-facing message of each kind.
    pub open spec fn spec_message(self) -> Seq<char> {
        match self {
            ApiError::NotLoggedIn => "You are not logged in, please provide token"@,
            ApiError::InvalidToken => "Invalid token"@,
            ApiError::UserGone => "The user belonging to this token no longer exists"@,
            ApiError::InvalidCredentials => "Invalid email or password"@,
            ApiError::EmailTaken => "User with that email already exists"@,
            ApiError::TaskNotFound(id) => "Task with ID: "@ + id@ + " not found"@,
            ApiError::Validation(_) => "Input validation error"@,
            ApiError::Upstream(kind, detail) => kind.spec_prefix() + detail@,
            ApiError::UserNotCreated => "Something wrong happened while creating the user."@,
            ApiError::TaskNotCreated => "Something bad happened while fetching the task"@,
            ApiError::TaskNotUpdated => "Something bad happened while updating the task"@,
        }
    }

    pub fn status_code(&self) -> (r: u16)
        ensures
            r == self.spec_status_code(),
    {
        match self {
            ApiError::NotLoggedIn => 401,
            ApiError::InvalidToken => 401,
            ApiError::UserGone => 401,
            ApiError::InvalidCredentials => 400,
            ApiError::EmailTaken => 409,
            ApiError::TaskNotFound(_) => 404,
            ApiError::Validation(_) => 400,
            ApiError::Upstream(_, _) => 500,
            ApiError::UserNotCreated => 500,
            ApiError::TaskNotCreated => 500,
            ApiError::TaskNotUpdated => 500,
        }
    }

    pub fn status_label(&self) -> (r: String)
        ensures
            r@ == self.spec_status_label(),
    {
        match self {
            ApiError::UserNotCreated => String::from_str("error"),
            ApiError::TaskNotCreated => String::from_str("error"),
            ApiError::TaskNotUpdated => String::from_str("error"),
            _ => String::from_str("fail"),
        }
    }

    pub fn message(&self) -> (r: String)
        ensures
            r@ == self.spec_message(),
    {
        match self {
            ApiError::NotLoggedIn => {
                String::from_str("You are not logged in, please provide token")
            },
            ApiError::InvalidToken => String::from_str("Invalid token"),
            ApiError::UserGone => {
                String::from_str("The user belonging to this token no longer exists")
            },
            ApiError::InvalidCredentials => String::from_str("Invalid email or password"),
            ApiError::EmailTaken => String::from_str("User with that email already exists"),
            ApiError::TaskNotFound(id) => {
                let mut r = String::from_str("Task with ID: ");
                r.append(id.as_str());
                r.append(" not found");
                r
            },
            ApiError::Validation(_) => String::from_str("Input validation error"),
            ApiError::Upstream(kind, detail) => {
                let mut r = kind.prefix();
                r.append(detail.as_str());
                r
            },
            ApiError::UserNotCreated => {
                String::from_str("Something wrong happened while creating the user.")
            },
            ApiError::TaskNotCreated => {
                String::from_str("Something bad happened while fetching the task")
            },
            ApiError::TaskNotUpdated => {
                String::from_str("Something bad happened while updating the task")
            },
        }
    }

    /// The whole envelope of this error, ready for the transport layer: the
    /// label and the message this kind maps to.
    pub fn envelope(&self) -> (r: ErrorResponse)
        ensures
            r.status@ == self.spec_status_label(),
            r.message@ == self.spec_message(),
    {
        ErrorResponse { status: self.status_label(), message: self.message() }
    }
}

} // verus!
