//! The request validator: a decoded request body is checked against its
//! field constraints, all of them, so a failing request reports every
//! violated constraint at once and a handler never sees partially valid
//! data. Lengths count characters, as the constraints are stated over text.

use vstd::prelude::*;
use vstd::string::*;

use crate::errors::ValidationIssue;

verus! {

/// A registration body that has passed validation.
#[derive(Clone, PartialEq, Eq, Debug)]
pub struct RegisterEntry {
    pub username: String,
    pub email: String,
    pub password: String,
}

/// A login body that has passed validation.
#[derive(Clone, PartialEq, Eq, Debug)]
pub struct LoginEntry {
    pub email: String,
    pub password: String,
}

/// A task-creation body that has passed validation.
#[derive(Clone, PartialEq, Eq, Debug)]
pub struct TaskEntry {
    pub title: String,
    pub description: String,
}

/// Wraps a record that is only ever constructed after validation passed.
#[derive(Clone, Copy, PartialEq, Eq, Debug)]
pub struct ValidatedRequest<J>(pub J);

/// Whether a string is a well-formed e-mail address in the HTML5 sense, as
/// the validator crate draws that line.
pub uninterp spec fn email_valid(s: Seq<char>) -> bool;

/// Relies on `validator::validate_email`: validity is a function of the
/// string alone.
#[verifier::external_body]
fn check_email(s: &str) -> (r: bool)
    ensures
        r == email_valid(s@),
{
    validator::validate_email(s)
}

/// Every constraint a registration body violates, in field order: username
/// present; email present and well-formed; password present and at least 6
/// characters.
pub open spec fn register_issues(
    username: Seq<char>,
    email: Seq<char>,
    password: Seq<char>,
) -> Seq<ValidationIssue> {
    (if username.len() < 1 {
        seq![ValidationIssue::UsernameRequired]
    } else {
        Seq::empty()
    }) + (if email.len() < 1 {
        seq![ValidationIssue::EmailRequired]
    } else {
        Seq::empty()
    }) + (if !email_valid(email) {
        seq![ValidationIssue::EmailInvalid]
    } else {
        Seq::empty()
    }) + (if password.len() < 1 {
        seq![ValidationIssue::PasswordRequired]
    } else {
        Seq::empty()
    }) + (if password.len() < 6 {
        seq![ValidationIssue::PasswordTooShort]
    } else {
        Seq::empty()
    })
}

/// Every constraint a login body violates, in field order.
pub open spec fn login_issues(email: Seq<char>, password: Seq<char>) -> Seq<ValidationIssue> {
    (if email.len() < 1 {
        seq![ValidationIssue::EmailRequired]
    } else {
        Seq::empty()
    }) + (if !email_valid(email) {
        seq![ValidationIssue::EmailInvalid]
    } else {
        Seq::empty()
    }) + (if password.len() < 1 {
        seq![ValidationIssue::PasswordRequired]
    } else {
        Seq::empty()
    }) + (if password.len() < 6 {
        seq![ValidationIssue::PasswordTooShort]
    } else {
        Seq::empty()
    })
}

/// Every constraint a task body violates, in field order.
pub open spec fn task_issues(title: Seq<char>, description: Seq<char>) -> Seq<ValidationIssue> {
    (if title.len() < 1 {
        seq![ValidationIssue::TitleRequired]
    } else {
        Seq::empty()
    }) + (if description.len() < 1 {
        seq![ValidationIssue::DescriptionRequired]
    } else {
        Seq::empty()
    })
}

/// Validates a registration body: the typed record when every constraint
/// holds, else the full list of violated constraints.
pub fn validate_register(username: String, email: String, password: String) -> (r: Result<
    ValidatedRequest<RegisterEntry>,
    Vec<ValidationIssue>,
>)
    ensures
        register_issues(username@, email@, password@).len() == 0 <==> r is Ok,
        r matches Ok(e) ==> e.0.username@ == username@ && e.0.email@ == email@ && e.0.password@
            == password@,
        r matches Err(v) ==> v@ == register_issues(username@, email@, password@),
{
    let mut issues: Vec<ValidationIssue> = Vec::new();
    if username.as_str().unicode_len() < 1 {
        issues.push(ValidationIssue::UsernameRequired);
    }
    if email.as_str().unicode_len() < 1 {
        issues.push(ValidationIssue::EmailRequired);
    }
    if !check_email(email.as_str()) {
        issues.push(ValidationIssue::EmailInvalid);
    }
    if password.as_str().unicode_len() < 1 {
        issues.push(ValidationIssue::PasswordRequired);
    }
    if password.as_str().unicode_len() < 6 {
        issues.push(ValidationIssue::PasswordTooShort);
    }
    proof {
        assert(issues@ =~= register_issues(username@, email@, password@));
    }
    if issues.len() == 0 {
        Ok(ValidatedRequest(RegisterEntry { username, email, password }))
    } else {
        Err(issues)
    }
}

/// Validates a login body: the typed record when every constraint holds,
/// else the full list of violated constraints.
pub fn validate_login(email: String, password: String) -> (r: Result<
    ValidatedRequest<LoginEntry>,
    Vec<ValidationIssue>,
>)
    ensures
        login_issues(email@, password@).len() == 0 <==> r is Ok,
        r matches Ok(e) ==> e.0.email@ == email@ && e.0.password@ == password@,
        r matches Err(v) ==> v@ == login_issues(email@, password@),
{
    let mut issues: Vec<ValidationIssue> = Vec::new();
    if email.as_str().unicode_len() < 1 {
        issues.push(ValidationIssue::EmailRequired);
    }
    if !check_email(email.as_str()) {
        issues.push(ValidationIssue::EmailInvalid);
    }
    if password.as_str().unicode_len() < 1 {
        issues.push(ValidationIssue::PasswordRequired);
    }
    if password.as_str().unicode_len() < 6 {
        issues.push(ValidationIssue::PasswordTooShort);
    }
    proof {
        assert(issues@ =~= login_issues(email@, password@));
    }
    if issues.len() == 0 {
        Ok(ValidatedRequest(LoginEntry { email, password }))
    } else {
        Err(issues)
    }
}

/// Validates a task-creation body: the typed record when every constraint
/// holds, else the full list of violated constraints.
pub fn validate_task(title: String, description: String) -> (r: Result<
    ValidatedRequest<TaskEntry>,
    Vec<ValidationIssue>,
>)
    ensures
        task_issues(title@, description@).len() == 0 <==> r is Ok,
        r matches Ok(e) ==> e.0.title@ == title@ && e.0.description@ == description@,
        r matches Err(v) ==> v@ == task_issues(title@, description@),
{
    let mut issues: Vec<ValidationIssue> = Vec::new();
    if title.as_str().unicode_len() < 1 {
        issues.push(ValidationIssue::TitleRequired);
    }
    if description.as_str().unicode_len() < 1 {
        issues.push(ValidationIssue::DescriptionRequired);
    }
    proof {
        assert(issues@ =~= task_issues(title@, description@));
    }
    if issues.len() == 0 {
        Ok(ValidatedRequest(TaskEntry { title, description }))
    } else {
        Err(issues)
    }
}

} // verus!
