//! The request bodies handlers accept and the templates they send to the
//! datastore.

use vstd::prelude::*;

verus! {

/// The body of a request to create a task.
#[derive(Clone, PartialEq, Eq, Debug)]
pub struct CreateTaskBody {
    pub title: String,
    pub description: String,
}

/// The template an insert of a task sends to the datastore; the owner's
/// identifier travels in its text form.
#[derive(Clone, PartialEq, Eq, Debug)]
pub struct CreateTaskSchema {
    pub title: String,
    pub description: String,
    pub user_id: String,
}

/// The body of a partial update: a field left out keeps its stored value.
#[derive(Clone, PartialEq, Eq, Debug)]
pub struct UpdateTaskBody {
    pub title: Option<String>,
    pub description: Option<String>,
    pub completed: Option<bool>,
}

/// The template an update sends to the datastore: every field resolved.
#[derive(Clone, PartialEq, Eq, Debug)]
pub struct UpdateTaskSchema {
    pub title: String,
    pub description: String,
    pub completed: bool,
}

/// The template registration inserts into the user store; `password` holds
/// the salted hash, never the plaintext.
#[derive(Clone, PartialEq, Eq, Debug)]
pub struct RegisterUserSchema {
    pub username: String,
    pub email: String,
    pub password: String,
}

/// The body of a login request.
#[derive(Clone, PartialEq, Eq, Debug)]
pub struct LoginUserBody {
    pub email: String,
    pub password: String,
}

/// The mathematical value of a partial update.
pub struct UpdateTaskBodyView {
    pub title: Option<Seq<char>>,
    pub description: Option<Seq<char>>,
    pub completed: Option<bool>,
}

impl View for UpdateTaskBody {
    type V = UpdateTaskBodyView;

    open spec fn view(&self) -> UpdateTaskBodyView {
        UpdateTaskBodyView {
            title: match self.title {
                Some(t) => Some(t@),
                None => None,
            },
            description: match self.description {
                Some(d) => Some(d@),
                None => None,
            },
            completed: self.completed,
        }
    }
}

/// The mathematical value of a resolved update.
pub struct UpdateTaskSchemaView {
    pub title: Seq<char>,
    pub description: Seq<char>,
    pub completed: bool,
}

impl View for UpdateTaskSchema {
    type V = UpdateTaskSchemaView;

    open spec fn view(&self) -> UpdateTaskSchemaView {
        UpdateTaskSchemaView {
            title: self.title@,
            description: self.description@,
            completed: self.completed,
        }
    }
}

/// What a signed bearer token carries: the subject's identifier in text
/// form, the unix second it was issued at, and the unix second it expires.
#[derive(Clone, PartialEq, Eq, Debug)]
pub struct TokenClaims {
    pub sub: String,
    pub iat: u64,
    pub exp: u64,
}

} // verus!
