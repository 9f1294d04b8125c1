//! The rows the hosted datastore holds. Identifiers travel on the wire as
//! hyphenated UUID strings and are held here as their 128-bit values;
//! creation timestamps are held as unix seconds.

use vstd::prelude::*;

verus! {

/// A task row. `user_id` is the owning user's identifier.
#[derive(Clone, PartialEq, Eq, Debug)]
pub struct TaskModel {
    pub id: u128,
    pub title: String,
    pub description: String,
    pub completed: bool,
    pub user_id: u128,
    pub created_at: i64,
}

/// A user row. `password` holds the salted password hash, never a plaintext.
#[derive(Clone, PartialEq, Eq, Debug)]
pub struct UserModel {
    pub id: u128,
    pub username: String,
    pub email: String,
    pub password: String,
    pub created_at: i64,
}

/// The mathematical value of a task row.
pub struct TaskView {
    pub id: u128,
    pub title: Seq<char>,
    pub description: Seq<char>,
    pub completed: bool,
    pub user_id: u128,
    pub created_at: i64,
}

/// The mathematical value of a user row.
pub struct UserView {
    pub id: u128,
    pub username: Seq<char>,
    pub email: Seq<char>,
    pub password: Seq<char>,
    pub created_at: i64,
}

impl View for TaskModel {
    type V = TaskView;

    open spec fn view(&self) -> TaskView {
        TaskView {
            id: self.id,
            title: self.title@,
            description: self.description@,
            completed: self.completed,
            user_id: self.user_id,
            created_at: self.created_at,
        }
    }
}

impl DeepView for TaskModel {
    type V = TaskView;

    open spec fn deep_view(&self) -> TaskView {
        self.view()
    }
}

impl TaskModel {
    /// A field-by-field copy whose value is known to equal the original's.
    pub fn duplicate(&self) -> (r: TaskModel)
        ensures
            r@ == self@,
    {
        TaskModel {
            id: self.id,
            title: self.title.clone(),
            description: self.description.clone(),
            completed: self.completed,
            user_id: self.user_id,
            created_at: self.created_at,
        }
    }
}

impl View for UserModel {
    type V = UserView;

    open spec fn view(&self) -> UserView {
        UserView {
            id: self.id,
            username: self.username@,
            email: self.email@,
            password: self.password@,
            created_at: self.created_at,
        }
    }
}

impl DeepView for UserModel {
    type V = UserView;

    open spec fn deep_view(&self) -> UserView {
        self.view()
    }
}

} // verus!
