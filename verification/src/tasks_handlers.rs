//! The task handlers' decisions: what each CRUD operation sends to the row
//! store and what the rows that come back mean. The partial update is an
//! explicit merge over the existing row, independent of any transport: a
//! field the patch leaves out keeps its stored value. Only the collection
//! listing is owner-scoped; a fetch, update or deletion by identifier
//! deliberately addresses the row whoever owns it, mirroring the service's
//! single-resource routes.

use vstd::prelude::*;

use crate::errors::ApiError;
use crate::ids::uuid_text;
use crate::ids::uuid_to_string;
use crate::models::TaskModel;
use crate::models::TaskView;
use crate::models::UserModel;
use crate::schemas::CreateTaskSchema;
use crate::schemas::UpdateTaskBody;
use crate::schemas::UpdateTaskBodyView;
use crate::schemas::UpdateTaskSchema;
use crate::schemas::UpdateTaskSchemaView;
use crate::validators::TaskEntry;

verus! {

/// Turns a validated task body into the template the insert sends: the
/// fields as given, owned by the authenticated user, whose identifier
/// travels in text form.
pub fn create_task_payload(user: &UserModel, entry: TaskEntry) -> (s: CreateTaskSchema)
    ensures
        s.title@ == entry.title@,
        s.description@ == entry.description@,
        s.user_id@ == uuid_text(user.id),
{
    CreateTaskSchema {
        title: entry.title,
        description: entry.description,
        user_id: uuid_to_string(user.id),
    }
}

/// Settles the end of task creation: the rows are what the insert returned.
/// No row means the task was not created; a row is the created task.
pub fn create_task_finish(rows: Vec<TaskModel>) -> (r: Result<TaskModel, ApiError>)
    ensures
        rows@.len() == 0 ==> r == Err::<TaskModel, ApiError>(ApiError::TaskNotCreated),
        rows@.len() > 0 ==> (r matches Ok(t) && t@ == rows.deep_view()[0]),
{
    let mut rows = rows;
    if rows.len() == 0 {
        Err(ApiError::TaskNotCreated)
    } else {
        Ok(rows.remove(0))
    }
}

/// Settles a fetch by identifier: the rows are the store's answer to a
/// lookup by `id`. No row is the not-found owed for that identifier — never
/// a server error — and a row is the task.
pub fn task_fetch_finish(id: u128, rows: Vec<TaskModel>) -> (r: Result<TaskModel, ApiError>)
    ensures
        rows@.len() == 0 ==> (r matches Err(e) && e matches ApiError::TaskNotFound(s) && s@
            == uuid_text(id)),
        rows@.len() > 0 ==> (r matches Ok(t) && t@ == rows.deep_view()[0]),
{
    let mut rows = rows;
    if rows.len() == 0 {
        Err(ApiError::TaskNotFound(uuid_to_string(id)))
    } else {
        Ok(rows.remove(0))
    }
}

/// The merge a partial update means: each field the patch carries wins, and
/// each field it leaves out keeps the stored value.
pub open spec fn spec_merge(existing: TaskView, patch: UpdateTaskBodyView) -> UpdateTaskSchemaView {
    UpdateTaskSchemaView {
        title: match patch.title {
            Some(t) => t,
            None => existing.title,
        },
        description: match patch.description {
            Some(d) => d,
            None => existing.description,
        },
        completed: match patch.completed {
            Some(c) => c,
            None => existing.completed,
        },
    }
}

/// Merges a partial update over the task it patches, producing the fully
/// resolved record the store is sent; fields the patch leaves out are
/// never nulled, they keep their stored value.
pub fn merge_task_update(existing: &TaskModel, body: &UpdateTaskBody) -> (s: UpdateTaskSchema)
    ensures
        s@ == spec_merge(existing@, body@),
{
    UpdateTaskSchema {
        title: match &body.title {
            Some(t) => t.clone(),
            None => existing.title.clone(),
        },
        description: match &body.description {
            Some(d) => d.clone(),
            None => existing.description.clone(),
        },
        completed: match &body.completed {
            Some(c) => *c,
            None => existing.completed,
        },
    }
}

/// Settles the end of an update: the rows are what the write returned. No
/// row means the update went wrong on the store's side; a row is the
/// updated task.
pub fn update_task_finish(rows: Vec<TaskModel>) -> (r: Result<TaskModel, ApiError>)
    ensures
        rows@.len() == 0 ==> r == Err::<TaskModel, ApiError>(ApiError::TaskNotUpdated),
        rows@.len() > 0 ==> (r matches Ok(t) && t@ == rows.deep_view()[0]),
{
    let mut rows = rows;
    if rows.len() == 0 {
        Err(ApiError::TaskNotUpdated)
    } else {
        Ok(rows.remove(0))
    }
}

/// Settles a deletion: the rows are what the delete returned, the rows that
/// were removed. No row means nothing had that identifier — the not-found
/// owed for it, never a server error, and the same answer when the
/// identifier is deleted a second time. A row means the deletion happened,
/// and the response carries no body.
pub fn delete_task_finish(id: u128, rows: Vec<TaskModel>) -> (r: Result<(), ApiError>)
    ensures
        rows@.len() == 0 ==> (r matches Err(e) && e matches ApiError::TaskNotFound(s) && s@
            == uuid_text(id)),
        rows@.len() > 0 ==> r is Ok,
{
    if rows.len() == 0 {
        Err(ApiError::TaskNotFound(uuid_to_string(id)))
    } else {
        Ok(())
    }
}

/// A partial update that only sets the completed flag flips exactly that
/// flag: the merged record keeps the stored title and description.
pub proof fn lemma_partial_update_completed(existing: TaskView, c: bool)
    ensures
        ({
            let m = spec_merge(
                existing,
                UpdateTaskBodyView { title: None, description: None, completed: Some(c) },
            );
            m.title == existing.title && m.description == existing.description && m.completed == c
        }),
{
}

} // verus!
