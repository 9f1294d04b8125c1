//! Verified core of a task-management web service: credential hashing,
//! signed bearer tokens, request validation, the authentication middleware,
//! and the handler logic that shapes responses around a hosted row store.

pub mod config;
pub mod errors;
pub mod ids;
pub mod middleware;
pub mod models;
pub mod password;
pub mod response;
pub mod schemas;
pub mod store;
pub mod tasks_handlers;
pub mod text;
pub mod token;
pub mod users_handlers;
pub mod validators;
