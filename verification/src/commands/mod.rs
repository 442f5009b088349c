//! The rules behind the commands that the user interface calls.

pub mod auth;
pub mod favorites;
pub mod kanban;
pub mod search;
