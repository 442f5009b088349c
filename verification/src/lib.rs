//! Core logic of a job-application tracker: a bounded connection pool, a
//! time-to-live read cache, and the validation and query-shaping rules of the
//! data-access layer that sits on top of them.

pub mod auth;
pub mod board;
pub mod cache;
pub mod clock;
pub mod commands;
pub mod database;
pub mod error;
pub mod ids;
pub mod models;
pub mod pool;
pub mod search_preferences;
pub mod text;
pub mod timestamps;
