//! The data-access layer: schema migrations, backups, and the cached
//! repository of jobs.

pub mod backup;
pub mod migrations;
pub mod operations;
pub mod query;
pub mod schema;
