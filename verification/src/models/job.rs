//! Jobs as stored.

use crate::ids::{parse_uuid, uuid_of};
use crate::models::decode::{id_or, time_or, Column, DecodeError};
use crate::search_preferences::{decode_list, list_of_json};
use crate::text::texts;
use crate::timestamps::{parse_rfc3339, rfc3339_millis_of};
use vstd::prelude::*;

verus! {

/// A job posting. Ids are the numbers of UUIDs; times are in milliseconds
/// since the epoch.
#[derive(Debug)]
pub struct Job {
    pub id: u128,
    pub user_id: u128,
    pub title: String,
    pub company: String,
    pub location: String,
    pub job_type: String,
    pub salary_min: Option<i32>,
    pub salary_max: Option<i32>,
    pub salary_currency: Option<String>,
    pub salary_period: Option<String>,
    pub description: String,
    pub url: String,
    pub posted_at: i64,
    pub experience_level: String,
    pub skills: Vec<String>,
    pub remote: bool,
    pub source: String,
    pub created_at: i64,
    pub updated_at: i64,
}

/// The columns of a stored job that hold plain values.
#[derive(Debug)]
pub struct JobDetails {
    pub title: String,
    pub company: String,
    pub location: String,
    pub job_type: String,
    pub salary_min: Option<i32>,
    pub salary_max: Option<i32>,
    pub salary_currency: Option<String>,
    pub salary_period: Option<String>,
    pub description: String,
    pub url: String,
    pub experience_level: String,
    pub remote: bool,
    pub source: String,
}

/// The columns of a stored job that need reading.
#[derive(Debug)]
pub struct JobKeys {
    pub id: String,
    pub user_id: String,
    pub posted_at: String,
    pub skills: String,
    pub created_at: String,
    pub updated_at: String,
}

/// The first column of a stored job that cannot be read, in the order id,
/// user id, posted at, skills, created at, updated at; none if all can.
pub open spec fn unreadable_column(keys: JobKeys) -> Option<DecodeError> {
    if uuid_of(keys.id@) is None {
        Some(DecodeError::InvalidId(Column::Id))
    } else if uuid_of(keys.user_id@) is None {
        Some(DecodeError::InvalidId(Column::UserId))
    } else if rfc3339_millis_of(keys.posted_at@) is None {
        Some(DecodeError::InvalidTimestamp(Column::PostedAt))
    } else if list_of_json(keys.skills@) is None {
        Some(DecodeError::InvalidList(Column::Skills))
    } else if rfc3339_millis_of(keys.created_at@) is None {
        Some(DecodeError::InvalidTimestamp(Column::CreatedAt))
    } else if rfc3339_millis_of(keys.updated_at@) is None {
        Some(DecodeError::InvalidTimestamp(Column::UpdatedAt))
    } else {
        None
    }
}

/// Whether `job` is made of what the columns hold.
pub open spec fn job_holds(job: Job, keys: JobKeys, details: JobDetails) -> bool {
    &&& Some(job.id) == uuid_of(keys.id@)
    &&& Some(job.user_id) == uuid_of(keys.user_id@)
    &&& Some(job.posted_at) == rfc3339_millis_of(keys.posted_at@)
    &&& Some(texts(job.skills@)) == list_of_json(keys.skills@)
    &&& Some(job.created_at) == rfc3339_millis_of(keys.created_at@)
    &&& Some(job.updated_at) == rfc3339_millis_of(keys.updated_at@)
    &&& job.title == details.title
    &&& job.company == details.company
    &&& job.location == details.location
    &&& job.job_type == details.job_type
    &&& job.salary_min == details.salary_min
    &&& job.salary_max == details.salary_max
    &&& job.salary_currency == details.salary_currency
    &&& job.salary_period == details.salary_period
    &&& job.description == details.description
    &&& job.url == details.url
    &&& job.experience_level == details.experience_level
    &&& job.remote == details.remote
    &&& job.source == details.source
}

impl Job {
    /// The job that a stored row stands for, or the first of its columns
    /// that cannot be read.
    pub fn from_columns(keys: &JobKeys, details: JobDetails) -> (res: Result<Job, DecodeError>)
        ensures
            match unreadable_column(*keys) {
                Some(e) => res == Err::<Job, DecodeError>(e),
                None => res matches Ok(job) && job_holds(job, *keys, details),
            },
    {
        let id = match id_or(parse_uuid(keys.id.as_str()), Column::Id) {
            Ok(id) => id,
            Err(e) => return Err(e),
        };
        let user_id = match id_or(parse_uuid(keys.user_id.as_str()), Column::UserId) {
            Ok(id) => id,
            Err(e) => return Err(e),
        };
        let posted_at = match time_or(parse_rfc3339(keys.posted_at.as_str()), Column::PostedAt) {
            Ok(t) => t,
            Err(e) => return Err(e),
        };
        let skills = match decode_list(keys.skills.as_str()) {
            Some(list) => list,
            None => return Err(DecodeError::InvalidList(Column::Skills)),
        };
        let created_at = match time_or(parse_rfc3339(keys.created_at.as_str()), Column::CreatedAt) {
            Ok(t) => t,
            Err(e) => return Err(e),
        };
        let updated_at = match time_or(parse_rfc3339(keys.updated_at.as_str()), Column::UpdatedAt) {
            Ok(t) => t,
            Err(e) => return Err(e),
        };
        Ok(
            Job {
                id,
                user_id,
                title: details.title,
                company: details.company,
                location: details.location,
                job_type: details.job_type,
                salary_min: details.salary_min,
                salary_max: details.salary_max,
                salary_currency: details.salary_currency,
                salary_period: details.salary_period,
                description: details.description,
                url: details.url,
                posted_at,
                experience_level: details.experience_level,
                skills,
                remote: details.remote,
                source: details.source,
                created_at,
                updated_at,
            },
        )
    }
}

} // verus!
