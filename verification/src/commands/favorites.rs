//! Favourite jobs: what is checked before a job is marked, and what is
//! stored when it is.

use vstd::prelude::*;

verus! {

/// A job is marked as a favourite only if it exists and is not marked
/// yet. A job that does not exist is reported as such, marked or not.
pub fn check_can_favorite(job_exists: bool, already_favorite: bool) -> (res: Result<(), String>)
    ensures
        res is Ok <==> job_exists && !already_favorite,
        !job_exists ==> (res matches Err(msg) && msg@ == "Job not found"@),
        job_exists && already_favorite ==> (res matches Err(msg) && msg@
            == "Job already in favorites"@),
{
    if !job_exists {
        return Err("Job not found".to_owned());
    }
    if already_favorite {
        return Err("Job already in favorites".to_owned());
    }
    Ok(())
}

/// A job that a user has marked as a favourite. Ids are the numbers of
/// UUIDs; the time is in milliseconds since the epoch.
#[derive(Debug, Clone, Copy, PartialEq, Eq, Structural)]
pub struct FavoriteJob {
    pub id: u128,
    pub user_id: u128,
    pub job_id: u128,
    pub created_at: i64,
}

impl FavoriteJob {
    /// The favourite that marks `job_id` for `user_id`, made at `now`
    /// under `id`.
    pub fn new(id: u128, user_id: u128, job_id: u128, now: i64) -> (favorite: FavoriteJob)
        ensures
            favorite == (FavoriteJob { id, user_id, job_id, created_at: now }),
    {
        FavoriteJob { id, user_id, job_id, created_at: now }
    }
}

/// What marking a job comes to: a job that does not exist is refused, then
/// one that is marked already; otherwise the favourite to store is the one
/// made at `now` under `id`.
pub open spec fn favorite_of(
    job_exists: bool,
    already_favorite: bool,
    id: u128,
    user_id: u128,
    job_id: u128,
    now: i64,
    res: Result<FavoriteJob, String>,
) -> bool {
    if !job_exists {
        res matches Err(msg) && msg@ == "Job not found"@
    } else if already_favorite {
        res matches Err(msg) && msg@ == "Job already in favorites"@
    } else {
        res == Ok::<FavoriteJob, String>(FavoriteJob { id, user_id, job_id, created_at: now })
    }
}

/// Marks the job `job_id` as a favourite of `user_id`, given whether the
/// job exists and whether the user has marked it already.
pub fn add_favorite_job(
    job_exists: bool,
    already_favorite: bool,
    id: u128,
    user_id: u128,
    job_id: u128,
    now: i64,
) -> (res: Result<FavoriteJob, String>)
    ensures
        favorite_of(job_exists, already_favorite, id, user_id, job_id, now, res),
{
    match check_can_favorite(job_exists, already_favorite) {
        Ok(()) => Ok(FavoriteJob::new(id, user_id, job_id, now)),
        Err(msg) => Err(msg),
    }
}

} // verus!
