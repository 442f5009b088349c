use job_tracker::models::decode::{id_or, time_or, Column, DecodeError};
use job_tracker::models::job::{Job, JobDetails, JobKeys};
use job_tracker::models::user::{User, UserDetails};

const ID: &str = "67e55044-10b1-426f-9247-bb680e5fe0c8";
const ID_NUMBER: u128 = 0x67e5504410b1426f9247bb680e5fe0c8;
const OTHER_ID: &str = "00000000-0000-0000-0000-00000000002a";

fn user_details() -> UserDetails {
    UserDetails {
        password_hash: "HASH".to_string(),
        first_name: "Ada".to_string(),
        last_name: "Lovelace".to_string(),
    }
}

fn read_user(id: &str, email: &str, created: &str, updated: &str) -> Result<User, DecodeError> {
    User::from_columns(id, email.to_string(), user_details(), created, updated)
}

fn keys() -> JobKeys {
    JobKeys {
        id: ID.to_string(),
        user_id: OTHER_ID.to_string(),
        posted_at: "2024-03-21T10:15:00Z".to_string(),
        skills: r#"["Rust","SQL"]"#.to_string(),
        created_at: "2024-03-21T10:15:00.250+00:00".to_string(),
        updated_at: "2024-03-21T12:15:00+02:00".to_string(),
    }
}

fn details() -> JobDetails {
    JobDetails {
        title: "Engineer".to_string(),
        company: "Tech Corp".to_string(),
        location: "Paris".to_string(),
        job_type: "CDI".to_string(),
        salary_min: Some(50_000),
        salary_max: None,
        salary_currency: Some("EUR".to_string()),
        salary_period: None,
        description: "d".to_string(),
        url: "https://example.com/job/1".to_string(),
        experience_level: "Senior".to_string(),
        remote: true,
        source: "LinkedIn".to_string(),
    }
}

fn job(keys: JobKeys) -> Result<Job, DecodeError> {
    Job::from_columns(&keys, details())
}

#[test]
fn user_is_read_from_its_columns() {
    let u = read_user(ID, "a@b.c", "1970-01-01T00:00:01Z", "2024-03-21T10:15:00Z").unwrap();
    assert_eq!(u.id, ID_NUMBER);
    assert_eq!(u.email.as_str(), "a@b.c");
    assert_eq!(u.password_hash, "HASH");
    assert_eq!((u.first_name.as_str(), u.last_name.as_str()), ("Ada", "Lovelace"));
    assert_eq!(u.created_at, 1_000);
    assert_eq!(u.updated_at, 1_711_016_100_000);
}

#[test]
fn first_unreadable_column_of_a_user_is_named() {
    let ok = "2024-03-21T10:15:00Z";
    assert_eq!(read_user("x", "ab", "y", "z").unwrap_err(), DecodeError::InvalidId(Column::Id));
    assert_eq!(read_user(ID, "ab", "y", "z").unwrap_err(), DecodeError::InvalidEmail(Column::Email));
    assert_eq!(
        read_user(ID, "a@b", "y", "z").unwrap_err(),
        DecodeError::InvalidTimestamp(Column::CreatedAt)
    );
    assert_eq!(
        read_user(ID, "a@b", ok, "2024-03-21 10:15:00").unwrap_err(),
        DecodeError::InvalidTimestamp(Column::UpdatedAt)
    );
    assert_eq!(
        read_user(ID, "a@b", ok, "2024-13-21T10:15:00Z").unwrap_err(),
        DecodeError::InvalidTimestamp(Column::UpdatedAt)
    );
}

#[test]
fn job_is_read_from_its_columns() {
    let j = job(keys()).unwrap();
    assert_eq!((j.id, j.user_id), (ID_NUMBER, 42));
    assert_eq!(j.posted_at, 1_711_016_100_000);
    assert_eq!(j.created_at, 1_711_016_100_250);
    assert_eq!(j.updated_at, 1_711_016_100_000);
    assert_eq!(j.skills, vec!["Rust", "SQL"]);
    assert_eq!((j.title.as_str(), j.company.as_str(), j.location.as_str()), ("Engineer", "Tech Corp", "Paris"));
    assert_eq!((j.salary_min, j.salary_max), (Some(50_000), None));
    assert_eq!((j.salary_currency.as_deref(), j.salary_period.as_deref()), (Some("EUR"), None));
    assert_eq!((j.job_type.as_str(), j.experience_level.as_str(), j.source.as_str()), ("CDI", "Senior", "LinkedIn"));
    assert_eq!((j.description.as_str(), j.url.as_str(), j.remote), ("d", "https://example.com/job/1", true));
}

#[test]
fn first_unreadable_column_of_a_job_is_named() {
    let bad = || "?".to_string();
    let all_bad = JobKeys {
        id: bad(),
        user_id: bad(),
        posted_at: bad(),
        skills: bad(),
        created_at: bad(),
        updated_at: bad(),
    };
    assert_eq!(job(all_bad).unwrap_err(), DecodeError::InvalidId(Column::Id));
    assert_eq!(
        job(JobKeys { user_id: bad(), posted_at: bad(), ..keys() }).unwrap_err(),
        DecodeError::InvalidId(Column::UserId)
    );
    assert_eq!(
        job(JobKeys { posted_at: bad(), skills: bad(), ..keys() }).unwrap_err(),
        DecodeError::InvalidTimestamp(Column::PostedAt)
    );
    assert_eq!(
        job(JobKeys { skills: "[1]".to_string(), created_at: bad(), ..keys() }).unwrap_err(),
        DecodeError::InvalidList(Column::Skills)
    );
    assert_eq!(
        job(JobKeys { created_at: bad(), updated_at: bad(), ..keys() }).unwrap_err(),
        DecodeError::InvalidTimestamp(Column::CreatedAt)
    );
    assert_eq!(
        job(JobKeys { updated_at: bad(), ..keys() }).unwrap_err(),
        DecodeError::InvalidTimestamp(Column::UpdatedAt)
    );
}

#[test]
fn reading_an_id_or_a_time() {
    assert_eq!(id_or(Some(7), Column::Id), Ok(7));
    assert_eq!(id_or(None, Column::UserId), Err(DecodeError::InvalidId(Column::UserId)));
    assert_eq!(time_or(Some(-5), Column::PostedAt), Ok(-5));
    assert_eq!(
        time_or(None, Column::PostedAt),
        Err(DecodeError::InvalidTimestamp(Column::PostedAt))
    );
}

#[test]
fn decode_error_in_words() {
    assert_eq!(
        DecodeError::InvalidId(Column::UserId).to_string(),
        "column user_id does not hold a UUID"
    );
    assert_eq!(
        DecodeError::InvalidEmail(Column::Email).to_string(),
        "column email does not hold an email address"
    );
    assert_eq!(
        DecodeError::InvalidTimestamp(Column::PostedAt).to_string(),
        "column posted_at does not hold an RFC 3339 date and time"
    );
    assert_eq!(
        DecodeError::InvalidList(Column::Skills).to_string(),
        "column skills does not hold a JSON array of strings"
    );
    let names: Vec<&str> = [
        Column::Id,
        Column::UserId,
        Column::Email,
        Column::PostedAt,
        Column::CreatedAt,
        Column::UpdatedAt,
        Column::Skills,
    ]
    .iter()
    .map(|c| c.as_str())
    .collect();
    assert_eq!(
        names,
        vec!["id", "user_id", "email", "posted_at", "created_at", "updated_at", "skills"]
    );
}

#[test]
fn password_is_replaced_by_its_new_hash() {
    let mut u = read_user(ID, "a@b.c", "1970-01-01T00:00:01Z", "1970-01-01T00:00:01Z").unwrap();
    u.update_password("new".to_string(), 99);
    assert_eq!((u.password_hash.as_str(), u.updated_at, u.created_at), ("new", 99, 1_000));
    assert_eq!((u.id, u.email.as_str()), (ID_NUMBER, "a@b.c"));
    assert_eq!((u.first_name.as_str(), u.last_name.as_str()), ("Ada", "Lovelace"));
}
