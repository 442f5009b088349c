use job_tracker::auth::{Claims, RegisterRequest, JWT_EXPIRATION};
use job_tracker::commands::auth::{
    check_email_free, login, login_outcome, new_user, register, User, HASH_COST,
};

const PASSWORD_HASH: &str = "$2a$04$UuTkLRZZ6QofpDOlMz32MuuxEHA43WOemOYHPz6.SjsVsyO1tDU96";

fn stored_user(hash: &str) -> User {
    User {
        id: "u1".to_string(),
        email: "a@b.c".to_string(),
        password_hash: hash.to_string(),
        first_name: "Ada".to_string(),
        last_name: "Lovelace".to_string(),
        created_at: "t0".to_string(),
        updated_at: "t0".to_string(),
    }
}

fn signup_request(email: &str, password: &str) -> RegisterRequest {
    RegisterRequest {
        email: email.to_string(),
        password: password.to_string(),
        first_name: "Ada".to_string(),
        last_name: "Lovelace".to_string(),
    }
}

fn sign_up(taken: bool, email: &str, password: &str) -> Result<User, String> {
    register(taken, signup_request(email, password), "u9".to_string(), "t1".to_string())
}

#[test]
fn token_expires_a_day_after_it_is_issued() {
    assert_eq!(JWT_EXPIRATION, 24 * 60 * 60);
    let claims = Claims::issue("42".to_string(), 1_000).unwrap();
    assert_eq!(claims.sub, "42");
    assert_eq!(claims.exp, 87_400);
    assert!(!claims.is_expired(87_399));
    assert!(!claims.is_expired(87_400));
    assert!(claims.is_expired(87_401));
}

#[test]
fn token_is_not_issued_past_the_end_of_time() {
    assert!(Claims::issue("42".to_string(), i64::MAX).is_none());
    assert!(Claims::issue("42".to_string(), i64::MAX - JWT_EXPIRATION + 1).is_none());
    assert_eq!(Claims::issue("42".to_string(), i64::MAX - JWT_EXPIRATION).unwrap().exp, i64::MAX);
    assert_eq!(Claims::issue("42".to_string(), i64::MIN).unwrap().exp, i64::MIN + 86_400);
}

#[test]
fn taken_email_is_refused() {
    assert!(check_email_free(false).is_ok());
    assert_eq!(check_email_free(true).unwrap_err(), "Email already exists");
    assert_eq!(sign_up(true, "a@b.c", "hunter22").unwrap_err(), "Email already exists");
}

#[test]
fn sign_up_stores_the_hash_and_not_the_password() {
    assert_eq!(HASH_COST, 12);
    let user = sign_up(false, "a@b.c", "hunter22").unwrap();
    assert_eq!((user.id.as_str(), user.email.as_str()), ("u9", "a@b.c"));
    assert_eq!((user.first_name.as_str(), user.last_name.as_str()), ("Ada", "Lovelace"));
    assert_eq!((user.created_at.as_str(), user.updated_at.as_str()), ("t1", "t1"));
    assert_ne!(user.password_hash, "hunter22");
    assert_eq!(user.password_hash.len(), 60);
    assert!(user.password_hash.starts_with("$2b$12$"));
    assert_eq!(login(Some(user), "hunter22").unwrap().id, "u9");
}

#[test]
fn sign_up_takes_the_address_as_it_is_given() {
    let user = sign_up(false, "no at sign", "pw").unwrap();
    assert_eq!(user.email, "no at sign");
    let user = sign_up(false, "", "").unwrap();
    assert_eq!(user.email, "");
}

#[test]
fn new_user_follows_the_hashing() {
    let make = |hashed| {
        new_user(signup_request("a@b.c", "pw"), hashed, "u1".to_string(), "t".to_string())
    };
    let user = make(Ok("HASH".to_string())).unwrap();
    assert_eq!(user.password_hash, "HASH");
    assert_eq!((user.id.as_str(), user.created_at.as_str(), user.updated_at.as_str()), ("u1", "t", "t"));
    assert_eq!(make(Err("no entropy".to_string())).unwrap_err(), "no entropy");
}

#[test]
fn sign_in_with_the_right_password() {
    let found = login(Some(stored_user(PASSWORD_HASH)), "password").unwrap();
    assert_eq!(found.id, "u1");
    assert_eq!(found.password_hash, PASSWORD_HASH);
}

#[test]
fn sign_in_with_a_wrong_password() {
    assert_eq!(login(Some(stored_user(PASSWORD_HASH)), "Password").unwrap_err(), "Invalid password");
    assert_eq!(login(Some(stored_user(PASSWORD_HASH)), "").unwrap_err(), "Invalid password");
}

#[test]
fn sign_in_of_an_unknown_user() {
    assert_eq!(login(None, "password").unwrap_err(), "User not found");
}

#[test]
fn sign_in_against_a_stored_text_that_is_no_hash() {
    let err = login(Some(stored_user("password")), "password").unwrap_err();
    assert!(err.starts_with("Invalid hash"), "{}", err);
}

#[test]
fn login_outcome_follows_the_check() {
    assert_eq!(login_outcome(stored_user("h"), Ok(true)).unwrap().id, "u1");
    assert_eq!(login_outcome(stored_user("h"), Ok(false)).unwrap_err(), "Invalid password");
    assert_eq!(login_outcome(stored_user("h"), Err("bad hash".to_string())).unwrap_err(), "bad hash");
}
