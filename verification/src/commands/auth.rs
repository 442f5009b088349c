//! Signing up and signing in: what is checked, in which order, and what
//! the user is told.

use crate::auth::RegisterRequest;
use vstd::prelude::*;

verus! {

/// The cost at which passwords are hashed.
pub const HASH_COST: u32 = 12;

/// A user as the sign-up stores it and the sign-in finds it: the id and
/// the times are held as they are written.
#[derive(Debug)]
pub struct User {
    pub id: String,
    pub email: String,
    pub password_hash: String,
    pub first_name: String,
    pub last_name: String,
    pub created_at: String,
    pub updated_at: String,
}

/// What a user gets back after signing in.
#[derive(Debug)]
pub struct LoginResponse {
    pub user: User,
    pub token: String,
}

/// What bcrypt makes of a password and a stored hash: whether the password
/// is the one that was hashed, or, for a text that is no bcrypt hash, the
/// words of bcrypt's refusal.
pub uninterp spec fn password_check_of(password: Seq<char>, hash: Seq<char>) -> Result<
    bool,
    Seq<char>,
>;

/// `bcrypt::verify`, with a refusal given in its own words. The result is
/// a function of the password and the hash alone and is known here only by
/// its name.
#[verifier::external_body]
fn check_password(password: &str, hash: &str) -> (res: Result<bool, String>)
    ensures
        match res {
            Ok(matches) => password_check_of(password@, hash@) == Ok::<bool, Seq<char>>(matches),
            Err(msg) => password_check_of(password@, hash@) == Err::<bool, Seq<char>>(msg@),
        },
{
    match bcrypt::verify(password, hash) {
        Ok(matches) => Ok(matches),
        Err(e) => Err(e.to_string()),
    }
}

/// `bcrypt::hash` at the cost `cost`, with a refusal given in its own
/// words. The salt is drawn at random, so nothing is claimed of the hash.
#[verifier::external_body]
fn hash_password(password: &str, cost: u32) -> (res: Result<String, String>) {
    match bcrypt::hash(password, cost) {
        Ok(hash) => Ok(hash),
        Err(e) => Err(e.to_string()),
    }
}

/// An email address can be signed up once only.
pub fn check_email_free(taken: bool) -> (res: Result<(), String>)
    ensures
        res is Ok <==> !taken,
        res matches Err(msg) ==> msg@ == "Email already exists"@,
{
    if taken {
        return Err("Email already exists".to_owned());
    }
    Ok(())
}

/// What a sign-up stores, given what hashing the password came to: the
/// request's name and address, as they were given, under `id`, with the
/// hash in place of the password, made and last changed at `now`. A
/// refusal to hash is passed on in its own words.
pub open spec fn new_user_of(
    request: RegisterRequest,
    hashed: Result<String, String>,
    id: String,
    now: String,
) -> Result<User, String> {
    match hashed {
        Ok(hash) => Ok(
            User {
                id,
                email: request.email,
                password_hash: hash,
                first_name: request.first_name,
                last_name: request.last_name,
                created_at: now,
                updated_at: now,
            },
        ),
        Err(why) => Err(why),
    }
}

/// The user that a sign-up stores, given what hashing the password came
/// to.
pub fn new_user(
    request: RegisterRequest,
    hashed: Result<String, String>,
    id: String,
    now: String,
) -> (res: Result<User, String>)
    ensures
        res == new_user_of(request, hashed, id, now),
{
    match hashed {
        Ok(hash) => Ok(
            User {
                id,
                email: request.email,
                password_hash: hash,
                first_name: request.first_name,
                last_name: request.last_name,
                created_at: now.clone(),
                updated_at: now,
            },
        ),
        Err(why) => Err(why),
    }
}

/// Signs a user up under `id` at `now`. An address that is taken is
/// refused before anything is hashed; no other check is made on the
/// address. Otherwise the password is hashed at `HASH_COST`, and the user
/// to store is the one that `new_user` gives for the outcome.
pub fn register(taken: bool, request: RegisterRequest, id: String, now: String) -> (res: Result<
    User,
    String,
>)
    ensures
        taken ==> (res matches Err(msg) && msg@ == "Email already exists"@),
        !taken ==> exists|hashed: Result<String, String>|
            res == #[trigger] new_user_of(request, hashed, id, now),
        res matches Ok(user) ==> {
            &&& !taken
            &&& user.id == id
            &&& user.email == request.email
            &&& user.first_name == request.first_name
            &&& user.last_name == request.last_name
            &&& user.created_at == now
            &&& user.updated_at == now
        },
{
    if let Err(msg) = check_email_free(taken) {
        return Err(msg);
    }
    let hashed = hash_password(request.password.as_str(), HASH_COST);
    new_user(request, hashed, id, now)
}

/// What a sign-in comes to for a user that was found, given what checking
/// the password came to.
pub fn login_outcome(user: User, checked: Result<bool, String>) -> (res: Result<User, String>)
    ensures
        match checked {
            Ok(true) => res == Ok::<User, String>(user),
            Ok(false) => res matches Err(msg) && msg@ == "Invalid password"@,
            Err(why) => res == Err::<User, String>(why),
        },
{
    match checked {
        Ok(true) => Ok(user),
        Ok(false) => Err("Invalid password".to_owned()),
        Err(why) => Err(why),
    }
}

/// What a sign-in with `password` is owed, given the user that was found
/// under the address, if any.
pub open spec fn login_result(found: Option<User>, password: Seq<char>, res: Result<
    User,
    String,
>) -> bool {
    match found {
        None => res matches Err(msg) && msg@ == "User not found"@,
        Some(user) => match password_check_of(password, user.password_hash@) {
            Ok(true) => res == Ok::<User, String>(user),
            Ok(false) => res matches Err(msg) && msg@ == "Invalid password"@,
            Err(why) => res matches Err(msg) && msg@ == why,
        },
    }
}

/// Signs a user in: the user that was found is returned if and only if the
/// password is the one behind the stored hash.
pub fn login(found: Option<User>, password: &str) -> (res: Result<User, String>)
    ensures
        login_result(found, password@, res),
{
    match found {
        None => Err("User not found".to_owned()),
        Some(user) => {
            let checked = check_password(password, user.password_hash.as_str());
            login_outcome(user, checked)
        },
    }
}

} // verus!
