//! The application's error type and the validation rules that produce it.

use crate::text::{byte_len, byte_length, concat, contains_char, lemma_byte_len_bounds};
use vstd::prelude::*;

verus! {

/// Everything that can go wrong in the application, each with its detail.
#[derive(Debug)]
pub enum AppError {
    Database(String),
    Auth(String),
    Validation(String),
    NotFound(String),
    Internal(String),
    IO(String),
    Network(String),
    Configuration(String),
    DatabaseError(String),
    AuthenticationError(String),
    ValidationError(String),
    BackupError(String),
}

/// `std::io::Error`: an error of the file system, carried as it is.
#[verifier::external_type_specification]
#[verifier::external_body]
pub struct ExIoError(std::io::Error);

/// `rusqlite::Error`: an error of the store, carried as it is.
#[verifier::external_type_specification]
#[verifier::external_body]
pub struct ExSqlError(rusqlite::Error);

/// `Display` of `std::io::Error`: the error in words. The words are the
/// operating system's, so nothing is claimed of them.
#[verifier::external_body]
fn io_error_text(error: &std::io::Error) -> (text: String) {
    error.to_string()
}

/// `Display` of `rusqlite::Error`: the error in words. The words may be
/// SQLite's own, so nothing is claimed of them.
#[verifier::external_body]
pub(crate) fn sql_error_text(error: &rusqlite::Error) -> (text: String) {
    error.to_string()
}

/// An error of the file system becomes an `IO` error that carries its
/// words.
impl From<std::io::Error> for AppError {
    fn from(error: std::io::Error) -> (res: AppError)
        ensures
            res is IO,
    {
        AppError::IO(io_error_text(&error))
    }
}

impl vstd::std_specs::convert::FromSpecImpl<std::io::Error> for AppError {
    open spec fn obeys_from_spec() -> bool {
        false
    }

    open spec fn from_spec(error: std::io::Error) -> AppError {
        arbitrary()
    }
}

/// An error of the store becomes a `Database` error that carries its
/// words.
impl From<rusqlite::Error> for AppError {
    fn from(error: rusqlite::Error) -> (res: AppError)
        ensures
            res is Database,
    {
        AppError::Database(sql_error_text(&error))
    }
}

impl vstd::std_specs::convert::FromSpecImpl<rusqlite::Error> for AppError {
    open spec fn obeys_from_spec() -> bool {
        false
    }

    open spec fn from_spec(error: rusqlite::Error) -> AppError {
        arbitrary()
    }
}

/// A value that can check itself.
pub trait Validate {
    fn validate(&self) -> Result<(), AppError>;
}

impl AppError {
    /// The detail that the error carries.
    pub open spec fn detail(self) -> Seq<char> {
        match self {
            AppError::Database(msg) => msg@,
            AppError::Auth(msg) => msg@,
            AppError::Validation(msg) => msg@,
            AppError::NotFound(msg) => msg@,
            AppError::Internal(msg) => msg@,
            AppError::IO(msg) => msg@,
            AppError::Network(msg) => msg@,
            AppError::Configuration(msg) => msg@,
            AppError::DatabaseError(msg) => msg@,
            AppError::AuthenticationError(msg) => msg@,
            AppError::ValidationError(msg) => msg@,
            AppError::BackupError(msg) => msg@,
        }
    }

    /// What stands before the detail when the error is written out.
    pub open spec fn heading(self) -> Seq<char> {
        match self {
            AppError::Database(_) => "Erreur de base de données : "@,
            AppError::Auth(_) => "Erreur d'authentification : "@,
            AppError::Validation(_) => "Erreur de validation : "@,
            AppError::NotFound(_) => "Ressource non trouvée : "@,
            AppError::Internal(_) => "Erreur interne : "@,
            AppError::IO(_) => "Erreur I/O : "@,
            AppError::Network(_) => "Erreur réseau : "@,
            AppError::Configuration(_) => "Erreur de configuration : "@,
            AppError::DatabaseError(_) => "Erreur de base de données: "@,
            AppError::AuthenticationError(_) => "Erreur d'authentification: "@,
            AppError::ValidationError(_) => "Erreur de validation: "@,
            AppError::BackupError(_) => "Erreur de backup: "@,
        }
    }

    /// The error written out: its heading, then its detail.
    pub open spec fn text(self) -> Seq<char> {
        self.heading() + self.detail()
    }

    /// The error written out for a log or a developer.
    pub fn to_string(&self) -> (text: String)
        ensures
            text@ == self.text(),
    {
        match self {
            AppError::Database(msg) => concat("Erreur de base de données : ", msg.as_str()),
            AppError::Auth(msg) => concat("Erreur d'authentification : ", msg.as_str()),
            AppError::Validation(msg) => concat("Erreur de validation : ", msg.as_str()),
            AppError::NotFound(msg) => concat("Ressource non trouvée : ", msg.as_str()),
            AppError::Internal(msg) => concat("Erreur interne : ", msg.as_str()),
            AppError::IO(msg) => concat("Erreur I/O : ", msg.as_str()),
            AppError::Network(msg) => concat("Erreur réseau : ", msg.as_str()),
            AppError::Configuration(msg) => concat("Erreur de configuration : ", msg.as_str()),
            AppError::DatabaseError(msg) => concat("Erreur de base de données: ", msg.as_str()),
            AppError::AuthenticationError(msg) => concat(
                "Erreur d'authentification: ",
                msg.as_str(),
            ),
            AppError::ValidationError(msg) => concat("Erreur de validation: ", msg.as_str()),
            AppError::BackupError(msg) => concat("Erreur de backup: ", msg.as_str()),
        }
    }
}

/// What the user is told of an error of the database.
pub const DATABASE_MESSAGE: &'static str =
    "Une erreur est survenue lors de l'accès à la base de données";

/// What the user is told when signing in fails.
pub const CREDENTIALS_MESSAGE: &'static str = "Identifiants invalides";

/// What the user is told of something that was not found.
pub const NOT_FOUND_MESSAGE: &'static str = "La ressource demandée n'a pas été trouvée";

/// What the user is told of an error that was not foreseen.
pub const INTERNAL_MESSAGE: &'static str = "Une erreur inattendue est survenue";

/// What the user is told of an error of the file system.
pub const IO_MESSAGE: &'static str = "Une erreur est survenue lors de l'accès aux fichiers";

/// What the user is told of an error of the network.
pub const NETWORK_MESSAGE: &'static str =
    "Une erreur est survenue lors de la communication réseau";

/// What the user is told of an error in the configuration.
pub const CONFIGURATION_MESSAGE: &'static str =
    "Une erreur est survenue dans la configuration de l'application";

/// What the user is told of a backup that failed.
pub const BACKUP_MESSAGE: &'static str =
    "Une erreur est survenue lors de la sauvegarde des données";

/// What the user is told of an error. A validation error is passed on in
/// its own words; every other kind is replaced by a fixed sentence that
/// gives nothing of its detail away.
pub open spec fn user_message(error: AppError) -> Seq<char> {
    match error {
        AppError::Database(_) => DATABASE_MESSAGE@,
        AppError::Auth(_) => CREDENTIALS_MESSAGE@,
        AppError::Validation(msg) => msg@,
        AppError::NotFound(_) => NOT_FOUND_MESSAGE@,
        AppError::Internal(_) => INTERNAL_MESSAGE@,
        AppError::IO(_) => IO_MESSAGE@,
        AppError::Network(_) => NETWORK_MESSAGE@,
        AppError::Configuration(_) => CONFIGURATION_MESSAGE@,
        AppError::DatabaseError(_) => DATABASE_MESSAGE@,
        AppError::AuthenticationError(_) => CREDENTIALS_MESSAGE@,
        AppError::ValidationError(msg) => msg@,
        AppError::BackupError(_) => BACKUP_MESSAGE@,
    }
}

/// How grave an error is, for the log.
#[derive(Debug, Clone, Copy, PartialEq, Eq, Structural)]
pub enum Severity {
    /// The user asked for something that cannot be done.
    Warning,
    /// The application or what it rests on has failed.
    Error,
}

impl AppError {
    /// How grave the error is: a warning where signing in, validation or a
    /// lookup failed, an error for everything else.
    pub open spec fn severity_of(self) -> Severity {
        match self {
            AppError::Auth(_) => Severity::Warning,
            AppError::Validation(_) => Severity::Warning,
            AppError::NotFound(_) => Severity::Warning,
            AppError::AuthenticationError(_) => Severity::Warning,
            AppError::ValidationError(_) => Severity::Warning,
            _ => Severity::Error,
        }
    }

    /// How grave the error is, for the log.
    pub fn severity(&self) -> (severity: Severity)
        ensures
            severity == self.severity_of(),
    {
        match self {
            AppError::Auth(_) => Severity::Warning,
            AppError::Validation(_) => Severity::Warning,
            AppError::NotFound(_) => Severity::Warning,
            AppError::AuthenticationError(_) => Severity::Warning,
            AppError::ValidationError(_) => Severity::Warning,
            _ => Severity::Error,
        }
    }
}

/// Turns an error into the message shown to the user.
pub fn handle_error(error: AppError) -> (message: String)
    ensures
        message@ == user_message(error),
{
    match error {
        AppError::Database(_) => DATABASE_MESSAGE.to_owned(),
        AppError::Auth(_) => CREDENTIALS_MESSAGE.to_owned(),
        AppError::Validation(msg) => msg,
        AppError::NotFound(_) => NOT_FOUND_MESSAGE.to_owned(),
        AppError::Internal(_) => INTERNAL_MESSAGE.to_owned(),
        AppError::IO(_) => IO_MESSAGE.to_owned(),
        AppError::Network(_) => NETWORK_MESSAGE.to_owned(),
        AppError::Configuration(_) => CONFIGURATION_MESSAGE.to_owned(),
        AppError::DatabaseError(_) => DATABASE_MESSAGE.to_owned(),
        AppError::AuthenticationError(_) => CREDENTIALS_MESSAGE.to_owned(),
        AppError::ValidationError(msg) => msg,
        AppError::BackupError(_) => BACKUP_MESSAGE.to_owned(),
    }
}

/// Whether `res` is the validation error that says `message`.
pub open spec fn rejects_with(res: Result<(), AppError>, message: Seq<char>) -> bool {
    res matches Err(AppError::Validation(msg)) && msg@ == message
}

fn invalid(message: &str) -> (res: Result<(), AppError>)
    ensures
        rejects_with(res, message@),
{
    Err(AppError::Validation(message.to_owned()))
}

/// An email address is accepted when it holds an `@` and a `.`.
pub open spec fn email_is_valid(email: Seq<char>) -> bool {
    email.contains('@') && email.contains('.')
}

/// Checks an email address.
pub fn validate_email(email: &str) -> (res: Result<(), AppError>)
    ensures
        res is Ok <==> email_is_valid(email@),
        res is Err ==> rejects_with(res, "Email invalide"@),
{
    if !contains_char(email, '@') || !contains_char(email, '.') {
        return invalid("Email invalide");
    }
    Ok(())
}

/// Checks a password: it is accepted when it is at least 8 bytes long.
pub fn validate_password(password: &str) -> (res: Result<(), AppError>)
    ensures
        res is Ok <==> byte_len(password@) >= 8,
        res is Err ==> rejects_with(
            res,
            "Le mot de passe doit contenir au moins 8 caractères"@,
        ),
{
    if byte_length(password) < 8 {
        return invalid("Le mot de passe doit contenir au moins 8 caractères");
    }
    Ok(())
}

/// What a check of a required text of bounded length comes to.
pub open spec fn bounded_text_outcome(
    res: Result<(), AppError>,
    text: Seq<char>,
    max_bytes: nat,
    when_empty: Seq<char>,
    when_long: Seq<char>,
) -> bool {
    if text.len() == 0 {
        rejects_with(res, when_empty)
    } else if byte_len(text) > max_bytes {
        rejects_with(res, when_long)
    } else {
        res is Ok
    }
}

fn check_bounded_text(text: &str, max_bytes: usize, when_empty: &str, when_long: &str) -> (res:
    Result<(), AppError>)
    ensures
        bounded_text_outcome(res, text@, max_bytes as nat, when_empty@, when_long@),
{
    if text.is_empty() {
        return invalid(when_empty);
    }
    if byte_length(text) > max_bytes {
        return invalid(when_long);
    }
    Ok(())
}

/// Checks a job title: it must not be empty, nor longer than 200 bytes.
pub fn validate_job_title(title: &str) -> (res: Result<(), AppError>)
    ensures
        bounded_text_outcome(
            res,
            title@,
            200,
            "Le titre ne peut pas être vide"@,
            "Le titre est trop long"@,
        ),
{
    check_bounded_text(title, 200, "Le titre ne peut pas être vide", "Le titre est trop long")
}

/// Checks a company name: it must not be empty, nor longer than 100
/// bytes.
pub fn validate_company_name(company: &str) -> (res: Result<(), AppError>)
    ensures
        bounded_text_outcome(
            res,
            company@,
            100,
            "Le nom de l'entreprise ne peut pas être vide"@,
            "Le nom de l'entreprise est trop long"@,
        ),
{
    check_bounded_text(
        company,
        100,
        "Le nom de l'entreprise ne peut pas être vide",
        "Le nom de l'entreprise est trop long",
    )
}

/// Checks a location: it must not be empty, nor longer than 100 bytes.
pub fn validate_location(location: &str) -> (res: Result<(), AppError>)
    ensures
        bounded_text_outcome(
            res,
            location@,
            100,
            "La localisation ne peut pas être vide"@,
            "La localisation est trop longue"@,
        ),
{
    check_bounded_text(
        location,
        100,
        "La localisation ne peut pas être vide",
        "La localisation est trop longue",
    )
}

/// The limits are counted in bytes, and a character takes from one to four
/// of them. So a password of 8 characters or more is always accepted and
/// one of fewer than 2 never; a text of more characters than its limit is
/// always too long, and one of no more than a quarter of it never.
pub proof fn lemma_limits_in_characters(text: Seq<char>, max_bytes: nat)
    ensures
        text.len() >= 8 ==> byte_len(text) >= 8,
        text.len() < 2 ==> byte_len(text) < 8,
        text.len() > max_bytes ==> byte_len(text) > max_bytes,
        4 * text.len() <= max_bytes ==> byte_len(text) <= max_bytes,
        vstd::utf8::is_ascii_chars(text) ==> byte_len(text) == text.len(),
{
    lemma_byte_len_bounds(text);
}

} // verus!
