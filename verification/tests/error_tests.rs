use job_tracker::auth::AuthError;
use job_tracker::error::{
    Severity,
    handle_error, validate_company_name, validate_email, validate_job_title, validate_location,
    validate_password, AppError,
};

fn validation_message(res: Result<(), AppError>) -> String {
    match res {
        Err(AppError::Validation(msg)) => msg,
        other => panic!("expected a validation error, got {:?}", other),
    }
}

#[test]
fn email_needs_an_at_and_a_dot() {
    assert!(validate_email("user@example.com").is_ok());
    assert!(validate_email("@.").is_ok());
    assert!(validate_email(".@").is_ok());
    assert_eq!(validation_message(validate_email("user.example.com")), "Email invalide");
    assert_eq!(validation_message(validate_email("user@example")), "Email invalide");
    assert_eq!(validation_message(validate_email("")), "Email invalide");
}

#[test]
fn password_needs_eight_bytes() {
    assert!(validate_password("12345678").is_ok());
    assert!(validate_password("a much longer password").is_ok());
    assert_eq!(
        validation_message(validate_password("1234567")),
        "Le mot de passe doit contenir au moins 8 caractères"
    );
    assert!(validate_password("").is_err());
    // four characters of two bytes each are eight bytes
    assert!(validate_password("éééé").is_ok());
    assert!(validate_password("ééé").is_err());
}

#[test]
fn job_title_is_required_and_bounded() {
    assert!(validate_job_title("Software Engineer").is_ok());
    assert_eq!(validation_message(validate_job_title("")), "Le titre ne peut pas être vide");
    assert!(validate_job_title(&"a".repeat(200)).is_ok());
    assert_eq!(validation_message(validate_job_title(&"a".repeat(201))), "Le titre est trop long");
    assert!(validate_job_title(&"é".repeat(100)).is_ok());
    assert!(validate_job_title(&"é".repeat(101)).is_err());
}

#[test]
fn company_name_is_required_and_bounded() {
    assert!(validate_company_name("Tech Corp").is_ok());
    assert_eq!(
        validation_message(validate_company_name("")),
        "Le nom de l'entreprise ne peut pas être vide"
    );
    assert!(validate_company_name(&"a".repeat(100)).is_ok());
    assert_eq!(
        validation_message(validate_company_name(&"a".repeat(101))),
        "Le nom de l'entreprise est trop long"
    );
}

#[test]
fn location_is_required_and_bounded() {
    assert!(validate_location("Paris").is_ok());
    assert_eq!(
        validation_message(validate_location("")),
        "La localisation ne peut pas être vide"
    );
    assert!(validate_location(&"a".repeat(100)).is_ok());
    assert_eq!(
        validation_message(validate_location(&"a".repeat(101))),
        "La localisation est trop longue"
    );
}

#[test]
fn user_is_told_a_fixed_sentence_for_each_kind_of_error() {
    let detail = || "secret detail".to_string();
    let database = "Une erreur est survenue lors de l'accès à la base de données";
    assert_eq!(handle_error(AppError::Database(detail())), database);
    assert_eq!(handle_error(AppError::DatabaseError(detail())), database);
    assert_eq!(handle_error(AppError::Auth(detail())), "Identifiants invalides");
    assert_eq!(handle_error(AppError::AuthenticationError(detail())), "Identifiants invalides");
    assert_eq!(
        handle_error(AppError::NotFound(detail())),
        "La ressource demandée n'a pas été trouvée"
    );
    assert_eq!(handle_error(AppError::Internal(detail())), "Une erreur inattendue est survenue");
    assert_eq!(
        handle_error(AppError::IO(detail())),
        "Une erreur est survenue lors de l'accès aux fichiers"
    );
    assert_eq!(
        handle_error(AppError::Network(detail())),
        "Une erreur est survenue lors de la communication réseau"
    );
    assert_eq!(
        handle_error(AppError::Configuration(detail())),
        "Une erreur est survenue dans la configuration de l'application"
    );
    assert_eq!(
        handle_error(AppError::BackupError(detail())),
        "Une erreur est survenue lors de la sauvegarde des données"
    );
}

#[test]
fn user_is_told_a_validation_error_in_its_own_words() {
    assert_eq!(handle_error(AppError::Validation("Email invalide".to_string())), "Email invalide");
    assert_eq!(handle_error(AppError::ValidationError("trop long".to_string())), "trop long");
    assert_eq!(handle_error(AppError::Validation(String::new())), "");
}

#[test]
fn error_is_written_out_with_its_heading() {
    let d = || "x".to_string();
    assert_eq!(AppError::Database(d()).to_string(), "Erreur de base de données : x");
    assert_eq!(AppError::Auth(d()).to_string(), "Erreur d'authentification : x");
    assert_eq!(AppError::Validation(d()).to_string(), "Erreur de validation : x");
    assert_eq!(AppError::NotFound(d()).to_string(), "Ressource non trouvée : x");
    assert_eq!(AppError::Internal(d()).to_string(), "Erreur interne : x");
    assert_eq!(AppError::IO(d()).to_string(), "Erreur I/O : x");
    assert_eq!(AppError::Network(d()).to_string(), "Erreur réseau : x");
    assert_eq!(AppError::Configuration(d()).to_string(), "Erreur de configuration : x");
    assert_eq!(AppError::DatabaseError(d()).to_string(), "Erreur de base de données: x");
    assert_eq!(AppError::AuthenticationError(d()).to_string(), "Erreur d'authentification: x");
    assert_eq!(AppError::ValidationError(d()).to_string(), "Erreur de validation: x");
    assert_eq!(AppError::BackupError(d()).to_string(), "Erreur de backup: x");
}

#[test]
fn file_system_error_becomes_an_io_error() {
    let e = std::io::Error::new(std::io::ErrorKind::NotFound, "no such backup");
    match AppError::from(e) {
        AppError::IO(msg) => assert_eq!(msg, "no such backup"),
        other => panic!("expected an IO error, got {:?}", other),
    }
}

#[test]
fn store_error_becomes_a_database_error() {
    match AppError::from(rusqlite::Error::QueryReturnedNoRows) {
        AppError::Database(msg) => assert_eq!(msg, "Query returned no rows"),
        other => panic!("expected a database error, got {:?}", other),
    }
}

#[test]
fn auth_error_is_written_out_with_its_heading() {
    let e = AuthError::from(rusqlite::Error::QueryReturnedNoRows);
    assert_eq!(e.to_string(), "Database error: Query returned no rows");
}

#[test]
fn errors_of_the_user_are_warnings_and_the_others_errors() {
    let d = || "x".to_string();
    for e in [
        AppError::Auth(d()),
        AppError::Validation(d()),
        AppError::NotFound(d()),
        AppError::AuthenticationError(d()),
        AppError::ValidationError(d()),
    ] {
        assert_eq!(e.severity(), Severity::Warning, "{:?}", e);
    }
    for e in [
        AppError::Database(d()),
        AppError::Internal(d()),
        AppError::IO(d()),
        AppError::Network(d()),
        AppError::Configuration(d()),
        AppError::DatabaseError(d()),
        AppError::BackupError(d()),
    ] {
        assert_eq!(e.severity(), Severity::Error, "{:?}", e);
    }
}
