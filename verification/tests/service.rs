use credential_service::dto::RequestCredentials;
use credential_service::error_traits::{AppError, StoreError};
use credential_service::hasher::{
    hash_password, hashing_outcome, verify_password, HASH_COST, HASH_LEN,
};
use credential_service::model::{Credential, ResponseCredentials};
use credential_service::repository::{
    found_credentials, get_credentials_by_mail_repository, save_credential_repository,
    saved_credentials,
};
use credential_service::services::{
    credentials_or_not_found, get_credentials_by_email_service, hashed_credentials, lookup_key,
    prepare_credentials, save_credentials_service,
};
use credential_service::store::CredentialStore;

fn request(email: &str, password: &str) -> RequestCredentials {
    RequestCredentials { email: email.to_string(), password: password.to_string() }
}

fn some_hash() -> String {
    "$2b$12$abcdefghijklmnopqrstuuFh9Eel1bUFJQGqnYrSL4m1JoLJ2c9Tq".to_string()
}

#[test]
fn hashing_twice_gives_two_hashes_that_both_verify() {
    let first = hash_password("Abcdefg1").unwrap();
    let second = hash_password("Abcdefg1").unwrap();
    assert_ne!(first, second);
    assert!(bcrypt::verify("Abcdefg1", &first).unwrap());
    assert!(bcrypt::verify("Abcdefg1", &second).unwrap());
}

#[test]
fn hash_is_not_the_plaintext_and_has_the_fixed_shape() {
    let hash = hash_password("Abcdefg1").unwrap();
    assert_ne!(hash, "Abcdefg1");
    assert_eq!(hash.chars().count(), HASH_LEN);
    assert!(hash.starts_with("$2b$12$"));
    assert_eq!(HASH_COST, 12);
    assert_eq!(HASH_COST, bcrypt::DEFAULT_COST);
    assert!(!bcrypt::verify("Abcdefg2", &hash).unwrap());
}

#[test]
fn a_hash_is_accepted_for_its_password_only() {
    let hash = hash_password("Abcdefg1").unwrap();
    assert!(verify_password("Abcdefg1", &hash).unwrap());
    assert!(!verify_password("Abcdefg2", &hash).unwrap());
    assert!(!verify_password("", &hash).unwrap());
    assert!(matches!(hashing_outcome(Ok(true)), Ok(true)));
}

#[test]
fn a_hash_made_under_a_given_salt_is_accepted_for_its_password() {
    let hash = bcrypt::hash_with_salt("My S3cre7 P@55w0rd!", 4, [7u8; 16]).unwrap().to_string();
    assert!(hash.starts_with("$2b$04$"));
    assert!(verify_password("My S3cre7 P@55w0rd!", &hash).unwrap());
    assert!(!verify_password("My S3cre7 P@55w0rd?", &hash).unwrap());
}

#[test]
fn a_text_that_is_no_hash_is_a_hashing_failure() {
    for text in ["", "Abcdefg1", "$2b$12$short", "[REDACTED]"] {
        assert!(matches!(
            verify_password("Abcdefg1", text),
            Err(AppError::PasswordHashing(_))
        ));
    }
    let sixty_wrong = "x".repeat(60);
    assert!(matches!(
        verify_password("Abcdefg1", &sixty_wrong),
        Err(AppError::PasswordHashing(_))
    ));
}

#[test]
fn registration_hashes_the_password_of_the_request() {
    let mut store = CredentialStore::new();
    save_credentials_service(request("a@b.co", "Abcdefg1"), &mut store, 1).unwrap();
    save_credentials_service(request("c@d.co", "Zyxwvut9"), &mut store, 2).unwrap();
    let first = store.find_by_email("a@b.co").unwrap().secret_hash;
    let second = store.find_by_email("c@d.co").unwrap().secret_hash;
    assert!(first.starts_with("$2b$12$"));
    assert!(second.starts_with("$2b$12$"));
    assert!(verify_password("Abcdefg1", &first).unwrap());
    assert!(verify_password("Zyxwvut9", &second).unwrap());
    assert!(!verify_password("Zyxwvut9", &first).unwrap());
    assert!(!verify_password("", &first).unwrap());
}

#[test]
fn hashing_outcome_keeps_a_hash_and_classifies_a_failure() {
    assert_eq!(hashing_outcome(Ok(some_hash())).unwrap(), some_hash());
    assert!(matches!(
        hashing_outcome::<String>(Err(bcrypt::BcryptError::CostNotAllowed(3))),
        Err(AppError::PasswordHashing(bcrypt::BcryptError::CostNotAllowed(3)))
    ));
}

#[test]
fn hashed_credentials_carry_canonical_email_and_hash() {
    let record = hashed_credentials("  User@Example.COM ", Ok(some_hash())).unwrap();
    assert_eq!(record.email, "user@example.com");
    assert_eq!(record.password, some_hash());
    assert!(matches!(
        hashed_credentials("a@b.co", Err(bcrypt::BcryptError::Truncation(80))),
        Err(AppError::PasswordHashing(_))
    ));
}

#[test]
fn prepared_credentials_hold_no_plaintext() {
    let record = prepare_credentials(request(" A@B.co", "Abcdefg1")).unwrap();
    assert_eq!(record.email, "a@b.co");
    assert_ne!(record.password, "Abcdefg1");
    assert!(bcrypt::verify("Abcdefg1", &record.password).unwrap());
}

#[test]
fn preparation_reports_the_email_before_the_password() {
    assert!(matches!(
        prepare_credentials(request("nope", "x")),
        Err(AppError::InvalidEmail { .. })
    ));
    match prepare_credentials(request("", "x")) {
        Err(AppError::Validation { message }) => assert_eq!(message, "Email cannot be empty"),
        other => panic!("expected a validation failure, got {:?}", other),
    }
    match prepare_credentials(request("a@b.co", "x")) {
        Err(AppError::Validation { message }) => {
            assert_eq!(message, "Password must be at least 8 characters long")
        }
        other => panic!("expected a validation failure, got {:?}", other),
    }
}

#[test]
fn register_returns_the_redacted_view() {
    let mut store = CredentialStore::new();
    let view = save_credentials_service(request("a@b.co", "Abcdefg1"), &mut store, 1_700_000_000)
        .unwrap();
    assert_eq!(view.email, "a@b.co");
    assert_eq!(view.password, "[REDACTED]");
    assert_eq!(store.len(), 1);
    let stored = store.find_by_email("a@b.co").unwrap();
    assert_eq!(stored.email, "a@b.co");
    assert_eq!(stored.created_at, 1_700_000_000);
    assert_ne!(stored.secret_hash, "Abcdefg1");
    assert_ne!(view.password, stored.secret_hash);
    assert!(bcrypt::verify("Abcdefg1", &stored.secret_hash).unwrap());
}

#[test]
fn lookup_after_registration_ignores_case_and_white_space() {
    let mut store = CredentialStore::new();
    save_credentials_service(request("a@b.co", "Abcdefg1"), &mut store, 7).unwrap();
    let view = get_credentials_by_email_service("A@B.CO ", &store).unwrap();
    assert_eq!(view.email, "a@b.co");
    assert_eq!(view.password, "[REDACTED]");
}

#[test]
fn registering_the_same_canonical_email_twice_conflicts() {
    let mut store = CredentialStore::new();
    let first = save_credentials_service(request("User@Example.com", "Abcdefg1"), &mut store, 1);
    assert!(first.is_ok());
    match save_credentials_service(request("  user@EXAMPLE.com ", "Zyxwvut9"), &mut store, 2) {
        Err(AppError::Conflict { message }) => assert_eq!(message, "Email address already exists"),
        other => panic!("expected a conflict, got {:?}", other),
    }
    assert_eq!(store.len(), 1);
    let stored = store.find_by_email("user@example.com").unwrap();
    assert_eq!(stored.created_at, 1);
    assert!(bcrypt::verify("Abcdefg1", &stored.secret_hash).unwrap());
}

#[test]
fn lookup_of_unregistered_email_is_not_found() {
    let mut store = CredentialStore::new();
    match get_credentials_by_email_service("nobody@example.com", &store) {
        Err(AppError::NotFound { resource }) => assert_eq!(resource, "User"),
        other => panic!("expected a missing user, got {:?}", other),
    }
    save_credentials_service(request("a@b.co", "Abcdefg1"), &mut store, 1).unwrap();
    assert!(matches!(
        get_credentials_by_email_service("nobody@example.com", &store),
        Err(AppError::NotFound { .. })
    ));
}

#[test]
fn short_password_fails_registration_with_validation() {
    let mut store = CredentialStore::new();
    for password in ["", "a", "Abcdef1", "Ab1\u{e9}\u{e9}\u{e9}\u{e9}"] {
        match save_credentials_service(request("a@b.co", password), &mut store, 1) {
            Err(AppError::Validation { message }) => {
                assert_eq!(message, "Password must be at least 8 characters long")
            }
            other => panic!("expected a validation failure, got {:?}", other),
        }
    }
    assert_eq!(store.len(), 0);
}

#[test]
fn malformed_email_fails_registration_and_lookup() {
    let mut store = CredentialStore::new();
    for email in ["plain", "no-at.example.com", "no-dot@example", " "] {
        match save_credentials_service(request(email, "Abcdefg1"), &mut store, 1) {
            Err(AppError::InvalidEmail { email: carried }) => assert_eq!(carried, email),
            other => panic!("expected an invalid email, got {:?}", other),
        }
        match get_credentials_by_email_service(email, &store) {
            Err(AppError::InvalidEmail { email: carried }) => assert_eq!(carried, email),
            other => panic!("expected an invalid email, got {:?}", other),
        }
    }
    assert_eq!(store.len(), 0);
}

#[test]
fn empty_email_fails_registration_and_lookup_with_validation() {
    let mut store = CredentialStore::new();
    assert!(matches!(
        save_credentials_service(request("", "Abcdefg1"), &mut store, 1),
        Err(AppError::Validation { .. })
    ));
    assert!(matches!(
        get_credentials_by_email_service("", &store),
        Err(AppError::Validation { .. })
    ));
}

#[test]
fn lookup_key_is_the_canonical_email() {
    assert_eq!(lookup_key("A@B.CO ").unwrap(), "a@b.co");
    assert!(matches!(lookup_key("A.B"), Err(AppError::InvalidEmail { .. })));
    assert!(matches!(lookup_key(""), Err(AppError::Validation { .. })));
}

#[test]
fn nothing_found_is_a_missing_user() {
    match credentials_or_not_found(Ok(None)) {
        Err(AppError::NotFound { resource }) => assert_eq!(resource, "User"),
        other => panic!("expected a missing user, got {:?}", other),
    }
    let found = ResponseCredentials::redacted("a@b.co".to_string());
    let view = credentials_or_not_found(Ok(Some(found))).unwrap();
    assert_eq!(view.email, "a@b.co");
    assert_eq!(view.password, "[REDACTED]");
    assert!(matches!(
        credentials_or_not_found(Err(AppError::internal("x"))),
        Err(AppError::Internal { .. })
    ));
}

#[test]
fn store_answers_become_redacted_views_or_classified_errors() {
    let stored =
        Credential { email: "a@b.co".to_string(), secret_hash: some_hash(), created_at: 3 };
    let view = saved_credentials(Ok(stored.clone())).unwrap();
    assert_eq!(view.email, "a@b.co");
    assert_eq!(view.password, "[REDACTED]");
    let duplicate = StoreError::Database {
        constraint: Some("credentials_email_key".to_string()),
        message: String::new(),
    };
    assert!(matches!(saved_credentials(Err(duplicate)), Err(AppError::Conflict { .. })));
    let check = StoreError::Database {
        constraint: Some("credentials_email_check".to_string()),
        message: String::new(),
    };
    assert!(matches!(saved_credentials(Err(check)), Err(AppError::Validation { .. })));
    let fault = StoreError::Other { message: "timeout".to_string() };
    match saved_credentials(Err(fault)) {
        Err(AppError::Database(StoreError::Other { message })) => assert_eq!(message, "timeout"),
        other => panic!("expected the store's failure, got {:?}", other),
    }
    assert!(matches!(
        saved_credentials(Err(StoreError::RowNotFound)),
        Err(AppError::Database(StoreError::RowNotFound))
    ));

    let found = found_credentials(Ok(Some(stored))).unwrap().unwrap();
    assert_eq!(found.email, "a@b.co");
    assert_eq!(found.password, "[REDACTED]");
    assert!(found_credentials(Ok(None)).unwrap().is_none());
    let fault = StoreError::Other { message: "timeout".to_string() };
    match found_credentials(Err(fault)) {
        Err(AppError::Database(StoreError::Other { message })) => assert_eq!(message, "timeout"),
        other => panic!("expected the store's failure, got {:?}", other),
    }
    match credentials_or_not_found(found_credentials(Err(StoreError::RowNotFound))) {
        Err(AppError::Database(StoreError::RowNotFound)) => {}
        other => panic!("expected the store's failure, got {:?}", other),
    }
}

#[test]
fn repository_matches_the_key_exactly() {
    let mut store = CredentialStore::new();
    let record = RequestCredentials { email: "a@b.co".to_string(), password: some_hash() };
    let view = save_credential_repository(record, &mut store, 5).unwrap();
    assert_eq!(view.email, "a@b.co");
    assert_eq!(view.password, "[REDACTED]");
    assert!(get_credentials_by_mail_repository("a@b.co", &store).unwrap().is_some());
    assert!(get_credentials_by_mail_repository("A@B.CO", &store).unwrap().is_none());
    assert!(get_credentials_by_mail_repository("a@b.co ", &store).unwrap().is_none());
    let again = RequestCredentials { email: "a@b.co".to_string(), password: some_hash() };
    assert!(matches!(
        save_credential_repository(again, &mut store, 6),
        Err(AppError::Conflict { .. })
    ));
}

#[test]
fn store_keeps_each_email_once() {
    let mut store = CredentialStore::new();
    assert_eq!(store.len(), 0);
    assert!(store.find_by_email("a@b.co").is_none());
    let first = store.insert("a@b.co".to_string(), "h1".to_string(), 1).unwrap();
    assert_eq!(first.email, "a@b.co");
    assert_eq!(first.secret_hash, "h1");
    assert_eq!(first.created_at, 1);
    store.insert("c@d.co".to_string(), "h2".to_string(), 2).unwrap();
    match store.insert("a@b.co".to_string(), "h3".to_string(), 3) {
        Err(StoreError::Database { constraint, .. }) => {
            assert_eq!(constraint.as_deref(), Some("credentials_email_key"))
        }
        other => panic!("expected a unique-key violation, got {:?}", other),
    }
    assert_eq!(store.len(), 2);
    let kept = store.find_by_email("a@b.co").unwrap();
    assert_eq!(kept.secret_hash, "h1");
    assert_eq!(kept.created_at, 1);
    assert_eq!(store.find_by_email("c@d.co").unwrap().secret_hash, "h2");
}
