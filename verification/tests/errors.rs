use credential_service::error_traits::{AppError, StatusClass, StoreError};

fn database_failure(constraint: Option<&str>) -> StoreError {
    StoreError::Database {
        constraint: constraint.map(|c| c.to_string()),
        message: "raw store text".to_string(),
    }
}

#[test]
fn unique_key_violation_is_a_conflict() {
    match AppError::from_database_error(database_failure(Some("credentials_email_key"))) {
        AppError::Conflict { message } => assert_eq!(message, "Email address already exists"),
        other => panic!("expected a conflict, got {:?}", other),
    }
}

#[test]
fn email_check_violation_is_a_validation_failure() {
    match AppError::from_database_error(database_failure(Some("credentials_email_check"))) {
        AppError::Validation { message } => assert_eq!(message, "Email format is invalid"),
        other => panic!("expected a validation failure, got {:?}", other),
    }
}

#[test]
fn other_constraint_is_a_database_error() {
    match AppError::from_database_error(database_failure(Some("credentials_pkey"))) {
        AppError::Database(StoreError::Database { constraint, message }) => {
            assert_eq!(constraint.as_deref(), Some("credentials_pkey"));
            assert_eq!(message, "raw store text");
        }
        other => panic!("expected a database error, got {:?}", other),
    }
}

#[test]
fn constraint_names_are_matched_exactly() {
    for name in ["CREDENTIALS_EMAIL_KEY", "credentials_email_key ", "credentials_email", ""] {
        assert!(matches!(
            AppError::from_database_error(database_failure(Some(name))),
            AppError::Database(_)
        ));
    }
}

#[test]
fn database_failure_without_constraint_is_a_database_error() {
    assert!(matches!(
        AppError::from_database_error(database_failure(None)),
        AppError::Database(StoreError::Database { constraint: None, .. })
    ));
}

#[test]
fn missing_row_is_a_database_error() {
    assert!(matches!(
        AppError::from_database_error(StoreError::RowNotFound),
        AppError::Database(StoreError::RowNotFound)
    ));
}

#[test]
fn any_other_store_fault_is_a_database_error() {
    let fault = StoreError::Other { message: "connection reset".to_string() };
    assert!(matches!(
        AppError::from_database_error(fault),
        AppError::Database(StoreError::Other { .. })
    ));
}

#[test]
fn status_codes() {
    assert_eq!(StatusClass::BadRequest.code(), 400);
    assert_eq!(StatusClass::NotFound.code(), 404);
    assert_eq!(StatusClass::Conflict.code(), 409);
    assert_eq!(StatusClass::ServerError.code(), 500);
}

#[test]
fn validation_response() {
    let error = AppError::validation("Email cannot be empty");
    assert_eq!(error.status(), StatusClass::BadRequest);
    let (status, body) = error.into_response();
    assert_eq!(status, StatusClass::BadRequest);
    assert_eq!(body.error, "VALIDATION_ERROR");
    assert_eq!(body.message, "Email cannot be empty");
    assert!(body.details.is_none());
}

#[test]
fn invalid_email_response_carries_the_email() {
    let (status, body) = AppError::invalid_email("not-an-email").into_response();
    assert_eq!(status, StatusClass::BadRequest);
    assert_eq!(body.error, "INVALID_EMAIL");
    assert_eq!(body.message, "Invalid email format");
    assert_eq!(body.details.map(|d| d.email), Some("not-an-email".to_string()));
}

#[test]
fn not_found_response_names_the_resource() {
    let (status, body) = AppError::not_found("User").into_response();
    assert_eq!(status, StatusClass::NotFound);
    assert_eq!(body.error, "RESOURCE_NOT_FOUND");
    assert_eq!(body.message, "User not found");
    assert!(body.details.is_none());
}

#[test]
fn conflict_response() {
    let (status, body) = AppError::conflict("Email address already exists").into_response();
    assert_eq!(status, StatusClass::Conflict);
    assert_eq!(body.error, "RESOURCE_CONFLICT");
    assert_eq!(body.message, "Email address already exists");
    assert!(body.details.is_none());
}

#[test]
fn database_response_is_opaque() {
    let error = AppError::Database(StoreError::Other { message: "password=hunter2".to_string() });
    let (status, body) = error.into_response();
    assert_eq!(status, StatusClass::ServerError);
    assert_eq!(body.error, "DATABASE_ERROR");
    assert_eq!(body.message, "A database error occurred");
    assert!(body.details.is_none());
}

#[test]
fn internal_response_is_opaque() {
    let (status, body) = AppError::internal("stack trace here").into_response();
    assert_eq!(status, StatusClass::ServerError);
    assert_eq!(body.error, "INTERNAL_SERVER_ERROR");
    assert_eq!(body.message, "An internal server error occurred");
    assert!(body.details.is_none());
}

#[test]
fn hashing_failure_response_is_opaque() {
    let error = AppError::from(bcrypt::BcryptError::CostNotAllowed(99));
    assert!(matches!(error, AppError::PasswordHashing(bcrypt::BcryptError::CostNotAllowed(99))));
    let (status, body) = error.into_response();
    assert_eq!(status, StatusClass::ServerError);
    assert_eq!(body.error, "PASSWORD_HASHING_ERROR");
    assert_eq!(body.message, "Password processing failed");
    assert!(body.details.is_none());
}
