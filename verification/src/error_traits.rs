//! The closed error taxonomy of the service and its mapping to the externally
//! visible error shape.

use vstd::prelude::*;

verus! {

/// What a credential store reports when an operation fails, reduced to the
/// parts the classification reads.
#[derive(Debug)]
pub enum StoreError {
    /// The store itself rejected the statement; `constraint` names the violated
    /// constraint, if the store reported one. `message` is diagnostic text for
    /// server-side logs only.
    Database { constraint: Option<String>, message: String },
    /// A statement that must return a row returned none.
    RowNotFound,
    /// Any other fault (connection, protocol, decoding). `message` is
    /// diagnostic text for server-side logs only.
    Other { message: String },
}

/// Mathematical model of a [`StoreError`]: diagnostics are dropped.
pub enum StoreErrorView {
    Database { constraint: Option<Seq<char>> },
    RowNotFound,
    Other,
}

impl View for StoreError {
    type V = StoreErrorView;

    open spec fn view(&self) -> StoreErrorView {
        match self {
            StoreError::Database { constraint: Some(c), .. } => StoreErrorView::Database {
                constraint: Some(c@),
            },
            StoreError::Database { constraint: None, .. } => StoreErrorView::Database {
                constraint: None,
            },
            StoreError::RowNotFound => StoreErrorView::RowNotFound,
            StoreError::Other { .. } => StoreErrorView::Other,
        }
    }
}

/// Name of the unique-key constraint on the stored email.
pub open spec fn email_key_constraint() -> Seq<char> {
    "credentials_email_key"@
}

/// Name of the store-side format check on the stored email.
pub open spec fn email_check_constraint() -> Seq<char> {
    "credentials_email_check"@
}

/// The kinds of failure that can leave the service, each with the data it
/// carries.
#[derive(Debug)]
pub enum AppError {
    /// A storage fault that no other kind classifies. The payload is kept for
    /// server-side diagnostics and never shown to callers.
    Database(StoreError),
    /// The input broke a validation rule; `message` says which.
    Validation { message: String },
    /// The named resource does not exist.
    NotFound { resource: String },
    /// The request collides with existing state; `message` says how.
    Conflict { message: String },
    /// The password hasher failed.
    PasswordHashing(bcrypt::BcryptError),
    /// The email is not well formed; `email` is the offending raw input.
    InvalidEmail { email: String },
    /// An unclassified internal fault; `message` is for server-side logs.
    Internal { message: String },
}

/// Mathematical model of an [`AppError`]: the kind, and the text it carries.
pub enum ErrorView {
    Database,
    Validation(Seq<char>),
    NotFound(Seq<char>),
    Conflict(Seq<char>),
    PasswordHashing,
    InvalidEmail(Seq<char>),
    Internal(Seq<char>),
}

impl View for AppError {
    type V = ErrorView;

    open spec fn view(&self) -> ErrorView {
        match self {
            AppError::Database(_) => ErrorView::Database,
            AppError::Validation { message } => ErrorView::Validation(message@),
            AppError::NotFound { resource } => ErrorView::NotFound(resource@),
            AppError::Conflict { message } => ErrorView::Conflict(message@),
            AppError::PasswordHashing(_) => ErrorView::PasswordHashing,
            AppError::InvalidEmail { email } => ErrorView::InvalidEmail(email@),
            AppError::Internal { message } => ErrorView::Internal(message@),
        }
    }
}

/// Result of every fallible operation of the service.
pub type AppResult<T> = Result<T, AppError>;

/// Mathematical model of an [`AppResult`]: the view of the value or of the
/// failure.
pub open spec fn result_view<T: View>(r: AppResult<T>) -> Result<T::V, ErrorView> {
    match r {
        Ok(value) => Ok(value@),
        Err(e) => Err(e@),
    }
}

/// Whether a check that found `failure` ended in `r`: with that failure, or
/// with success where it found none.
pub open spec fn check_result(r: AppResult<()>, failure: Option<ErrorView>) -> bool {
    match failure {
        Some(v) => r matches Err(e) && e@ == v,
        None => r is Ok,
    }
}

/// The error kind that a store failure is classified as.
pub open spec fn store_failure_class(err: StoreErrorView) -> ErrorView {
    match err {
        StoreErrorView::Database { constraint: Some(c) } => {
            if c == email_key_constraint() {
                ErrorView::Conflict("Email address already exists"@)
            } else if c == email_check_constraint() {
                ErrorView::Validation("Email format is invalid"@)
            } else {
                ErrorView::Database
            }
        },
        _ => ErrorView::Database,
    }
}

impl From<bcrypt::BcryptError> for AppError {
    fn from(err: bcrypt::BcryptError) -> (e: AppError) {
        AppError::PasswordHashing(err)
    }
}

impl vstd::std_specs::convert::FromSpecImpl<bcrypt::BcryptError> for AppError {
    open spec fn obeys_from_spec() -> bool {
        true
    }

    open spec fn from_spec(err: bcrypt::BcryptError) -> AppError {
        AppError::PasswordHashing(err)
    }
}

impl AppError {
    /// Classifies a store failure: a violated unique key on the email is a
    /// conflict, a violated email check is a validation failure, and every
    /// other failure is an opaque database error that keeps the failure for
    /// diagnostics.
    pub fn from_database_error(err: StoreError) -> (e: AppError)
        ensures
            e@ == store_failure_class(err@),
            e matches AppError::Database(kept) ==> kept == err,
    {
        match &err {
            StoreError::Database { constraint: Some(c), .. } => {
                if *c == "credentials_email_key".to_string() {
                    AppError::Conflict { message: "Email address already exists".to_string() }
                } else if *c == "credentials_email_check".to_string() {
                    AppError::Validation { message: "Email format is invalid".to_string() }
                } else {
                    AppError::Database(err)
                }
            },
            _ => AppError::Database(err),
        }
    }
}

/// The status class under which a failure is reported at the boundary.
#[derive(Debug, Clone, Copy, PartialEq, Eq, Structural)]
pub enum StatusClass {
    BadRequest,
    NotFound,
    Conflict,
    ServerError,
}

impl StatusClass {
    /// The numeric status of the class.
    pub open spec fn spec_code(self) -> u16 {
        match self {
            StatusClass::BadRequest => 400,
            StatusClass::NotFound => 404,
            StatusClass::Conflict => 409,
            StatusClass::ServerError => 500,
        }
    }

    /// The numeric status of the class.
    #[verifier::when_used_as_spec(spec_code)]
    pub fn code(self) -> (c: u16)
        ensures
            c == self.spec_code(),
    {
        match self {
            StatusClass::BadRequest => 400,
            StatusClass::NotFound => 404,
            StatusClass::Conflict => 409,
            StatusClass::ServerError => 500,
        }
    }
}

/// Structured, safe-to-expose context of a failure.
#[derive(Debug)]
pub struct ErrorDetails {
    /// The email that was rejected, as the caller sent it.
    pub email: String,
}

/// The externally visible shape of a failure.
#[derive(Debug)]
pub struct ErrorResponse {
    /// Stable code of the failure's kind.
    pub error: String,
    /// Human-readable text that is safe to expose.
    pub message: String,
    /// Context that is safe to expose, where the kind has any.
    pub details: Option<ErrorDetails>,
}

/// Mathematical model of an [`ErrorResponse`]; `details` is the rejected
/// email where there is one.
pub struct ErrorResponseView {
    pub error: Seq<char>,
    pub message: Seq<char>,
    pub details: Option<Seq<char>>,
}

impl View for ErrorResponse {
    type V = ErrorResponseView;

    open spec fn view(&self) -> ErrorResponseView {
        ErrorResponseView {
            error: self.error@,
            message: self.message@,
            details: match self.details {
                Some(d) => Some(d.email@),
                None => None,
            },
        }
    }
}

impl ErrorView {
    /// The status class of each kind.
    pub open spec fn status(self) -> StatusClass {
        match self {
            ErrorView::Validation(_) | ErrorView::InvalidEmail(_) => StatusClass::BadRequest,
            ErrorView::NotFound(_) => StatusClass::NotFound,
            ErrorView::Conflict(_) => StatusClass::Conflict,
            ErrorView::Database | ErrorView::PasswordHashing | ErrorView::Internal(_) =>
                StatusClass::ServerError,
        }
    }

    /// The stable code of each kind.
    pub open spec fn code(self) -> Seq<char> {
        match self {
            ErrorView::Database => "DATABASE_ERROR"@,
            ErrorView::Validation(_) => "VALIDATION_ERROR"@,
            ErrorView::NotFound(_) => "RESOURCE_NOT_FOUND"@,
            ErrorView::Conflict(_) => "RESOURCE_CONFLICT"@,
            ErrorView::PasswordHashing => "PASSWORD_HASHING_ERROR"@,
            ErrorView::InvalidEmail(_) => "INVALID_EMAIL"@,
            ErrorView::Internal(_) => "INTERNAL_SERVER_ERROR"@,
        }
    }

    /// The text shown to the caller. Validation failures and conflicts show
    /// their own message; a missing resource is named; the server-side kinds
    /// and the rejected email show a fixed text.
    pub open spec fn message(self) -> Seq<char> {
        match self {
            ErrorView::Database => "A database error occurred"@,
            ErrorView::Validation(message) => message,
            ErrorView::NotFound(resource) => resource + " not found"@,
            ErrorView::Conflict(message) => message,
            ErrorView::PasswordHashing => "Password processing failed"@,
            ErrorView::InvalidEmail(_) => "Invalid email format"@,
            ErrorView::Internal(_) => "An internal server error occurred"@,
        }
    }

    /// The context shown to the caller: the rejected email, and nothing for
    /// any other kind.
    pub open spec fn details(self) -> Option<Seq<char>> {
        match self {
            ErrorView::InvalidEmail(email) => Some(email),
            _ => None,
        }
    }

    /// The whole externally visible shape.
    pub open spec fn response(self) -> ErrorResponseView {
        ErrorResponseView { error: self.code(), message: self.message(), details: self.details() }
    }
}

impl AppError {
    /// The status class under which this failure is reported.
    pub fn status(&self) -> (s: StatusClass)
        ensures
            s == self@.status(),
    {
        match self {
            AppError::Validation { .. } | AppError::InvalidEmail { .. } => StatusClass::BadRequest,
            AppError::NotFound { .. } => StatusClass::NotFound,
            AppError::Conflict { .. } => StatusClass::Conflict,
            AppError::Database(_) | AppError::PasswordHashing(_) | AppError::Internal { .. } =>
                StatusClass::ServerError,
        }
    }

    /// The externally visible shape of this failure, with its status class.
    /// What a store or the hasher reported, and the text of an internal fault,
    /// never reach it.
    pub fn into_response(self) -> (r: (StatusClass, ErrorResponse))
        ensures
            r.0 == self@.status(),
            r.1@ == self@.response(),
    {
        let status = self.status();
        let (error_code, message, details) = match self {
            AppError::Database(_) => (
                "DATABASE_ERROR".to_string(),
                "A database error occurred".to_string(),
                None,
            ),
            AppError::Validation { message } => ("VALIDATION_ERROR".to_string(), message, None),
            AppError::NotFound { resource } => (
                "RESOURCE_NOT_FOUND".to_string(),
                resource.concat(" not found"),
                None,
            ),
            AppError::Conflict { message } => ("RESOURCE_CONFLICT".to_string(), message, None),
            AppError::PasswordHashing(_) => (
                "PASSWORD_HASHING_ERROR".to_string(),
                "Password processing failed".to_string(),
                None,
            ),
            AppError::InvalidEmail { email } => (
                "INVALID_EMAIL".to_string(),
                "Invalid email format".to_string(),
                Some(ErrorDetails { email }),
            ),
            AppError::Internal { .. } => (
                "INTERNAL_SERVER_ERROR".to_string(),
                "An internal server error occurred".to_string(),
                None,
            ),
        };
        (status, ErrorResponse { error: error_code, message, details })
    }

    /// A validation failure with the given message.
    pub fn validation(message: &str) -> (e: AppError)
        ensures
            e@ == ErrorView::Validation(message@),
    {
        AppError::Validation { message: message.to_string() }
    }

    /// A missing resource of the given name.
    pub fn not_found(resource: &str) -> (e: AppError)
        ensures
            e@ == ErrorView::NotFound(resource@),
    {
        AppError::NotFound { resource: resource.to_string() }
    }

    /// A conflict with the given message.
    pub fn conflict(message: &str) -> (e: AppError)
        ensures
            e@ == ErrorView::Conflict(message@),
    {
        AppError::Conflict { message: message.to_string() }
    }

    /// A rejected email; `email` is the raw input.
    pub fn invalid_email(email: &str) -> (e: AppError)
        ensures
            e@ == ErrorView::InvalidEmail(email@),
    {
        AppError::InvalidEmail { email: email.to_string() }
    }

    /// An unclassified internal fault with the given diagnostic text.
    pub fn internal(message: &str) -> (e: AppError)
        ensures
            e@ == ErrorView::Internal(message@),
    {
        AppError::Internal { message: message.to_string() }
    }
}

} // verus!
