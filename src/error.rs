//! What can go wrong while serving a request.
use vstd::prelude::*;

verus! {

/// An error of the store's driver, carried through unread.
#[verifier::external_type_specification]
#[verifier::external_body]
pub struct ExSqlxError(sqlx::Error);

/// A failure of a request.
#[derive(Debug)]
pub enum AppError {
    /// The requested entity does not exist or fails its access filter.
    NotFound(String),
    /// A call into the store failed.
    Database(sqlx::Error),
    /// Anything else; the text is for the log, never for the caller.
    Internal(String),
}

/// Status code for the not-found failure.
pub const STATUS_NOT_FOUND: u16 = 404;

/// Status code for every other failure.
pub const STATUS_INTERNAL: u16 = 500;

/// Status code with which an error is answered.
pub open spec fn status_spec(e: AppError) -> u16 {
    match e {
        AppError::NotFound(_) => STATUS_NOT_FOUND,
        _ => STATUS_INTERNAL,
    }
}

/// Text with which an error is answered. Only the not-found failure shows
/// its own text; every other failure answers with a generic text and keeps
/// its detail out of the response.
pub open spec fn message_spec(e: AppError) -> Seq<char> {
    match e {
        AppError::NotFound(m) => m@,
        AppError::Database(_) => "Database error"@,
        AppError::Internal(_) => "Internal error"@,
    }
}

impl AppError {
    /// Status code of the response for this error.
    pub fn status_code(&self) -> (r: u16)
        ensures
            r == status_spec(*self),
    {
        match self {
            AppError::NotFound(_) => STATUS_NOT_FOUND,
            _ => STATUS_INTERNAL,
        }
    }

    /// Body of the response for this error.
    pub fn public_message(&self) -> (r: String)
        ensures
            r@ == message_spec(*self),
    {
        match self {
            AppError::NotFound(m) => String::from_str(m.as_str()),
            AppError::Database(_) => String::from_str("Database error"),
            AppError::Internal(_) => String::from_str("Internal error"),
        }
    }

    /// Whether this is the not-found failure.
    pub fn is_not_found(&self) -> (r: bool)
        ensures
            r == (self is NotFound),
    {
        match self {
            AppError::NotFound(_) => true,
            _ => false,
        }
    }
}

impl From<sqlx::Error> for AppError {
    fn from(e: sqlx::Error) -> (r: AppError)
        ensures
            r == AppError::Database(e),
    {
        AppError::Database(e)
    }
}

impl vstd::std_specs::convert::FromSpecImpl<sqlx::Error> for AppError {
    open spec fn obeys_from_spec() -> bool {
        true
    }

    open spec fn from_spec(e: sqlx::Error) -> AppError {
        AppError::Database(e)
    }
}

} // verus!
