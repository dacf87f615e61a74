use vstd::prelude::*;
use vstd::string::StringExecFns;

verus! {

/// The failures that the library reports, each with a human-readable detail.
#[derive(Debug, Clone)]
pub enum AppError {
    /// The requested entity does not exist upstream.
    NotFound(String),
    /// A transport, decode, rate-limit or otherwise unclassified failure.
    GenericError(String),
    /// The input was rejected as malformed.
    BadRequest(String),
}

pub type AppResult<T> = Result<T, AppError>;

impl AppError {
    /// The detail text that the error carries.
    pub open spec fn detail(self) -> Seq<char> {
        match self {
            AppError::NotFound(d) => d@,
            AppError::GenericError(d) => d@,
            AppError::BadRequest(d) => d@,
        }
    }

    /// The HTTP status that stands for this kind of error.
    pub fn status_code(&self) -> (r: u16)
        ensures
            r == match self {
                AppError::NotFound(_) => 404u16,
                AppError::BadRequest(_) => 400u16,
                AppError::GenericError(_) => 500u16,
            },
    {
        match self {
            AppError::NotFound(_) => 404,
            AppError::BadRequest(_) => 400,
            AppError::GenericError(_) => 500,
        }
    }

    /// The machine-readable code of this kind of error.
    pub fn error_code(&self) -> (r: &'static str)
        ensures
            r@ == match self {
                AppError::NotFound(_) => "NOT_FOUND"@,
                AppError::BadRequest(_) => "BAD_REQUEST"@,
                AppError::GenericError(_) => "INTERNAL_ERROR"@,
            },
    {
        match self {
            AppError::NotFound(_) => "NOT_FOUND",
            AppError::BadRequest(_) => "BAD_REQUEST",
            AppError::GenericError(_) => "INTERNAL_ERROR",
        }
    }

    /// The error as a sentence: its kind, then its detail.
    pub fn message(&self) -> (r: String)
        ensures
            r@ == match self {
                AppError::NotFound(d) => "Resource not found: "@ + d@,
                AppError::GenericError(d) => "Generic error: "@ + d@,
                AppError::BadRequest(d) => "Bad request: "@ + d@,
            },
    {
        match self {
            AppError::NotFound(d) => String::from_str("Resource not found: ").concat(d.as_str()),
            AppError::GenericError(d) => String::from_str("Generic error: ").concat(d.as_str()),
            AppError::BadRequest(d) => String::from_str("Bad request: ").concat(d.as_str()),
        }
    }
}

} // verus!
