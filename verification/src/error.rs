//! The library's error type and the HTTP status each error is answered with.
use vstd::prelude::*;

verus! {

/// Errors that a request can end in.
#[derive(Debug)]
pub enum AppError {
    BadRequest(String),
    Unauthorized(String),
    NotFound(String),
    Database,
    Internal,
    Crypto(String),
    Worker(String),
}

/// The HTTP status code of an error response.
pub open spec fn spec_status_code(e: AppError) -> u16 {
    match e {
        AppError::BadRequest(_) => 400,
        AppError::Unauthorized(_) => 401,
        AppError::NotFound(_) => 404,
        _ => 500,
    }
}

impl AppError {
    /// The HTTP status code the error is answered with.
    pub fn status_code(&self) -> (code: u16)
        ensures
            code == spec_status_code(*self),
    {
        match self {
            AppError::BadRequest(_) => 400,
            AppError::Unauthorized(_) => 401,
            AppError::NotFound(_) => 404,
            _ => 500,
        }
    }
}

} // verus!
