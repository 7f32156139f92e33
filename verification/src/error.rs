//! The error taxonomy of the resolution pipeline. Every failure anywhere in
//! the pipeline is one of these three variants, and each maps to a fixed
//! HTTP status code and user-visible message at the request boundary.

use vstd::prelude::*;

verus! {

/// A terminal pipeline failure.
#[derive(Clone, Copy, Debug, PartialEq, Eq, Structural)]
pub enum AppError {
    /// The geocoding API resolved the city to an empty result set.
    NotFound,
    /// A transport failure reaching either upstream API.
    Network,
    /// A response body that does not match the expected JSON shape.
    Decode,
}

impl AppError {
    /// The HTTP status code the request boundary answers with.
    pub fn status_code(&self) -> (code: u16)
        ensures
            code == (match *self {
                AppError::NotFound => 404u16,
                AppError::Network => 500u16,
                AppError::Decode => 500u16,
            }),
    {
        match *self {
            AppError::NotFound => 404,
            AppError::Network => 500,
            AppError::Decode => 500,
        }
    }

    /// The user-visible failure message; never a crash, never a partial
    /// result.
    pub fn message(&self) -> (m: &'static str)
        ensures
            m@ == (match *self {
                AppError::NotFound => "No results found"@,
                AppError::Network => "Something went wrong: upstream request failed"@,
                AppError::Decode => "Something went wrong: upstream response could not be decoded"@,
            }),
    {
        match *self {
            AppError::NotFound => "No results found",
            AppError::Network => "Something went wrong: upstream request failed",
            AppError::Decode => "Something went wrong: upstream response could not be decoded",
        }
    }
}

} // verus!
