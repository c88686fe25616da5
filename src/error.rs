use vstd::prelude::*;

verus! {

/// The class of a failure, which decides how it is surfaced to a caller.
#[derive(Debug, Clone, Copy, PartialEq, Eq, Structural)]
pub enum ErrorResponseType {
    BadRequest,
    Connection,
    Forbidden,
    Internal,
    MfaEnrollmentRequired,
    NotFound,
    Unauthorized,
}

/// A failure with its class and a message for operators.
#[derive(Debug, Clone)]
pub struct ErrorResponse {
    pub error: ErrorResponseType,
    pub message: String,
}

impl ErrorResponse {
    pub fn new(error: ErrorResponseType, message: String) -> (r: ErrorResponse)
        ensures
            r.error == error,
            r.message@ == message@,
    {
        ErrorResponse { error, message }
    }

    /// Builds an error whose message is a fixed text.
    pub fn from_str(error: ErrorResponseType, message: &str) -> (r: ErrorResponse)
        ensures
            r.error == error,
            r.message@ == message@,
    {
        ErrorResponse { error, message: message.to_owned() }
    }
}

/// The class of the error held by `r`, if it holds one.
pub open spec fn err_kind<T>(r: Result<T, ErrorResponse>) -> Option<ErrorResponseType> {
    match r {
        Ok(_) => None,
        Err(e) => Some(e.error),
    }
}

} // verus!
