//! The bodies of the request interface's answers.

use vstd::prelude::*;
use vstd::string::StringExecFns;

verus! {

/// A successful answer, with an optional payload.
#[derive(Debug)]
pub struct ApiResponse<T> {
    pub success: bool,
    pub message: String,
    pub data: Option<T>,
}

/// A failed answer.
#[derive(Debug)]
pub struct ErrorResponse {
    pub success: bool,
    pub message: String,
    pub error: String,
}

impl<T> ApiResponse<T> {
    /// A success carrying `data`.
    pub fn success(message: &str, data: T) -> (r: ApiResponse<T>)
        ensures
            r.success,
            r.message@ == message@,
            r.data == Some(data),
    {
        ApiResponse { success: true, message: String::from_str(message), data: Some(data) }
    }

    /// A success without payload.
    pub fn success_no_data(message: &str) -> (r: ApiResponse<T>)
        ensures
            r.success,
            r.message@ == message@,
            r.data is None,
    {
        ApiResponse { success: true, message: String::from_str(message), data: None }
    }
}

impl ErrorResponse {
    /// A failure labelled `error`.
    pub fn custom(message: &str, error: &str) -> (r: ErrorResponse)
        ensures
            !r.success,
            r.message@ == message@,
            r.error@ == error@,
    {
        ErrorResponse {
            success: false,
            message: String::from_str(message),
            error: String::from_str(error),
        }
    }

    /// The request was malformed.
    pub fn bad_request(message: &str) -> (r: ErrorResponse)
        ensures
            !r.success,
            r.message@ == message@,
            r.error@ == "Bad Request"@,
    {
        Self::custom(message, "Bad Request")
    }

    /// The caller is not known.
    pub fn unauthorized(message: &str) -> (r: ErrorResponse)
        ensures
            !r.success,
            r.message@ == message@,
            r.error@ == "Unauthorized"@,
    {
        Self::custom(message, "Unauthorized")
    }

    /// The thing asked for does not exist.
    pub fn not_found(message: &str) -> (r: ErrorResponse)
        ensures
            !r.success,
            r.message@ == message@,
            r.error@ == "Not Found"@,
    {
        Self::custom(message, "Not Found")
    }

    /// The server failed.
    pub fn internal_error(message: &str) -> (r: ErrorResponse)
        ensures
            !r.success,
            r.message@ == message@,
            r.error@ == "Internal Server Error"@,
    {
        Self::custom(message, "Internal Server Error")
    }
}

} // verus!
