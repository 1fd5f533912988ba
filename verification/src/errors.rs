//! Application errors and how each one is answered over HTTP.
use vstd::prelude::*;

verus! {

/// All application-level errors that can be turned into HTTP responses.
///
/// The message carried by each variant is safe to show to the client,
/// except for `Internal`, whose message is replaced by a generic one.
#[derive(Debug)]
pub enum AppError {
    /// 404: the requested resource does not exist.
    NotFound(String),
    /// 400: the request is syntactically or semantically invalid.
    BadRequest(String),
    /// 401: the request lacks a valid session.
    Unauthorized(String),
    /// 409: the request conflicts with the current state of a resource.
    Conflict(String),
    /// 500: an unexpected internal failure occurred.
    Internal(String),
}

/// The message an error carries.
pub open spec fn message_of(e: AppError) -> Seq<char> {
    match e {
        AppError::NotFound(m) => m@,
        AppError::BadRequest(m) => m@,
        AppError::Unauthorized(m) => m@,
        AppError::Conflict(m) => m@,
        AppError::Internal(m) => m@,
    }
}

/// The HTTP status an error is answered with.
pub open spec fn status_of(e: AppError) -> u16 {
    match e {
        AppError::NotFound(_) => 404,
        AppError::BadRequest(_) => 400,
        AppError::Unauthorized(_) => 401,
        AppError::Conflict(_) => 409,
        AppError::Internal(_) => 500,
    }
}

/// The text put in the `error` field of the response body.
pub open spec fn client_message_of(e: AppError) -> Seq<char> {
    match e {
        AppError::Internal(_) => "An internal server error occurred."@,
        _ => message_of(e),
    }
}

/// `true` when `r` failed with `BadRequest(m)` where `m` is `msg`.
pub open spec fn is_bad_request(r: AppError, msg: Seq<char>) -> bool {
    r matches AppError::BadRequest(m) && m@ == msg
}

impl AppError {
    /// The message this error carries (its `Display` text).
    pub fn message(&self) -> (r: &String)
        ensures
            r@ == message_of(*self),
    {
        match self {
            AppError::NotFound(m) => m,
            AppError::BadRequest(m) => m,
            AppError::Unauthorized(m) => m,
            AppError::Conflict(m) => m,
            AppError::Internal(m) => m,
        }
    }

    /// The HTTP status code of the response for this error.
    pub fn status_code(&self) -> (r: u16)
        ensures
            r == status_of(*self),
    {
        match self {
            AppError::NotFound(_) => 404,
            AppError::BadRequest(_) => 400,
            AppError::Unauthorized(_) => 401,
            AppError::Conflict(_) => 409,
            AppError::Internal(_) => 500,
        }
    }

    /// The `error` text of the response body: the message itself, except
    /// that internal failures never surface their details.
    pub fn client_message(&self) -> (r: String)
        ensures
            r@ == client_message_of(*self),
    {
        match self {
            AppError::Internal(_) => {
                let s = "An internal server error occurred.";
                String::from_str(s)
            },
            _ => self.message().clone(),
        }
    }
}

/// An internal failure never reaches the client: whatever its message, the
/// response body carries only the generic text, with status 500.
pub proof fn lemma_internal_details_hidden(e: AppError)
    requires
        e is Internal,
    ensures
        client_message_of(e) == "An internal server error occurred."@,
        status_of(e) == 500,
{
}

} // verus!
