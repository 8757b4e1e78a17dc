//! The typed failure that every component returns: an HTTP status code and a
//! message for the response body.

use vstd::prelude::*;

verus! {

/// Status of a request without a valid session, or with credentials that do
/// not check out.
pub const UNAUTHORIZED: u16 = 401;

/// Status of a request for a user or a post that does not exist.
pub const NOT_FOUND: u16 = 404;

/// Status of a request that collides with a row already stored.
pub const CONFLICT: u16 = 409;

/// Status of a failure of the machinery underneath.
pub const INTERNAL_ERROR: u16 = 500;

/// A failure, as the request boundary reports it.
#[derive(Debug, PartialEq, Eq)]
pub struct ApiError {
    pub status_code: u16,
    pub message: String,
}

/// What an [`ApiError`] is, mathematically.
pub ghost struct ApiErrorView {
    pub status_code: u16,
    pub message: Seq<char>,
}

impl View for ApiError {
    type V = ApiErrorView;

    open spec fn view(&self) -> ApiErrorView {
        ApiErrorView { status_code: self.status_code, message: self.message@ }
    }
}

/// The failure of a request that carries no authenticated session.
pub open spec fn unauthorized() -> ApiErrorView {
    ApiErrorView { status_code: UNAUTHORIZED, message: "Unauthorized"@ }
}

/// The one failure of every sign-in that does not succeed, whatever the cause.
pub open spec fn credentials_not_valid() -> ApiErrorView {
    ApiErrorView { status_code: UNAUTHORIZED, message: "Credentials not valid"@ }
}

/// The failure of a request for a post that is not there.
pub open spec fn post_not_found() -> ApiErrorView {
    ApiErrorView { status_code: NOT_FOUND, message: "Post not found"@ }
}

/// The failure of a request for a user that is not there.
pub open spec fn user_not_found() -> ApiErrorView {
    ApiErrorView { status_code: NOT_FOUND, message: "User not found"@ }
}

/// The failure of a registration under an email that is taken.
pub open spec fn email_taken() -> ApiErrorView {
    ApiErrorView { status_code: CONFLICT, message: "Email already registered"@ }
}

/// The failure of an insertion under an identifier that is taken.
pub open spec fn id_taken() -> ApiErrorView {
    ApiErrorView { status_code: CONFLICT, message: "Identifier already in use"@ }
}

/// The failure of the password hasher.
pub open spec fn hashing_failed() -> ApiErrorView {
    ApiErrorView { status_code: INTERNAL_ERROR, message: "Failed to hash password"@ }
}

/// The failure of the password verifier on a stored credential it cannot read.
pub open spec fn verification_failed() -> ApiErrorView {
    ApiErrorView { status_code: INTERNAL_ERROR, message: "Failed to verify password"@ }
}

impl ApiError {
    /// A failure with the given status code and message.
    pub fn new(status_code: u16, message: String) -> (e: ApiError)
        ensures
            e.status_code == status_code,
            e.message == message,
    {
        ApiError { status_code, message }
    }

    /// See [`unauthorized`].
    pub fn unauthorized() -> (e: ApiError)
        ensures
            e@ == unauthorized(),
    {
        ApiError::new(UNAUTHORIZED, "Unauthorized".to_owned())
    }

    /// See [`credentials_not_valid`].
    pub fn credentials_not_valid() -> (e: ApiError)
        ensures
            e@ == credentials_not_valid(),
    {
        ApiError::new(UNAUTHORIZED, "Credentials not valid".to_owned())
    }

    /// See [`post_not_found`].
    pub fn post_not_found() -> (e: ApiError)
        ensures
            e@ == post_not_found(),
    {
        ApiError::new(NOT_FOUND, "Post not found".to_owned())
    }

    /// See [`user_not_found`].
    pub fn user_not_found() -> (e: ApiError)
        ensures
            e@ == user_not_found(),
    {
        ApiError::new(NOT_FOUND, "User not found".to_owned())
    }

    /// See [`email_taken`].
    pub fn email_taken() -> (e: ApiError)
        ensures
            e@ == email_taken(),
    {
        ApiError::new(CONFLICT, "Email already registered".to_owned())
    }

    /// See [`id_taken`].
    pub fn id_taken() -> (e: ApiError)
        ensures
            e@ == id_taken(),
    {
        ApiError::new(CONFLICT, "Identifier already in use".to_owned())
    }

    /// See [`hashing_failed`].
    pub fn hashing_failed() -> (e: ApiError)
        ensures
            e@ == hashing_failed(),
    {
        ApiError::new(INTERNAL_ERROR, "Failed to hash password".to_owned())
    }

    /// See [`verification_failed`].
    pub fn verification_failed() -> (e: ApiError)
        ensures
            e@ == verification_failed(),
    {
        ApiError::new(INTERNAL_ERROR, "Failed to verify password".to_owned())
    }
}

} // verus!
