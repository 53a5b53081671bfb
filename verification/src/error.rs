//! Error kinds of the authentication and task endpoints, and the HTTP status
//! each one is answered with.

use crate::password::PasswordError;
use vstd::prelude::*;

verus! {

/// Why an authentication request failed.
#[derive(Debug, Clone, Copy, PartialEq, Eq)]
pub enum AuthError {
    /// The request is malformed (bad e-mail, over-long password).
    BadRequest,
    /// An account with that e-mail already exists.
    Conflict,
    /// No valid session, or wrong credentials.
    Unauthorized,
    /// A failure inside the service (clock, token generation, header encoding).
    Internal,
    /// A database operation failed.
    Database,
    /// Hashing or verifying a password failed.
    Password(PasswordError),
}

/// The HTTP status an authentication error is answered with.
pub open spec fn auth_status(e: AuthError) -> u16 {
    match e {
        AuthError::BadRequest => 400,
        AuthError::Conflict => 409,
        AuthError::Unauthorized => 401,
        AuthError::Internal => 500,
        AuthError::Database => 500,
        AuthError::Password(_) => 500,
    }
}

impl AuthError {
    /// The HTTP status code of this error's response.
    pub fn status_code(&self) -> (r: u16)
        ensures
            r == auth_status(*self),
    {
        match self {
            AuthError::BadRequest => 400,
            AuthError::Conflict => 409,
            AuthError::Unauthorized => 401,
            AuthError::Internal => 500,
            AuthError::Database => 500,
            AuthError::Password(_) => 500,
        }
    }

    /// Whether the error is a server-side failure that is logged.
    pub fn is_internal(&self) -> (r: bool)
        ensures
            r == (auth_status(*self) == 500),
    {
        match self {
            AuthError::Internal | AuthError::Database | AuthError::Password(_) => true,
            _ => false,
        }
    }
}

/// How a password failure is reported: an over-long password is the client's
/// fault, every other failure is internal.
pub open spec fn password_failure(e: PasswordError) -> AuthError {
    match e {
        PasswordError::TooLong => AuthError::BadRequest,
        _ => AuthError::Password(e),
    }
}

/// Maps a password failure to the authentication error it is answered with.
pub fn map_password_error(error: PasswordError) -> (r: AuthError)
    ensures
        r == password_failure(error),
{
    match error {
        PasswordError::TooLong => AuthError::BadRequest,
        PasswordError::InvalidHash | PasswordError::Hashing => AuthError::Password(error),
    }
}

/// Why a task request failed.
#[derive(Debug, Clone, Copy, PartialEq, Eq)]
pub enum TaskError {
    /// The request is malformed.
    BadRequest,
    /// A referenced project, parent task or tag is missing or not the user's.
    RelatedResourceNotFound,
    /// A database operation failed.
    Database,
}

/// The HTTP status a task error is answered with.
pub open spec fn task_status(e: TaskError) -> u16 {
    match e {
        TaskError::BadRequest => 400,
        TaskError::RelatedResourceNotFound => 404,
        TaskError::Database => 500,
    }
}

impl TaskError {
    /// The HTTP status code of this error's response.
    pub fn status_code(&self) -> (r: u16)
        ensures
            r == task_status(*self),
    {
        match self {
            TaskError::BadRequest => 400,
            TaskError::RelatedResourceNotFound => 404,
            TaskError::Database => 500,
        }
    }
}

} // verus!
