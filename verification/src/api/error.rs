use vstd::prelude::*;

verus! {

use crate::crypt;
use crate::crypt::passwd::PasswdError;
use crate::util::error::RedisError;

/// Everything an endpoint can fail with. Token-validation failures are
/// typed, local results — never panics — and are translated at the request
/// boundary into a uniform client error that echoes no internal detail.
#[derive(Clone, Debug)]
pub enum Error {
    // AUTH
    /// No authentication token was provided in the request header.
    NoAuthToken,
    /// A token failed to parse or validate.
    TokenError(crypt::error::Error),
    /// The context is missing from the request extension; resolution never
    /// ran.
    CtxNotInRequestExtensions,
    /// A refresh token was expected and the presented credential cannot
    /// redeem: malformed, an access token, never issued, already consumed,
    /// or lapsed. The cases are deliberately not distinguished.
    InvalidRefreshToken,
    // DB
    /// The named user does not exist.
    UserNotFound,
    /// The named song does not exist.
    SongNotFound,
    /// The insert query failed.
    DbInsertFailed,
    /// The select query failed.
    DbSelectFailed,
    /// The update query failed.
    DbUpdateFailed,
    /// The delete query failed.
    DbDeleteFailed,
    // STORE
    /// The refresh-token store could not be reached; the caller may retry.
    StoreUnavailable(RedisError),
    // API
    /// An invalid REST parameter is in the URL.
    InvalidRestParameter,
    /// The request payload is invalid.
    InvalidPayload(String),
    /// The requested file was not found.
    FileNotFound,
    // LOGIN
    /// The password does not match.
    IncorrectPasswd,
    // SIGNUP
    /// A user with that name already exists.
    UserAlreadyExists,
    // INTERNAL
    /// Password hashing or verification failed.
    PasswdCryptError(PasswdError),
    /// A media-download subprocess failed.
    YtDlpError(String),
    /// An IO operation failed.
    IOError,
}

/// The error identifiers a client may see; everything else is hidden
/// behind `SERVICE_ERROR`.
#[derive(Clone, Copy, Debug, PartialEq, Eq, Structural)]
#[allow(non_camel_case_types)]
pub enum ClientError {
    LOGIN_FAIL,
    NO_AUTH,
    INVALID_BODY,
    SERVICE_ERROR,
    RESOURCE_NOT_FOUND,
    USERNAME_ALREADY_USED,
}

impl ClientError {
    /// The identifier sent to the client.
    pub fn as_str(&self) -> (r: &'static str)
        ensures
            r@ == match *self {
                ClientError::LOGIN_FAIL => "LOGIN_FAIL"@,
                ClientError::NO_AUTH => "NO_AUTH"@,
                ClientError::INVALID_BODY => "INVALID_BODY"@,
                ClientError::SERVICE_ERROR => "SERVICE_ERROR"@,
                ClientError::RESOURCE_NOT_FOUND => "RESOURCE_NOT_FOUND"@,
                ClientError::USERNAME_ALREADY_USED => "USERNAME_ALREADY_USED"@,
            },
    {
        match self {
            ClientError::LOGIN_FAIL => "LOGIN_FAIL",
            ClientError::NO_AUTH => "NO_AUTH",
            ClientError::INVALID_BODY => "INVALID_BODY",
            ClientError::SERVICE_ERROR => "SERVICE_ERROR",
            ClientError::RESOURCE_NOT_FOUND => "RESOURCE_NOT_FOUND",
            ClientError::USERNAME_ALREADY_USED => "USERNAME_ALREADY_USED",
        }
    }
}

/// What the server error maps to at the boundary, as a status code and a
/// client error identifier.
pub open spec fn spec_client_error(e: Error) -> (u16, ClientError) {
    match e {
        Error::IncorrectPasswd | Error::UserNotFound => (401, ClientError::LOGIN_FAIL),
        Error::SongNotFound | Error::FileNotFound => (404, ClientError::RESOURCE_NOT_FOUND),
        Error::InvalidPayload(_) | Error::InvalidRefreshToken => (400, ClientError::INVALID_BODY),
        Error::NoAuthToken | Error::TokenError(_) | Error::CtxNotInRequestExtensions => (
            401,
            ClientError::NO_AUTH,
        ),
        Error::UserAlreadyExists => (409, ClientError::USERNAME_ALREADY_USED),
        _ => (500, ClientError::SERVICE_ERROR),
    }
}

impl Error {
    /// Converts a server error into the status code and client error the
    /// response carries, so that no sensitive detail reaches the client.
    pub fn parse_server_error_to_client(&self) -> (r: (u16, ClientError))
        ensures
            r == spec_client_error(*self),
    {
        match self {
            Error::IncorrectPasswd | Error::UserNotFound => (401, ClientError::LOGIN_FAIL),
            Error::SongNotFound | Error::FileNotFound => (404, ClientError::RESOURCE_NOT_FOUND),
            Error::InvalidPayload(_) | Error::InvalidRefreshToken => (
                400,
                ClientError::INVALID_BODY,
            ),
            Error::NoAuthToken | Error::TokenError(_) | Error::CtxNotInRequestExtensions => (
                401,
                ClientError::NO_AUTH,
            ),
            Error::UserAlreadyExists => (409, ClientError::USERNAME_ALREADY_USED),
            _ => (500, ClientError::SERVICE_ERROR),
        }
    }
}

} // verus!
