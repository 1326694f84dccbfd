//! Result codes shared by the services.

use vstd::prelude::*;

verus! {

/// The outcome of a request, as the platform's API reports it.
#[derive(PartialEq, Eq, Structural, Clone, Copy, Debug)]
pub enum ResultCode {
    Success,
    UnprocessableEntity,
    AuthenticationFailed,
    InvalidPassword,
    InvalidSecret,
    EmptyPassword,
    NewPasswordIsEqualToOld,
    SecretExpired,
    PasswordExpired,
    Locked,
    TooManyRequests,
    TooManyRequestsChangePassword,
    InternalServerError,
    ConnectError,
    DatabaseModifiedError,
}

/// How a queue-processing module answers a failure.
#[derive(PartialEq, Eq, Structural, Clone, Copy, Debug)]
pub enum PrepareError {
    Fatal,
    Recoverable,
}

} // verus!
