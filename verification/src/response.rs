//! What a dispatch and its response amount to.

use crate::errors::{ApiErrors, RequestError};
use vstd::prelude::*;

verus! {

/// The one status that counts as success.
pub const STATUS_OK: u16 = 200;

/// A response after the look at its status.
#[derive(Clone, Debug, PartialEq, Eq)]
pub enum Checked<R> {
    /// The status is `STATUS_OK`: the response goes to the caller as it is.
    Success(R),
    /// Any other status: the body of this response is to be read as the
    /// list of errors.
    Failure(R),
}

/// A response sorted by its status: success for `STATUS_OK`, failure for
/// every other number.
pub open spec fn sorted<R>(response: R, status: u16) -> Checked<R> {
    if status == STATUS_OK {
        Checked::Success(response)
    } else {
        Checked::Failure(response)
    }
}

/// Sorts a response by its status, and by nothing else: `STATUS_OK` is
/// success, every other status a failure, whatever the number.
///
/// The response itself is handed through untouched either way.
pub fn check_errors<R>(response: R, status: u16) -> (checked: Checked<R>)
    ensures
        checked == sorted(response, status),
{
    if status == STATUS_OK {
        Checked::Success(response)
    } else {
        Checked::Failure(response)
    }
}

/// What one dispatch came to. `sent` is the response with its status, or
/// the transport's account of why none arrived.
///
/// A failed dispatch ends the request at once as a transport error with that
/// account: nothing is tried again. A response is sorted as `check_errors`
/// sorts it.
pub fn check_dispatch<R>(sent: Result<(R, u16), String>) -> (next: Result<Checked<R>, RequestError>)
    ensures
        next == match sent {
            Ok(arrived) => Ok::<Checked<R>, RequestError>(sorted(arrived.0, arrived.1)),
            Err(reason) => Err(RequestError::Transport(reason)),
        },
{
    match sent {
        Ok((response, status)) => Ok(check_errors(response, status)),
        Err(reason) => Err(RequestError::Transport(reason)),
    }
}

/// The failure that a response with a failure status ends in, from what
/// became of its body: the errors it listed, or the reason it could not be
/// read as such a list. A body that could not be read is never passed off
/// as a list of errors.
pub fn error_from_body(decoded: Result<ApiErrors, String>) -> (error: RequestError)
    ensures
        error == match decoded {
            Ok(errors) => RequestError::Api(errors),
            Err(reason) => RequestError::Deserialization(reason),
        },
{
    match decoded {
        Ok(errors) => RequestError::Api(errors),
        Err(reason) => RequestError::Deserialization(reason),
    }
}

} // verus!
