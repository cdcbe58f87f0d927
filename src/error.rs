//! Error kinds of every stage, and the storage operations they name.
use vstd::prelude::*;

verus! {

/// The storage operations.
#[derive(Debug, Clone, Copy, PartialEq, Eq, Structural)]
pub enum Operation {
    ListObjects,
    GetMetadata,
    GetObject,
    UploadObject,
    DeleteObject,
}

/// What went wrong, and at which stage.
#[derive(Debug, Clone, Copy, PartialEq, Eq, Structural)]
pub enum StorageError {
    /// The credential document is not well-formed or lacks a required field.
    Config,
    /// The private key could not be parsed, or building the assertion failed.
    Crypto,
    /// The token endpoint answered with a status outside 2xx.
    Auth { status: u16 },
    /// A transport failure at either round trip.
    Network,
    /// The storage API answered with a status outside 2xx.
    HttpStatus { operation: Operation, status: u16 },
    /// A response body did not match the expected schema.
    Decode,
    /// Reading or writing a local file failed.
    FileSystem,
}

/// A 2xx status.
pub open spec fn is_success(status: u16) -> bool {
    200 <= status <= 299
}

/// Whether an HTTP status is a success (2xx).
pub fn status_is_success(status: u16) -> (r: bool)
    ensures
        r == is_success(status),
{
    200 <= status && status <= 299
}

impl Operation {
    /// Validates the storage API's status for this operation: a 2xx status
    /// passes, any other is `HttpStatus` carrying the operation and status.
    pub fn check_status(self, status: u16) -> (r: Result<(), StorageError>)
        ensures
            is_success(status) <==> r is Ok,
            !is_success(status) ==> r == Err::<(), StorageError>(
                StorageError::HttpStatus { operation: self, status },
            ),
    {
        if status_is_success(status) {
            Ok(())
        } else {
            Err(StorageError::HttpStatus { operation: self, status })
        }
    }
}

/// The outcome of the token endpoint's status: a 2xx passes, any other is
/// `Auth` with that status.
pub fn check_token_status(status: u16) -> (r: Result<(), StorageError>)
    ensures
        is_success(status) <==> r is Ok,
        !is_success(status) ==> r == Err::<(), StorageError>(StorageError::Auth { status }),
{
    if status_is_success(status) {
        Ok(())
    } else {
        Err(StorageError::Auth { status })
    }
}

} // verus!
