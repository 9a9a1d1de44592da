//! Status codes of the storage library and the errors they become.

use vstd::prelude::*;

verus! {

/// Status with which the storage library reports success.
pub const NC_NOERR: i32 = 0;

/// Status of a group lookup that found no group of that name.
pub const NC_ENOGRP: i32 = -125;

/// Status of a dimension lookup that found no dimension of that name.
pub const NC_EBADDIM: i32 = -46;

/// Status of a variable lookup that found no variable of that name.
pub const NC_ENOTVAR: i32 = -49;

/// Status of an attribute lookup that found no attribute of that name.
pub const NC_ENOTATT: i32 = -43;

/// What can go wrong between a caller and the storage library.
#[derive(Debug, Clone, Copy, PartialEq, Eq, Structural)]
pub enum Error {
    /// Opening found no usable dataset: no file, no recognised format, or any
    /// other refusal by the storage library.
    OpenFailed,
    /// The storage library refused to create the dataset.
    CreateFailed,
    /// Any other call ended with this nonzero status.
    UnderlyingLibraryError(i32),
    /// Text handed in cannot be passed to the storage library, or text handed
    /// out by it is not valid UTF-8.
    EncodingError,
    /// An earlier panic left the process-wide lock unusable.
    LockPoisoned,
}

/// The meaning of a bare status code: success for zero, else the error that
/// carries the status.
pub open spec fn status_result(status: i32) -> Result<(), Error> {
    if status == NC_NOERR {
        Ok(())
    } else {
        Err(Error::UnderlyingLibraryError(status))
    }
}

/// Turns a status code into a result: `Ok` for success, else the error that
/// carries the status.
pub fn checked(status: i32) -> (r: Result<(), Error>)
    ensures
        r == status_result(status),
{
    if status == NC_NOERR {
        Ok(())
    } else {
        Err(Error::UnderlyingLibraryError(status))
    }
}

impl Error {
    /// The status that the storage library gave, where the error carries one.
    pub open spec fn spec_status(self) -> Option<i32> {
        match self {
            Error::UnderlyingLibraryError(status) => Some(status),
            _ => None,
        }
    }

    /// The status that the storage library gave, where the error carries one.
    #[verifier::when_used_as_spec(spec_status)]
    pub fn status(self) -> (r: Option<i32>)
        ensures
            r == self.spec_status(),
    {
        match self {
            Error::UnderlyingLibraryError(status) => Some(status),
            _ => None,
        }
    }

    /// Whether the error leaves the process in a state that no caller can
    /// recover from.
    pub open spec fn spec_is_fatal(self) -> bool {
        self == Error::LockPoisoned
    }

    /// Whether the error leaves the process in a state that no caller can
    /// recover from: only a poisoned lock does.
    #[verifier::when_used_as_spec(spec_is_fatal)]
    pub fn is_fatal(self) -> (r: bool)
        ensures
            r == self.spec_is_fatal(),
    {
        match self {
            Error::LockPoisoned => true,
            _ => false,
        }
    }
}

} // verus!
