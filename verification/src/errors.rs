//! The error taxonomy, the protocol's status codes, and the lossy flattening
//! between them at the entry point.

use vstd::prelude::*;
use crate::types::Int;

verus! {

/// Everything that can go wrong inside the library. The host never sees this
/// type: `to_status` flattens it to a protocol status code at the entry
/// point, so all diagnostic detail ends at that boundary.
#[derive(Clone, Copy, PartialEq, Eq, Structural, Debug)]
pub enum Error {
    /// A required or requested suite is missing or unavailable.
    InvalidSuite,
    /// An opaque handle was not recognized or has the wrong kind.
    InvalidHandle,
    /// The action name is not one this library recognizes.
    InvalidAction,
    /// An operation needed the host descriptor before `SetHost` supplied it.
    HostNotReady,
    /// A suite call was attempted before a successful load built the table.
    SuiteNotInitialized,
    /// A name or value failed UTF-8 or embedded-null validation.
    StringConversion,
    /// A deliberately unsupported optional capability.
    Unimplemented,
    /// A failure status from the host that maps to nothing more precise.
    UnknownError,
}

// Status codes of the host protocol, as its core header fixes them.
pub const STATUS_OK: Int = 0;
pub const STATUS_FAILED: Int = 1;
pub const STATUS_ERR_FATAL: Int = 2;
pub const STATUS_ERR_UNKNOWN: Int = 3;
pub const STATUS_ERR_MISSING_HOST_FEATURE: Int = 4;
pub const STATUS_ERR_UNSUPPORTED: Int = 5;
pub const STATUS_ERR_EXISTS: Int = 6;
pub const STATUS_ERR_FORMAT: Int = 7;
pub const STATUS_ERR_MEMORY: Int = 8;
pub const STATUS_ERR_BAD_HANDLE: Int = 9;
pub const STATUS_ERR_BAD_INDEX: Int = 10;
pub const STATUS_ERR_VALUE: Int = 11;
pub const STATUS_REPLY_YES: Int = 12;
pub const STATUS_REPLY_NO: Int = 13;
pub const STATUS_REPLY_DEFAULT: Int = 14;

/// The status code that each error kind degrades to at the entry point.
/// An unrecognized action maps to the protocol's "default reply", which tells
/// the host to treat the action as unsupported; missing suites map to the
/// missing-host-feature code; bad handles and bad values keep their dedicated
/// codes; the rest collapse to the generic failure codes.
pub open spec fn spec_status_of_error(e: Error) -> Int {
    match e {
        Error::InvalidSuite => STATUS_ERR_MISSING_HOST_FEATURE,
        Error::InvalidHandle => STATUS_ERR_BAD_HANDLE,
        Error::InvalidAction => STATUS_REPLY_DEFAULT,
        Error::HostNotReady => STATUS_FAILED,
        Error::SuiteNotInitialized => STATUS_FAILED,
        Error::StringConversion => STATUS_ERR_VALUE,
        Error::Unimplemented => STATUS_ERR_UNSUPPORTED,
        Error::UnknownError => STATUS_ERR_UNKNOWN,
    }
}

pub fn status_of_error(e: Error) -> (r: Int)
    ensures
        r == spec_status_of_error(e),
{
    match e {
        Error::InvalidSuite => STATUS_ERR_MISSING_HOST_FEATURE,
        Error::InvalidHandle => STATUS_ERR_BAD_HANDLE,
        Error::InvalidAction => STATUS_REPLY_DEFAULT,
        Error::HostNotReady => STATUS_FAILED,
        Error::SuiteNotInitialized => STATUS_FAILED,
        Error::StringConversion => STATUS_ERR_VALUE,
        Error::Unimplemented => STATUS_ERR_UNSUPPORTED,
        Error::UnknownError => STATUS_ERR_UNKNOWN,
    }
}

/// What a whole dispatch reports to the host: the status it computed when it
/// succeeded, the error's status code when it failed.
pub open spec fn spec_to_status(r: Result<Int, Error>) -> Int {
    match r {
        Ok(status) => status,
        Err(e) => spec_status_of_error(e),
    }
}

pub fn to_status(r: Result<Int, Error>) -> (status: Int)
    ensures
        status == spec_to_status(r),
{
    match r {
        Ok(status) => status,
        Err(e) => status_of_error(e),
    }
}

/// How the library reads a status code a suite call handed back: zero is
/// success, the bad-handle code keeps its meaning, and any other failure is
/// reported as unknown, which loses no distinction the caller acts on.
pub open spec fn spec_result_of_status(status: Int) -> Result<(), Error> {
    if status == STATUS_OK {
        Ok(())
    } else if status == STATUS_ERR_BAD_HANDLE {
        Err(Error::InvalidHandle)
    } else {
        Err(Error::UnknownError)
    }
}

pub fn result_of_status(status: Int) -> (r: Result<(), Error>)
    ensures
        r == spec_result_of_status(status),
{
    if status == STATUS_OK {
        Ok(())
    } else if status == STATUS_ERR_BAD_HANDLE {
        Err(Error::InvalidHandle)
    } else {
        Err(Error::UnknownError)
    }
}

} // verus!
