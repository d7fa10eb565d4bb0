//! The bridge from host statuses to typed results.

use vstd::prelude::*;
use crate::context::Api;

verus! {

/// Error code the host defines for a general failure.
pub const ORT_FAIL: u32 = 1;

/// What a non-null host status carries, once read out through the host's
/// accessors.
#[derive(Debug, Clone, PartialEq, Eq)]
pub struct Status {
    pub code: u32,
    pub message: String,
}

/// The status of a host call: `None` stands for the null status, which the
/// host returns on success.
pub type StatusPtr = Option<Status>;

/// Why an operation of this library failed.
#[derive(Debug, Clone, PartialEq, Eq)]
pub enum Error {
    /// The host returned a non-null status; code and message are the host's.
    NativeStatus { code: u32, message: String },
    /// The host reported success and yet handed back a null handle.
    NullResult,
    /// A flat buffer does not have the number of elements its dimensions ask
    /// for.
    ShapeMismatch,
    /// The operation is not provided.
    Unimplemented,
    /// The host filled a buffer with bytes that are not the text it promised:
    /// not UTF-8, not terminated, or not within the announced bounds.
    InvalidData,
}

/// The result a host status stands for.
pub open spec fn status_outcome(status: StatusPtr) -> Result<(), Error> {
    match status {
        None => Ok(()),
        Some(s) => Err(Error::NativeStatus { code: s.code, message: s.message }),
    }
}

/// Wraps a host status into a result: the null status is success, any other
/// becomes [`Error::NativeStatus`] with the host's code and message.
pub fn status_to_result(status: StatusPtr) -> (r: Result<(), Error>)
    ensures
        r == status_outcome(status),
{
    match status {
        None => Ok(()),
        Some(s) => Err(Error::NativeStatus { code: s.code, message: s.message }),
    }
}

/// As [`status_to_result`]. The function table is taken so that a caller can
/// have the host's message shown; the result does not depend on it.
pub fn status_to_result_dbg(status: StatusPtr, api: &Api) -> (r: Result<(), Error>)
    ensures
        r == status_outcome(status),
{
    status_to_result(status)
}

} // verus!
