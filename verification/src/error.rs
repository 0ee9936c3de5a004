//! The error taxonomy of the library, and the mapping from kernel error
//! numbers onto it.
//!
//! Every kernel-call failure is surfaced to the caller as one of these kinds.
//! The mapping mirrors how the standard library classifies raw OS errors, so
//! callers can branch on the kind without caring which system call failed.

use vstd::prelude::*;

verus! {

/// `EPERM`: operation not permitted.
pub const EPERM: i32 = 1;

/// `ENOENT`: no such file or directory.
pub const ENOENT: i32 = 2;

/// `EINTR`: interrupted system call.
pub const EINTR: i32 = 4;

/// `EAGAIN`: resource temporarily unavailable.
pub const EAGAIN: i32 = 11;

/// `EACCES`: permission denied.
pub const EACCES: i32 = 13;

/// `EEXIST`: file exists.
pub const EEXIST: i32 = 17;

/// `EINVAL`: invalid argument.
pub const EINVAL: i32 = 22;

/// `ETIMEDOUT`: connection timed out.
pub const ETIMEDOUT: i32 = 110;

/// The kind of failure of a queue operation.
///
/// The kinds a caller is expected to branch on each have their own variant;
/// everything else the kernel can report (resource exhaustion, an oversized
/// message, a name that is too long, a disabled kernel feature) is folded
/// into [`Error::Other`].
///
/// [`Error::Interrupted`] exists only as the image of `EINTR` under
/// [`Error::from_errno`]: the send and receive families retry interrupted
/// calls internally and promise in their contracts never to return it.
#[derive(Clone, Copy, Debug, PartialEq, Eq, Structural)]
pub enum Error {
    /// The queue does not exist, or the name is degenerate.
    NotFound,
    /// Exclusive creation was requested, but the queue already exists.
    AlreadyExists,
    /// The caller may not open the queue in this mode, or the name has
    /// extra path segments.
    PermissionDenied,
    /// A malformed name, a malformed capacity pair, an out-of-range
    /// priority, or an unrepresentable time value.
    InvalidInput,
    /// A non-blocking operation could not proceed right now.
    WouldBlock,
    /// A time-bounded operation reached its deadline.
    TimedOut,
    /// The call was interrupted by a signal; retried internally, never
    /// returned by the send and receive families.
    Interrupted,
    /// Everything else the kernel can report.
    Other,
}

/// The error kind a raw kernel error number denotes.
pub open spec fn errno_kind(e: i32) -> Error {
    if e == ENOENT {
        Error::NotFound
    } else if e == EEXIST {
        Error::AlreadyExists
    } else if e == EACCES || e == EPERM {
        Error::PermissionDenied
    } else if e == EINVAL {
        Error::InvalidInput
    } else if e == EAGAIN {
        Error::WouldBlock
    } else if e == ETIMEDOUT {
        Error::TimedOut
    } else if e == EINTR {
        Error::Interrupted
    } else {
        Error::Other
    }
}

impl Error {
    /// Classify a raw kernel error number.
    pub fn from_errno(e: i32) -> (r: Error)
        ensures
            r == errno_kind(e),
    {
        if e == ENOENT {
            Error::NotFound
        } else if e == EEXIST {
            Error::AlreadyExists
        } else if e == EACCES || e == EPERM {
            Error::PermissionDenied
        } else if e == EINVAL {
            Error::InvalidInput
        } else if e == EAGAIN {
            Error::WouldBlock
        } else if e == ETIMEDOUT {
            Error::TimedOut
        } else if e == EINTR {
            Error::Interrupted
        } else {
            Error::Other
        }
    }
}

} // verus!
