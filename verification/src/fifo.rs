//! Classifying FIFO-creation failures.
//!
//! The `mkfifo` call itself is a system call made by the binary; what its
//! result means — which errno is fatal, which is success in disguise — is
//! decided here.

use vstd::prelude::*;

verus! {

/// `errno` for a permission denial, as POSIX fixes it.
pub const ERRNO_ACCES: i32 = 13;

/// `errno` for a path that already exists, as POSIX fixes it.
pub const ERRNO_EXIST: i32 = 17;

/// `errno` for a missing path component, as POSIX fixes it.
pub const ERRNO_NOENT: i32 = 2;

/// Why a FIFO could not be created.
#[derive(Clone, Copy, Debug, PartialEq, Eq)]
pub enum FifoCreateError {
    /// The caller may not create the FIFO there; fatal for that writer.
    PermissionDenied,
    /// A FIFO (or something else) already sits at the path; the caller
    /// treats this as success.
    AlreadyExists,
    /// A component of the path is missing.
    NotFound,
    /// Any other failure.
    Other,
}

/// The classification of a `mkfifo` errno.
pub open spec fn spec_classify_errno(err: i32) -> FifoCreateError {
    if err == ERRNO_ACCES {
        FifoCreateError::PermissionDenied
    } else if err == ERRNO_EXIST {
        FifoCreateError::AlreadyExists
    } else if err == ERRNO_NOENT {
        FifoCreateError::NotFound
    } else {
        FifoCreateError::Other
    }
}

/// What a `mkfifo` return means: success on a zero return, otherwise the
/// classification of the reported errno.
pub fn mkfifo_result(ret: i32, err: i32) -> (r: Result<(), FifoCreateError>)
    ensures
        ret == 0 ==> r is Ok,
        ret != 0 ==> r == Err::<(), FifoCreateError>(spec_classify_errno(err)),
{
    if ret == 0 {
        return Ok(());
    }
    if err == ERRNO_ACCES {
        Err(FifoCreateError::PermissionDenied)
    } else if err == ERRNO_EXIST {
        Err(FifoCreateError::AlreadyExists)
    } else if err == ERRNO_NOENT {
        Err(FifoCreateError::NotFound)
    } else {
        Err(FifoCreateError::Other)
    }
}

} // verus!
