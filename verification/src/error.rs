//! Translation of the engine's signed status codes into a closed error
//! taxonomy.
//!
//! The engine reports results as signed integers: negative values are errors
//! from a fixed, documented list, and non-negative values are success (often
//! carrying a byte count or cursor position). The translators here are total
//! over the status domain; a code outside the documented error list is
//! treated as success, exactly as the engine's own callers treat it.

use vstd::prelude::*;

verus! {

/// Engine status code: error during device operation.
pub const LFS_ERR_IO: i32 = -5;

/// Engine status code: corrupted on-medium metadata.
pub const LFS_ERR_CORRUPT: i32 = -52;

/// Engine status code: no directory entry at the given path.
pub const LFS_ERR_NOENT: i32 = -2;

/// Engine status code: entry already exists.
pub const LFS_ERR_EXIST: i32 = -17;

/// Engine status code: entry is not a directory.
pub const LFS_ERR_NOTDIR: i32 = -20;

/// Engine status code: entry is a directory.
pub const LFS_ERR_ISDIR: i32 = -21;

/// Engine status code: directory is not empty.
pub const LFS_ERR_NOTEMPTY: i32 = -39;

/// Engine status code: bad file number.
pub const LFS_ERR_BADF: i32 = -9;

/// Engine status code: file too large.
pub const LFS_ERR_FBIG: i32 = -27;

/// Engine status code: invalid parameter.
pub const LFS_ERR_INVAL: i32 = -22;

/// Engine status code: no space left on the medium.
pub const LFS_ERR_NOSPC: i32 = -28;

/// Engine status code: no more memory available.
pub const LFS_ERR_NOMEM: i32 = -12;

/// The closed error taxonomy surfaced to callers of the adapter.
#[derive(Debug, Clone, Copy, PartialEq, Eq, Structural)]
pub enum FsError {
    Io,
    Corrupt,
    Noent,
    Exist,
    NotDir,
    IsDir,
    NotEmpty,
    Badf,
    FBig,
    Inval,
    Nospc,
    Nomem,
}

/// The error kind a given engine status code denotes, or `None` where the
/// code does not denote an error.
pub open spec fn spec_error_of_code(code: i32) -> Option<FsError> {
    if code == LFS_ERR_IO {
        Some(FsError::Io)
    } else if code == LFS_ERR_CORRUPT {
        Some(FsError::Corrupt)
    } else if code == LFS_ERR_NOENT {
        Some(FsError::Noent)
    } else if code == LFS_ERR_EXIST {
        Some(FsError::Exist)
    } else if code == LFS_ERR_NOTDIR {
        Some(FsError::NotDir)
    } else if code == LFS_ERR_ISDIR {
        Some(FsError::IsDir)
    } else if code == LFS_ERR_NOTEMPTY {
        Some(FsError::NotEmpty)
    } else if code == LFS_ERR_BADF {
        Some(FsError::Badf)
    } else if code == LFS_ERR_FBIG {
        Some(FsError::FBig)
    } else if code == LFS_ERR_INVAL {
        Some(FsError::Inval)
    } else if code == LFS_ERR_NOSPC {
        Some(FsError::Nospc)
    } else if code == LFS_ERR_NOMEM {
        Some(FsError::Nomem)
    } else {
        None
    }
}

/// Collapse an engine status code to success or one error kind.
///
/// Returns `Err` exactly on the twelve documented error codes, with the kind
/// that `spec_error_of_code` gives, and `Ok(())` on every other code.
pub fn lfs_to_fserror(code: i32) -> (r: Result<(), FsError>)
    ensures
        match spec_error_of_code(code) {
            Some(e) => r == Result::<(), FsError>::Err(e),
            None => r == Result::<(), FsError>::Ok(()),
        },
{
    match code {
        LFS_ERR_IO => Err(FsError::Io),
        LFS_ERR_CORRUPT => Err(FsError::Corrupt),
        LFS_ERR_NOENT => Err(FsError::Noent),
        LFS_ERR_EXIST => Err(FsError::Exist),
        LFS_ERR_NOTDIR => Err(FsError::NotDir),
        LFS_ERR_ISDIR => Err(FsError::IsDir),
        LFS_ERR_NOTEMPTY => Err(FsError::NotEmpty),
        LFS_ERR_BADF => Err(FsError::Badf),
        LFS_ERR_FBIG => Err(FsError::FBig),
        LFS_ERR_INVAL => Err(FsError::Inval),
        LFS_ERR_NOSPC => Err(FsError::Nospc),
        LFS_ERR_NOMEM => Err(FsError::Nomem),
        _ => Ok(()),
    }
}

/// Translate an engine status code, preserving a non-negative numeric result.
///
/// Returns `Err` exactly on the twelve documented error codes; every
/// non-negative code comes back unchanged as `Ok`, for operations whose
/// success value is a byte count or a cursor position.
pub fn lfs_to_usize_fserror(code: i32) -> (r: Result<usize, FsError>)
    ensures
        match spec_error_of_code(code) {
            Some(e) => r == Result::<usize, FsError>::Err(e),
            None => r is Ok,
        },
        spec_error_of_code(code) is None && code >= 0 ==> r == Result::<usize, FsError>::Ok(
            code as usize,
        ),
{
    match code {
        LFS_ERR_IO => Err(FsError::Io),
        LFS_ERR_CORRUPT => Err(FsError::Corrupt),
        LFS_ERR_NOENT => Err(FsError::Noent),
        LFS_ERR_EXIST => Err(FsError::Exist),
        LFS_ERR_NOTDIR => Err(FsError::NotDir),
        LFS_ERR_ISDIR => Err(FsError::IsDir),
        LFS_ERR_NOTEMPTY => Err(FsError::NotEmpty),
        LFS_ERR_BADF => Err(FsError::Badf),
        LFS_ERR_FBIG => Err(FsError::FBig),
        LFS_ERR_INVAL => Err(FsError::Inval),
        LFS_ERR_NOSPC => Err(FsError::Nospc),
        LFS_ERR_NOMEM => Err(FsError::Nomem),
        val => Ok(#[verifier::truncate] (val as usize)),
    }
}

} // verus!
