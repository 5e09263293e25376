use vstd::prelude::*;

use crate::error::{bytes_result_view, OsError};

verus! {

/// What the illumos/Solaris kernel-pointer strategy hands its caller. The
/// kernel accessor returns a pointer to a kernel-owned, null-terminated
/// string — never memory of the caller's. The platform layer turns that
/// pointer into `copied`: `None` for a null pointer, otherwise the bytes up
/// to the terminator copied into caller-owned memory. `last_error` is the
/// error code the OS reported last.
///
/// A null pointer is a failure carrying the last error, never an empty-path
/// success; anything else is the copied path, whole. No buffer sizing is
/// involved: the kernel owns the string and determines its length.
pub open spec fn kernel_string_result(copied: Option<Seq<u8>>, last_error: i32) -> Result<
    Seq<u8>,
    OsError,
> {
    match copied {
        None => Err(OsError { code: last_error }),
        Some(s) => Ok(s),
    }
}

/// The mathematical reading of the copied bytes, if any.
pub open spec fn copied_view(copied: Option<Vec<u8>>) -> Option<Seq<u8>> {
    match copied {
        None => None,
        Some(v) => Some(v@),
    }
}

/// Interpret the outcome of the kernel-pointer accessor.
pub fn finish_kernel_string(copied: Option<Vec<u8>>, last_error: i32) -> (r: Result<
    Vec<u8>,
    OsError,
>)
    ensures
        bytes_result_view(r) == kernel_string_result(copied_view(copied), last_error),
{
    match copied {
        None => Err(OsError { code: last_error }),
        Some(path) => Ok(path),
    }
}

} // verus!
