use vstd::prelude::*;

use crate::error::{bytes_result_view, OsError};

verus! {

/// What the Darwin dynamic-loader strategy hands its caller, as a function of
/// the one loader call's observed outcome. The call is given `buf`, sized to
/// the path-length ceiling, and an in/out length word initially holding that
/// ceiling; `ret` is the call's return value, `written` the length word's
/// value after the call, and `last_error` the error code the OS reported
/// last.
///
/// Zero is the only success. The loader does not distinguish an undersized
/// buffer from any other failure, so every non-zero return reports the OS's
/// last error directly — unlike the Windows strategy, no growth-and-retry is
/// attempted, a documented limitation. On success the length word has been
/// updated in place to the exact path length and the result is the buffer
/// cut to that length.
pub open spec fn dyld_read_result(
    buf: Seq<u8>,
    ret: int,
    written: int,
    last_error: i32,
) -> Result<Seq<u8>, OsError> {
    if ret != 0 {
        Err(OsError { code: last_error })
    } else {
        Ok(buf.subrange(0, written))
    }
}

/// Interpret the outcome of the dynamic-loader query. The platform layer
/// makes the call and passes the return value, the updated length word and
/// the last error code straight through; on success the loader never reports
/// a path longer than the buffer it was given.
pub fn finish_dyld_read(buf: Vec<u8>, ret: i32, written: usize, last_error: i32) -> (r: Result<
    Vec<u8>,
    OsError,
>)
    requires
        ret != 0 || written <= buf@.len(),
    ensures
        bytes_result_view(r) == dyld_read_result(buf@, ret as int, written as int, last_error),
{
    if ret != 0 {
        Err(OsError { code: last_error })
    } else {
        let mut path = buf;
        path.truncate(written);
        Ok(path)
    }
}

} // verus!
