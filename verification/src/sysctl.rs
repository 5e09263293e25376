use vstd::prelude::*;

use crate::error::{bytes_result_view, OsError};

verus! {

/// What the FreeBSD kernel-management strategy hands its caller, as a
/// function of the one `sysctl` query's observed outcome. The query names the
/// current process's pathname with a fixed four-element selector and is given
/// `buf`, sized to the path-length ceiling, together with an in/out length
/// word; `ret` is the call's return value, `written` the length word's value
/// after the call, and `last_error` the error code the OS reported last.
///
/// The sentinel `-1` means failure, propagated verbatim. On success the OS
/// has updated the length word in place to the exact written length, and the
/// result is the buffer cut to that length — there is no retry loop, since
/// the call either succeeds with a correctly sized result or fails outright.
pub open spec fn sysctl_read_result(
    buf: Seq<u8>,
    ret: int,
    written: int,
    last_error: i32,
) -> Result<Seq<u8>, OsError> {
    if ret == -1 {
        Err(OsError { code: last_error })
    } else {
        Ok(buf.subrange(0, written))
    }
}

/// Interpret the outcome of the kernel-management query. The platform layer
/// makes the call and passes the return value, the updated length word and
/// the last error code straight through; on success the kernel never reports
/// more bytes written than the buffer holds.
pub fn finish_sysctl_read(buf: Vec<u8>, ret: i32, written: usize, last_error: i32) -> (r: Result<
    Vec<u8>,
    OsError,
>)
    requires
        ret == -1 || written <= buf@.len(),
    ensures
        bytes_result_view(r) == sysctl_read_result(buf@, ret as int, written as int, last_error),
{
    if ret == -1 {
        Err(OsError { code: last_error })
    } else {
        let mut path = buf;
        path.truncate(written);
        Ok(path)
    }
}

} // verus!
