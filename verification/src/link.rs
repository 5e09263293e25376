use vstd::prelude::*;

use crate::error::{bytes_result_view, OsError};

verus! {

/// What a symbolic-link strategy (Linux `/proc/self/exe`, DragonFly
/// `/proc/curproc/file`, NetBSD `/proc/curproc/exe`) hands its caller, as a
/// function of the one `readlink`-style call's observed outcome: `buf` is the
/// buffer offered to the call, sized to the platform's path-length ceiling,
/// `ret` the call's return value, and `last_error` the error code the OS
/// reported last.
///
/// The sentinel `-1` means failure, propagated verbatim; any other return is
/// the exact count of bytes written, and the result is the buffer cut to that
/// count. A count of zero is a success with an empty path, and a count equal
/// to the ceiling returns the buffer whole — a target longer than the ceiling
/// is silently truncated, a documented limitation of the single-shot read.
pub open spec fn link_read_result(buf: Seq<u8>, ret: int, last_error: i32) -> Result<
    Seq<u8>,
    OsError,
> {
    if ret == -1 {
        Err(OsError { code: last_error })
    } else {
        Ok(buf.subrange(0, ret))
    }
}

/// Interpret the outcome of the symbolic-link read. The platform layer makes
/// the call with `buf` as the output region and passes the return value and
/// last error code straight through; the kernel never reports more bytes
/// written than the buffer holds.
pub fn finish_link_read(buf: Vec<u8>, ret: i64, last_error: i32) -> (r: Result<Vec<u8>, OsError>)
    requires
        ret == -1 || 0 <= ret <= buf@.len(),
    ensures
        bytes_result_view(r) == link_read_result(buf@, ret as int, last_error),
{
    if ret == -1 {
        Err(OsError { code: last_error })
    } else {
        let mut path = buf;
        path.truncate(ret as usize);
        Ok(path)
    }
}

/// Law: a buffer filled with a path exactly as long as the ceiling comes back
/// unmodified — the single-shot read does not mistake a full buffer for an
/// error.
pub proof fn lemma_full_buffer_returned_whole(buf: Seq<u8>, last_error: i32)
    ensures
        link_read_result(buf, buf.len() as int, last_error) == Ok::<Seq<u8>, OsError>(buf),
{
    assert(buf.subrange(0, buf.len() as int) =~= buf);
}

/// Law: a read that reports zero bytes written is a success carrying the
/// empty path; only the sentinel return is treated as an error.
pub proof fn lemma_zero_length_read_is_empty_success(buf: Seq<u8>, last_error: i32)
    ensures
        link_read_result(buf, 0, last_error) == Ok::<Seq<u8>, OsError>(Seq::<u8>::empty()),
{
    assert(buf.subrange(0, 0) =~= Seq::<u8>::empty());
}

} // verus!
