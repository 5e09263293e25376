use vstd::prelude::*;

verus! {

/// The one kind of failure this library knows: the operating system reported
/// an error, identified by the error code its last-error mechanism supplied
/// at the point of failure. The code is carried verbatim; no translation into
/// a custom taxonomy is attempted.
#[derive(Clone, Copy, Debug, PartialEq, Eq)]
pub struct OsError {
    pub code: i32,
}

/// The mathematical reading of a strategy's byte-level result: the payload of
/// the `Ok` case as a sequence, the error untouched.
pub open spec fn bytes_result_view(r: Result<Vec<u8>, OsError>) -> Result<Seq<u8>, OsError> {
    match r {
        Ok(v) => Ok(v@),
        Err(e) => Err(e),
    }
}

} // verus!
