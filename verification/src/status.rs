//! Translation of the native library's return conventions: a nullable
//! pointer from the constructor, and the status sentinels `0` (success) and
//! `1` (failure) from every other call.

use vstd::prelude::*;

use crate::error::Error;

verus! {

/// The value the native library returns from a successful call.
pub const XDO_SUCCESS: i32 = 0;

/// The value the native library returns from a failed call.
pub const XDO_ERROR: i32 = 1;

/// Turns a nullable native pointer, given as its address, into a result:
/// the address itself when it is non-null, and a `Failed` error naming the
/// native call otherwise.
pub fn ptr_or_error(ptr: usize, method: &'static str) -> (r: Result<usize, Error>)
    ensures
        ptr == 0 ==> (r matches Err(Error::Failed(m)) && m@ == method@),
        ptr != 0 ==> r == Ok::<usize, Error>(ptr),
{
    if ptr == 0 {
        Err(Error::Failed(method))
    } else {
        Ok(ptr)
    }
}

/// Decodes a native status sentinel: success becomes `Ok`, failure becomes
/// a `Failed` error naming the operation.  The native library documents no
/// other return value, so any other value is a contract violation and is
/// ruled out here.
pub fn status_to_result(status: i32, op: &'static str) -> (r: Result<(), Error>)
    requires
        status == XDO_SUCCESS || status == XDO_ERROR,
    ensures
        status == XDO_SUCCESS ==> r is Ok,
        status == XDO_ERROR ==> (r matches Err(Error::Failed(m)) && m@ == op@),
{
    if status == XDO_SUCCESS {
        Ok(())
    } else {
        Err(Error::Failed(op))
    }
}

} // verus!
