//! Byte-level text handling: the NUL scan that guards strings handed to
//! the native layer, and UTF-8 decoding of byte strings it hands back.

use vstd::prelude::*;

use vstd::utf8::{decode_utf8, partial_valid_utf8, valid_utf8};

use crate::error::Utf8Cause;

verus! {

/// True when the byte sequence holds a NUL byte.
pub open spec fn contains_nul(bytes: Seq<u8>) -> bool {
    exists|i: int| 0 <= i < bytes.len() && bytes[i] == 0
}

/// Scans for the first NUL byte, returning its index when there is one.
pub fn find_nul(bytes: &[u8]) -> (r: Option<usize>)
    ensures
        match r {
            Some(i) => i < bytes@.len() && bytes@[i as int] == 0 && forall|j: int|
                0 <= j < i ==> bytes@[j] != 0,
            None => !contains_nul(bytes@),
        },
{
    let n = bytes.len();
    let mut i: usize = 0;
    while i < n
        invariant
            i <= n,
            n == bytes@.len(),
            forall|j: int| 0 <= j < i ==> bytes@[j] != 0,
        decreases n - i,
    {
        if bytes[i] == 0 {
            return Some(i);
        }
        i = i + 1;
    }
    None
}

/// Relies on `core::str::from_utf8`: it returns `Ok` with the borrowed
/// decoding exactly when the bytes are valid UTF-8, and otherwise an error
/// whose `valid_up_to` bounds a valid prefix.
#[verifier::external_body]
fn utf8_from_bytes(bytes: &[u8]) -> (r: Result<&str, Utf8Cause>)
    ensures
        match r {
            Ok(s) => valid_utf8(bytes@) && s@ == decode_utf8(bytes@),
            Err(c) => !valid_utf8(bytes@) && partial_valid_utf8(bytes@, c.valid_up_to as int),
        },
{
    match core::str::from_utf8(bytes) {
        Ok(s) => Ok(s),
        Err(e) => Err(Utf8Cause { valid_up_to: e.valid_up_to(), error_len: e.error_len() }),
    }
}

/// Decodes a byte string from the native library as UTF-8, copying it into
/// an owned string; invalid UTF-8 yields the cause instead.
pub fn decode_utf8_bytes(bytes: &[u8]) -> (r: Result<String, Utf8Cause>)
    ensures
        valid_utf8(bytes@) ==> (r matches Ok(s) && s@ == decode_utf8(bytes@)),
        !valid_utf8(bytes@) ==> (r matches Err(c) && partial_valid_utf8(
            bytes@,
            c.valid_up_to as int,
        )),
{
    match utf8_from_bytes(bytes) {
        Ok(s) => Ok(s.to_owned()),
        Err(c) => Err(c),
    }
}

} // verus!
