//! What the host wrote into a guest buffer: the host returns a length, or a
//! negative number when the call failed.

use vstd::prelude::*;
use vstd::utf8::{decode_utf8, valid_utf8};
use crate::error::TreblleError;

verus! {

/// Relies on `String::from_utf8`: succeeds exactly on valid UTF-8, and the
/// text holds the decoded characters.
#[verifier::external_body]
fn utf8_text(bytes: Vec<u8>) -> (r: Option<String>)
    ensures
        r is Some <==> valid_utf8(bytes@),
        r matches Some(s) ==> s@ == decode_utf8(bytes@),
{
    String::from_utf8(bytes).ok()
}

/// Whether a length the host returned fits the buffer it was given.
pub open spec fn length_fits(len: i64, capacity: nat) -> bool {
    0 <= len && len <= capacity
}

/// The bytes a host call wrote: the first `len` bytes of `buffer`. A
/// negative length, or one past the buffer, is the host's failure.
pub fn bytes_from_buffer(buffer: Vec<u8>, len: i64) -> (r: Result<Vec<u8>, TreblleError>)
    ensures
        r is Ok <==> length_fits(len, buffer@.len()),
        r matches Ok(b) ==> b@ == buffer@.take(len as int),
        r matches Err(e) ==> e is HostFunction,
{
    if len < 0 || len as u64 > buffer.len() as u64 {
        return Err(TreblleError::HostFunction(String::from_str("Failed to read from buffer")));
    }
    let mut b = buffer;
    b.truncate(len as usize);
    assert(b@ =~= buffer@.take(len as int));
    Ok(b)
}

/// The text a host call wrote: the first `len` bytes of `buffer`, which
/// must be UTF-8.
pub fn read_from_buffer(buffer: Vec<u8>, len: i64) -> (r: Result<String, TreblleError>)
    ensures
        r is Ok <==> length_fits(len, buffer@.len()) && valid_utf8(buffer@.take(len as int)),
        r matches Ok(s) ==> s@ == decode_utf8(buffer@.take(len as int)),
        r matches Err(e) ==> e is HostFunction,
{
    let bytes = bytes_from_buffer(buffer, len)?;
    match utf8_text(bytes) {
        Some(s) => Ok(s),
        None => Err(TreblleError::HostFunction(String::from_str("invalid UTF-8 from host"))),
    }
}

} // verus!
