//! The two outside dependencies of the generator — the secure random source
//! and the system clock — and the byte-to-text conversion, each behind a
//! trusted wrapper whose contract states only what the outside code promises.

use vstd::prelude::*;

verus! {

#[verifier::external_type_specification]
#[verifier::external_body]
pub struct ExGetrandomError(getrandom::Error);

/// Relies on getrandom::getrandom: on success the buffer holds bytes from the
/// system's secure random source. Nothing can be said of the values drawn, and
/// on error the crate makes no promise about the contents, so the contract
/// fixes only the length, which a fill through `&mut [u8]` cannot change.
#[verifier::external_body]
pub(crate) fn fill_random(buf: &mut Vec<u8>) -> (r: Result<(), getrandom::Error>)
    ensures
        final(buf)@.len() == old(buf)@.len(),
{
    getrandom::getrandom(buf.as_mut_slice())
}

/// Relies on std::time::SystemTime: the nanoseconds elapsed since the Unix
/// epoch at the moment of the call, or `None` when the clock reads a time
/// before that epoch. The value depends on the moment of the call, so the
/// contract promises nothing of it.
#[verifier::external_body]
pub(crate) fn unix_nanos_now() -> (r: Option<u128>) {
    match std::time::SystemTime::now().duration_since(std::time::UNIX_EPOCH) {
        Ok(d) => Some(d.as_nanos()),
        Err(_) => None,
    }
}

/// Relies on String::from_utf8_lossy: bytes below 128 are valid UTF-8 and
/// decode losslessly, one character per byte, each with the byte's own code
/// point.
#[verifier::external_body]
pub(crate) fn ascii_string(bytes: &Vec<u8>) -> (r: String)
    requires
        forall|i: int| 0 <= i < bytes@.len() ==> bytes@[i] < 128,
    ensures
        r@ == bytes@.map_values(|b: u8| b as char),
{
    String::from_utf8_lossy(bytes.as_slice()).into_owned()
}

} // verus!
