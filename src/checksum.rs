//! CRC-32C validation of self-checksummed structures.

use crate::error::VhdxError;
use vstd::prelude::*;

verus! {

/// Width in bytes of a stored checksum field.
pub const CHECKSUM_LENGTH: usize = 4;

/// The CRC-32C (Castagnoli) checksum of a byte string.
pub uninterp spec fn crc32c_of(data: Seq<u8>) -> u32;

/// Relies on `crc32c::crc32c`: the CRC-32C of the given bytes, which depends on
/// those bytes alone.
#[verifier::external_body]
fn crc32c_checksum(data: &[u8]) -> (r: u32)
    ensures
        r == crc32c_of(data@),
{
    crc32c::crc32c(data)
}

/// `s` with the four bytes of its checksum field, at `off`, set to zero.
pub open spec fn zero_checksum_field(s: Seq<u8>, off: int) -> Seq<u8> {
    Seq::new(s.len(), |i: int| if off <= i < off + CHECKSUM_LENGTH { 0u8 } else { s[i] })
}

/// Whether `expected` is the CRC-32C of `s` taken with its checksum field at
/// `off` zeroed.
pub open spec fn checksum_matches(s: Seq<u8>, off: int, expected: u32) -> bool {
    crc32c_of(zero_checksum_field(s, off)) == expected
}

/// Recomputes the checksum of `data` with the checksum field at `offset`
/// zeroed and compares it with `expected`.
pub fn check_checksum(data: Vec<u8>, offset: usize, expected: u32) -> (r: Result<(), VhdxError>)
    requires
        offset + CHECKSUM_LENGTH <= data.len(),
    ensures
        r is Ok <==> checksum_matches(data@, offset as int, expected),
        r is Err ==> r == Err::<(), VhdxError>(VhdxError::ChecksumMismatch),
{
    let mut data = data;
    let ghost before = data@;
    let mut k: usize = 0;
    while k < CHECKSUM_LENGTH
        invariant
            k <= CHECKSUM_LENGTH,
            offset + CHECKSUM_LENGTH <= data.len(),
            data@.len() == before.len(),
            forall|i: int|
                0 <= i < data@.len() ==> data@[i] == if offset <= i < offset + k {
                    0u8
                } else {
                    before[i]
                },
        decreases CHECKSUM_LENGTH - k,
    {
        data[offset + k] = 0;
        k = k + 1;
    }
    assert(data@ =~= zero_checksum_field(before, offset as int));
    if crc32c_checksum(data.as_slice()) == expected {
        Ok(())
    } else {
        Err(VhdxError::ChecksumMismatch)
    }
}

} // verus!
