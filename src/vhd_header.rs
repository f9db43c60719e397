//! The two redundant VHDX headers and the choice between them.

use crate::checksum::{check_checksum, checksum_matches};
use crate::error::VhdxError;
use crate::reader::{copy_bytes, guid_at, le_u16, le_u32, le_u64, read_guid, read_u16, read_u32, read_u64};
use vstd::prelude::*;

verus! {

/// File offset of the first header copy.
pub const FIRST_HEADER_OFFSET: usize = 0x10000;

/// File offset of the second header copy.
pub const SECOND_HEADER_OFFSET: usize = 0x20000;

/// Length of each header copy, the window that its checksum covers.
pub const VHD_HEADER_LEN: usize = 0x1000;

/// The signature `head`, read as a little-endian 32-bit value.
pub const VHD_HEADER_SIG: u32 = 0x6461_6568;

/// Offset of the checksum field within a header copy.
pub const VHD_HEADER_CHECKSUM_OFFSET: usize = 4;

/// One decoded header copy. GUIDs are held as the number whose hexadecimal
/// digits spell their usual text form.
#[derive(Clone, Copy, Debug, PartialEq, Eq, Structural)]
pub struct VhdHeader {
    pub checksum: u32,
    pub sequence_number: u64,
    pub file_write_id: u128,
    pub data_write_id: u128,
    pub log_id: u128,
    pub log_version: u16,
    pub version: u16,
    pub log_length: u32,
    pub log_offset: u64,
}

/// The fields of a header copy, read from its block.
pub open spec fn header_fields(s: Seq<u8>) -> VhdHeader {
    VhdHeader {
        checksum: le_u32(s, 4),
        sequence_number: le_u64(s, 8),
        file_write_id: guid_at(s, 16),
        data_write_id: guid_at(s, 32),
        log_id: guid_at(s, 48),
        log_version: le_u16(s, 64),
        version: le_u16(s, 66),
        log_length: le_u32(s, 68),
        log_offset: le_u64(s, 72),
    }
}

/// The outcome of decoding one header copy from the bytes read at its offset:
/// the block must be complete, carry the signature, and match its checksum.
pub open spec fn header_copy(s: Seq<u8>) -> Result<VhdHeader, VhdxError> {
    if s.len() < VHD_HEADER_LEN {
        Err(VhdxError::IoFailure)
    } else if le_u32(s, 0) != VHD_HEADER_SIG {
        Err(VhdxError::MalformedSignature)
    } else if !checksum_matches(
        s.subrange(0, VHD_HEADER_LEN as int),
        VHD_HEADER_CHECKSUM_OFFSET as int,
        le_u32(s, 4),
    ) {
        Err(VhdxError::ChecksumMismatch)
    } else {
        Ok(header_fields(s))
    }
}

/// The choice between two decoded copies: the first failure in order, else
/// the copy with the larger sequence number with its file offset. Equal
/// sequence numbers cannot be told apart and fail.
pub open spec fn resolve_headers(
    first: Result<VhdHeader, VhdxError>,
    second: Result<VhdHeader, VhdxError>,
) -> Result<(usize, VhdHeader), VhdxError> {
    match first {
        Err(e) => Err(e),
        Ok(h1) => match second {
            Err(e) => Err(e),
            Ok(h2) => if h1.sequence_number == h2.sequence_number {
                Err(VhdxError::InconsistentRedundancy)
            } else if h1.sequence_number > h2.sequence_number {
                Ok((FIRST_HEADER_OFFSET, h1))
            } else {
                Ok((SECOND_HEADER_OFFSET, h2))
            },
        },
    }
}

impl VhdHeader {
    /// Decodes the fields of a header copy whose block holds at least its
    /// length.
    pub fn new(block: &[u8]) -> (r: VhdHeader)
        requires
            block.len() >= VHD_HEADER_LEN,
        ensures
            r == header_fields(block@),
    {
        VhdHeader {
            checksum: read_u32(block, 4),
            sequence_number: read_u64(block, 8),
            file_write_id: read_guid(block, 16),
            data_write_id: read_guid(block, 32),
            log_id: read_guid(block, 48),
            log_version: read_u16(block, 64),
            version: read_u16(block, 66),
            log_length: read_u32(block, 68),
            log_offset: read_u64(block, 72),
        }
    }
}

/// Decodes and validates one header copy from the bytes read at its offset.
pub fn read_specific_vhdx_header(block: &[u8]) -> (r: Result<VhdHeader, VhdxError>)
    ensures
        r == header_copy(block@),
{
    if block.len() < VHD_HEADER_LEN {
        return Err(VhdxError::IoFailure);
    }
    if read_u32(block, 0) != VHD_HEADER_SIG {
        return Err(VhdxError::MalformedSignature);
    }
    let window = copy_bytes(block, 0, VHD_HEADER_LEN);
    let stored = read_u32(block, VHD_HEADER_CHECKSUM_OFFSET);
    match check_checksum(window, VHD_HEADER_CHECKSUM_OFFSET, stored) {
        Err(e) => Err(e),
        Ok(()) => Ok(VhdHeader::new(block)),
    }
}

/// Decodes both header copies, from the blocks read at the first and the
/// second header offset, and returns the current one with its offset.
pub fn read_vhdx_header(first: &[u8], second: &[u8]) -> (r: Result<(usize, VhdHeader), VhdxError>)
    ensures
        r == resolve_headers(header_copy(first@), header_copy(second@)),
{
    let header1 = match read_specific_vhdx_header(first) {
        Err(e) => return Err(e),
        Ok(h) => h,
    };
    let header2 = match read_specific_vhdx_header(second) {
        Err(e) => return Err(e),
        Ok(h) => h,
    };
    if header1.sequence_number == header2.sequence_number {
        Err(VhdxError::InconsistentRedundancy)
    } else if header1.sequence_number > header2.sequence_number {
        Ok((FIRST_HEADER_OFFSET, header1))
    } else {
        Ok((SECOND_HEADER_OFFSET, header2))
    }
}

/// Of two valid header copies the one with the larger sequence number is
/// chosen, together with its offset; equal sequence numbers are an
/// inconsistency and nothing is chosen.
pub proof fn lemma_header_resolution(first: Seq<u8>, second: Seq<u8>)
    requires
        header_copy(first) is Ok,
        header_copy(second) is Ok,
    ensures
        ({
            let h1 = header_copy(first)->Ok_0;
            let h2 = header_copy(second)->Ok_0;
            let r = resolve_headers(header_copy(first), header_copy(second));
            &&& h1.sequence_number == h2.sequence_number ==> r == Err::<(usize, VhdHeader), VhdxError>(VhdxError::InconsistentRedundancy)
            &&& h1.sequence_number > h2.sequence_number ==> r == Ok::<(usize, VhdHeader), VhdxError>((FIRST_HEADER_OFFSET, h1))
            &&& h1.sequence_number < h2.sequence_number ==> r == Ok::<(usize, VhdHeader), VhdxError>((SECOND_HEADER_OFFSET, h2))
        }),
{
}

} // verus!
