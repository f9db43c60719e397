//! The file identifier at the very start of a VHDX file.

use crate::error::VhdxError;
use crate::reader::{le_u64, read_u64};
use crate::text::{read_utf16_text, utf16_text, utf16_units};
use vstd::prelude::*;

verus! {

/// The signature `vhdxfile`, read as a little-endian 64-bit value.
pub const FILE_HEADER_SIG: u64 = 0x656c_6966_7864_6876;

/// Length of the signature.
pub const FILE_HEADER_SIG_LEN: usize = 0x8;

/// Length in bytes of the UTF-16LE creator field that follows the signature.
pub const FILE_HEADER_CREATOR_LEN: usize = 0x200;

/// The file identifier: the application that created the file.
#[derive(Debug)]
pub struct Header {
    pub creator: String,
}

/// The outcome of decoding the file identifier from the bytes read at the
/// start of the file: signed, complete, and with valid UTF-16 as creator.
pub open spec fn file_header(s: Seq<u8>) -> Result<Seq<char>, VhdxError> {
    if s.len() < FILE_HEADER_SIG_LEN {
        Err(VhdxError::IoFailure)
    } else if le_u64(s, 0) != FILE_HEADER_SIG {
        Err(VhdxError::MalformedSignature)
    } else if s.len() < FILE_HEADER_SIG_LEN + FILE_HEADER_CREATOR_LEN {
        Err(VhdxError::IoFailure)
    } else {
        match utf16_text(
            utf16_units(s, FILE_HEADER_SIG_LEN as int, (FILE_HEADER_CREATOR_LEN / 2) as int),
        ) {
            Some(creator) => Ok(creator),
            None => Err(VhdxError::MissingExpectedField),
        }
    }
}

/// Decodes the file identifier from the bytes read at the start of the file.
pub fn read_file_header(data: &[u8]) -> (r: Result<Header, VhdxError>)
    ensures
        match r {
            Ok(h) => file_header(data@) == Ok::<Seq<char>, VhdxError>(h.creator@),
            Err(e) => file_header(data@) == Err::<Seq<char>, VhdxError>(e),
        },
{
    if data.len() < FILE_HEADER_SIG_LEN {
        return Err(VhdxError::IoFailure);
    }
    if read_u64(data, 0) != FILE_HEADER_SIG {
        return Err(VhdxError::MalformedSignature);
    }
    if data.len() < FILE_HEADER_SIG_LEN + FILE_HEADER_CREATOR_LEN {
        return Err(VhdxError::IoFailure);
    }
    match read_utf16_text(data, FILE_HEADER_SIG_LEN, FILE_HEADER_CREATOR_LEN / 2) {
        Some(creator) => Ok(Header { creator }),
        None => Err(VhdxError::MissingExpectedField),
    }
}

} // verus!
