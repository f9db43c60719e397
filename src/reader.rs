//! Little-endian decoding of fixed-width values from byte buffers.

use crate::error::VhdxError;
use vstd::prelude::*;

verus! {

/// The 16-bit little-endian value stored at `off`.
pub open spec fn le_u16(s: Seq<u8>, off: int) -> u16 {
    (s[off] + 0x100 * s[off + 1]) as u16
}

/// The 32-bit little-endian value stored at `off`.
pub open spec fn le_u32(s: Seq<u8>, off: int) -> u32 {
    (le_u16(s, off) + 0x1_0000 * le_u16(s, off + 2)) as u32
}

/// The 64-bit little-endian value stored at `off`.
pub open spec fn le_u64(s: Seq<u8>, off: int) -> u64 {
    (le_u32(s, off) + 0x1_0000_0000 * le_u32(s, off + 4)) as u64
}

/// The 16-bit big-endian value stored at `off`.
pub open spec fn be_u16(s: Seq<u8>, off: int) -> u16 {
    (0x100 * s[off] + s[off + 1]) as u16
}

/// The 32-bit big-endian value stored at `off`.
pub open spec fn be_u32(s: Seq<u8>, off: int) -> u32 {
    (0x1_0000 * be_u16(s, off) + be_u16(s, off + 2)) as u32
}

/// The 64-bit big-endian value stored at `off`.
pub open spec fn be_u64(s: Seq<u8>, off: int) -> u64 {
    (0x1_0000_0000 * be_u32(s, off) + be_u32(s, off + 4)) as u64
}

/// The GUID stored at `off` in its on-disk layout: a little-endian 32-bit
/// field, two little-endian 16-bit fields and eight bytes kept in order. The
/// result is the number whose hexadecimal digits, read from the most
/// significant, spell the GUID's usual text form.
pub open spec fn guid_at(s: Seq<u8>, off: int) -> u128 {
    (le_u32(s, off) * 0x1_0000_0000_0000_0000_0000_0000 + le_u16(s, off + 4)
        * 0x1_0000_0000_0000_0000_0000 + le_u16(s, off + 6) * 0x1_0000_0000_0000_0000
        + be_u64(s, off + 8)) as u128
}

/// The failure, if any, of reading `n` bytes at `off` of a window that holds
/// `available` bytes of a structure declared `limit` bytes long. Reaching past
/// the declared length is a bounds violation; reaching past the bytes at hand
/// is a failed read.
pub open spec fn span_failure(available: int, limit: int, off: int, n: int) -> Option<VhdxError> {
    if off + n > limit {
        Some(VhdxError::StructuralBoundsViolation)
    } else if off + n > available {
        Some(VhdxError::IoFailure)
    } else {
        None
    }
}

pub fn read_u16(data: &[u8], off: usize) -> (r: u16)
    requires
        off + 2 <= data.len(),
    ensures
        r == le_u16(data@, off as int),
{
    data[off] as u16 + 0x100 * data[off + 1] as u16
}

pub fn read_u32(data: &[u8], off: usize) -> (r: u32)
    requires
        off + 4 <= data.len(),
    ensures
        r == le_u32(data@, off as int),
{
    read_u16(data, off) as u32 + 0x1_0000 * read_u16(data, off + 2) as u32
}

pub fn read_u64(data: &[u8], off: usize) -> (r: u64)
    requires
        off + 8 <= data.len(),
    ensures
        r == le_u64(data@, off as int),
{
    read_u32(data, off) as u64 + 0x1_0000_0000 * read_u32(data, off + 4) as u64
}

fn read_be_u16(data: &[u8], off: usize) -> (r: u16)
    requires
        off + 2 <= data.len(),
    ensures
        r == be_u16(data@, off as int),
{
    0x100 * data[off] as u16 + data[off + 1] as u16
}

fn read_be_u32(data: &[u8], off: usize) -> (r: u32)
    requires
        off + 4 <= data.len(),
    ensures
        r == be_u32(data@, off as int),
{
    0x1_0000 * read_be_u16(data, off) as u32 + read_be_u16(data, off + 2) as u32
}

fn read_be_u64(data: &[u8], off: usize) -> (r: u64)
    requires
        off + 8 <= data.len(),
    ensures
        r == be_u64(data@, off as int),
{
    0x1_0000_0000 * read_be_u32(data, off) as u64 + read_be_u32(data, off + 4) as u64
}

pub fn read_guid(data: &[u8], off: usize) -> (r: u128)
    requires
        off + 16 <= data.len(),
    ensures
        r == guid_at(data@, off as int),
{
    let d1: u128 = read_u32(data, off) as u128;
    let d2: u128 = read_u16(data, off + 4) as u128;
    let d3: u128 = read_u16(data, off + 6) as u128;
    let d4: u128 = read_be_u64(data, off + 8) as u128;
    d1 * 0x1_0000_0000_0000_0000_0000_0000 + d2 * 0x1_0000_0000_0000_0000_0000 + d3
        * 0x1_0000_0000_0000_0000 + d4
}

/// A copy of the `n` bytes at `off`.
pub fn copy_bytes(data: &[u8], off: usize, n: usize) -> (r: Vec<u8>)
    requires
        off + n <= data.len(),
    ensures
        r@ == data@.subrange(off as int, off + n),
{
    let mut r: Vec<u8> = Vec::with_capacity(n);
    let mut i: usize = 0;
    while i < n
        invariant
            i <= n,
            off + n <= data.len(),
            r@ == data@.subrange(off as int, off + i),
        decreases n - i,
    {
        r.push(data[off + i]);
        i = i + 1;
        assert(r@ =~= data@.subrange(off as int, off + i));
    }
    r
}

/// Checks that `n` bytes can be read at `off` of a window holding `data`,
/// whose structure is declared `limit` bytes long.
pub fn check_span(data: &[u8], limit: u64, off: u64, n: u64) -> (r: Result<(), VhdxError>)
    requires
        off + n <= u64::MAX,
    ensures
        match span_failure(data@.len() as int, limit as int, off as int, n as int) {
            Some(e) => r == Err::<(), VhdxError>(e),
            None => r is Ok,
        },
        r is Ok ==> off + n <= data.len(),
{
    if off + n > limit {
        Err(VhdxError::StructuralBoundsViolation)
    } else if off + n > data.len() as u64 {
        Err(VhdxError::IoFailure)
    } else {
        Ok(())
    }
}

} // verus!
