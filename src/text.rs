//! Text held in the metadata region: UTF-16LE strings and GUIDs written out
//! as text.

use crate::reader::{le_u16, read_u16};
use vstd::prelude::*;

verus! {

/// The text that a sequence of UTF-16 code units encodes, or `None` when the
/// units are not valid UTF-16.
pub uninterp spec fn utf16_text(units: Seq<u16>) -> Option<Seq<char>>;

/// The GUID that a text spells, as the number whose hexadecimal digits are
/// those of the text, or `None` when the text is not a GUID.
pub uninterp spec fn uuid_from_text(text: Seq<char>) -> Option<u128>;

/// Relies on `String::from_utf16`: the decoded text when the units are valid
/// UTF-16, and an error otherwise; the outcome depends on the units alone.
#[verifier::external_body]
fn decode_utf16(units: &[u16]) -> (r: Option<String>)
    ensures
        match r {
            Some(s) => utf16_text(units@) == Some(s@),
            None => utf16_text(units@) is None,
        },
{
    match String::from_utf16(units) {
        Ok(s) => Some(s),
        Err(_) => None,
    }
}

/// Whether every character of the text is ASCII, so that it takes one byte
/// per character.
pub open spec fn is_ascii_text(text: Seq<char>) -> bool {
    forall|i: int| 0 <= i < text.len() ==> (text[i] as u32) < 0x80
}

/// Relies on `uuid::Uuid::parse_str` and `uuid::Uuid::as_u128`: the GUID that
/// the text spells, with its first hexadecimal digit most significant, or an
/// error; the outcome depends on the text alone. Its parser accepts only
/// inputs of 32, 36, 38 or 45 bytes and rejects any other length at once.
#[verifier::external_body]
pub(crate) fn parse_uuid_text(text: &str) -> (r: Option<u128>)
    ensures
        r == uuid_from_text(text@),
        is_ascii_text(text@) && text@.len() != 32 && text@.len() != 36 && text@.len() != 38
            && text@.len() != 45 ==> r is None,
{
    match uuid::Uuid::parse_str(text) {
        Ok(u) => Some(u.as_u128()),
        Err(_) => None,
    }
}

/// Relies on `str::contains` with a `char` pattern: whether the character
/// occurs in the text.
#[verifier::external_body]
pub(crate) fn contains_char(text: &str, c: char) -> (r: bool)
    ensures
        r == text@.contains(c),
{
    text.contains(c)
}

/// The `count` little-endian UTF-16 code units stored from `off` on.
pub open spec fn utf16_units(s: Seq<u8>, off: int, count: int) -> Seq<u16> {
    Seq::new(count as nat, |i: int| le_u16(s, off + 2 * i))
}

/// Reads `count` little-endian UTF-16 code units starting at `off`.
pub fn read_utf16_units(data: &[u8], off: usize, count: usize) -> (r: Vec<u16>)
    requires
        off + 2 * count <= data.len(),
    ensures
        r@ == utf16_units(data@, off as int, count as int),
{
    let mut r: Vec<u16> = Vec::with_capacity(count);
    let mut i: usize = 0;
    while i < count
        invariant
            i <= count,
            off + 2 * count <= data.len(),
            r@ == utf16_units(data@, off as int, i as int),
        decreases count - i,
    {
        r.push(read_u16(data, off + 2 * i));
        i = i + 1;
        assert(r@ =~= utf16_units(data@, off as int, i as int));
    }
    r
}

/// Decodes the `count` UTF-16LE code units stored from `off` on into text.
pub fn read_utf16_text(data: &[u8], off: usize, count: usize) -> (r: Option<String>)
    requires
        off + 2 * count <= data.len(),
    ensures
        match r {
            Some(s) => utf16_text(utf16_units(data@, off as int, count as int)) == Some(s@),
            None => utf16_text(utf16_units(data@, off as int, count as int)) is None,
        },
{
    let units = read_utf16_units(data, off, count);
    decode_utf16(units.as_slice())
}

/// Whether the text is exactly `name`.
pub fn text_is(text: &String, name: &str) -> (r: bool)
    ensures
        r == (text@ == name@),
{
    *text == String::from_str(name)
}

} // verus!
