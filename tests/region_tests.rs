use vhdx_inspector::error::VhdxError;
use vhdx_inspector::region::{read_region, read_specific_region, RegionType, REGION_BAT, REGION_METADATA};

const MIB: u64 = 0x10_0000;

fn guid_bytes(id: u128) -> [u8; 16] {
    uuid::Uuid::from_u128(id).to_bytes_le()
}

fn region_block(entries: &[(u128, u64, u32, u32)]) -> Vec<u8> {
    let mut b = vec![0u8; 0x10000];
    b[0..4].copy_from_slice(b"regi");
    b[8..12].copy_from_slice(&(entries.len() as u32).to_le_bytes());
    for (n, (id, offset, length, flags)) in entries.iter().enumerate() {
        let o = 16 + 32 * n;
        b[o..o + 16].copy_from_slice(&guid_bytes(*id));
        b[o + 16..o + 24].copy_from_slice(&offset.to_le_bytes());
        b[o + 24..o + 28].copy_from_slice(&length.to_le_bytes());
        b[o + 28..o + 32].copy_from_slice(&flags.to_le_bytes());
    }
    seal(&mut b);
    b
}

fn seal(b: &mut Vec<u8>) {
    b[4..8].copy_from_slice(&[0, 0, 0, 0]);
    let crc = crc32c::crc32c(b);
    b[4..8].copy_from_slice(&crc.to_le_bytes());
}

fn standard_entries() -> Vec<(u128, u64, u32, u32)> {
    vec![(REGION_BAT, 3 * MIB, MIB as u32, 1), (REGION_METADATA, 2 * MIB, MIB as u32, 1)]
}

#[test]
fn region_entries_are_classified() {
    let b = region_block(&standard_entries());
    let t = read_region(&b, &b).unwrap();
    assert_eq!(t.entry_count, 2);
    assert_eq!(t.entries.len(), 2);
    assert_eq!(t.entries[0].region_type, RegionType::BAT);
    assert_eq!(t.entries[0].object_offset, 3 * MIB);
    assert_eq!(t.entries[0].object_length, MIB as u32);
    assert!(t.entries[0].required);
    assert_eq!(t.entries[1].region_type, RegionType::Metadata);
    assert_eq!(t.entries[1].object_id, REGION_METADATA);
    assert_eq!(t.checksum, u32::from_le_bytes([b[4], b[5], b[6], b[7]]));
}

#[test]
fn region_guid_constants_match_their_text() {
    assert_eq!(REGION_BAT, uuid::Uuid::parse_str("2DC27766-F623-4200-9D64-115E9BFD4A08").unwrap().as_u128());
    assert_eq!(REGION_METADATA, uuid::Uuid::parse_str("8B7CA206-4790-4B9A-B8FE-575F050F886E").unwrap().as_u128());
}

#[test]
fn region_decode_is_repeatable() {
    let mut entries = standard_entries();
    entries.push((0x1234, 5 * MIB, 0, 0));
    let b = region_block(&entries);
    let first = read_region(&b, &b).unwrap();
    let second = read_region(&b, &b).unwrap();
    assert!(first == second);
    assert_eq!(first.entries, second.entries);
    assert_eq!(first.entries[2].region_type, RegionType::Unknown);
}

#[test]
fn differing_region_copies_are_inconsistent() {
    let a = region_block(&standard_entries());
    let mut other = standard_entries();
    other[0].2 = 2 * MIB as u32;
    let b = region_block(&other);
    assert_eq!(read_region(&a, &b).unwrap_err(), VhdxError::InconsistentRedundancy);
}

#[test]
fn unknown_required_region_is_unsupported() {
    let b = region_block(&[(0x1234, 5 * MIB, 0, 1)]);
    assert_eq!(read_specific_region(&b).unwrap_err(), VhdxError::UnsupportedRequiredFeature);
    let optional = region_block(&[(0x1234, 5 * MIB, 0, 2)]);
    assert!(read_specific_region(&optional).is_ok());
}

#[test]
fn region_placement_rules() {
    let low = region_block(&[(REGION_BAT, 0, MIB as u32, 1)]);
    assert_eq!(read_specific_region(&low).unwrap_err(), VhdxError::StructuralBoundsViolation);
    let misaligned = region_block(&[(REGION_BAT, MIB + 512, MIB as u32, 1)]);
    assert_eq!(read_specific_region(&misaligned).unwrap_err(), VhdxError::StructuralBoundsViolation);
    let odd_length = region_block(&[(REGION_BAT, MIB, 4096, 1)]);
    assert_eq!(read_specific_region(&odd_length).unwrap_err(), VhdxError::StructuralBoundsViolation);
}

#[test]
fn region_entry_count_limit() {
    let mut b = region_block(&[]);
    b[8..12].copy_from_slice(&2048u32.to_le_bytes());
    seal(&mut b);
    assert_eq!(read_specific_region(&b).unwrap_err(), VhdxError::StructuralBoundsViolation);
}

#[test]
fn region_signature_checksum_and_length() {
    let good = region_block(&standard_entries());
    let mut bad_sig = good.clone();
    bad_sig[3] = b'x';
    seal(&mut bad_sig);
    assert_eq!(read_specific_region(&bad_sig).unwrap_err(), VhdxError::MalformedSignature);
    let mut bad_sum = good.clone();
    bad_sum[0x8000] ^= 0x80;
    assert_eq!(read_specific_region(&bad_sum).unwrap_err(), VhdxError::ChecksumMismatch);
    assert_eq!(read_specific_region(&good[..0xffff]).unwrap_err(), VhdxError::IoFailure);
}
