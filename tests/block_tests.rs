use vhdx_inspector::block::{
    bat_entry_slot, calculate_block_values, read_bat, BatSlot, FileBlockValues, PayloadBlockState,
    PayloadEntry, SectorBlockState, SectorEntry,
};
use vhdx_inspector::error::VhdxError;
use vhdx_inspector::metadata::{FileParameters, Metadata};
use vhdx_inspector::region::{RegionTableEntry, RegionType, REGION_BAT};

fn metadata(block_size: u32, logical_sector_size: u32, virtual_disk_size: u64) -> Metadata {
    let mut m = Metadata::new();
    m.file_parameters = FileParameters { block_size, leave_block_allocated: false, has_parent: false };
    m.logical_sector_size = logical_sector_size;
    m.physical_sector_size = 4096;
    m.virtual_disk_size = virtual_disk_size;
    m
}

fn bat_region(length: u32) -> RegionTableEntry {
    RegionTableEntry {
        region_type: RegionType::BAT,
        object_id: REGION_BAT,
        object_offset: 0x30_0000,
        object_length: length,
        required: true,
    }
}

fn entry(state: u64, offset_mb: u64) -> u64 {
    (offset_mb << 20) | state
}

/// Whether index `i` of a table of `total` entries with chunk ratio 2048
/// holds a sector bitmap entry.
fn is_sector(i: u64, total: u64) -> bool {
    i % 2049 == 2048 && i + 1 < total
}

fn table(entries: &[u64]) -> Vec<u8> {
    entries.iter().flat_map(|e| e.to_le_bytes()).collect()
}

#[test]
fn worked_example_counts() {
    let m = metadata(0x200000, 512, 10 << 30);
    let v = calculate_block_values(&m, false).unwrap();
    assert_eq!(
        v,
        FileBlockValues { chunk_ratio: 2048, payload_blocks: 5120, sector_blocks: 3, total_bat_entries: 6147 }
    );
    let w = calculate_block_values(&m, true).unwrap();
    assert_eq!(w.total_bat_entries, 5120 + 2);
    assert_eq!(w.sector_blocks, 3);
}

#[test]
fn worked_example_slots() {
    assert_eq!(bat_entry_slot(2048, 2048, 6147), BatSlot::Sector(0));
    assert_eq!(bat_entry_slot(4097, 2048, 6147), BatSlot::Sector(1));
    assert_eq!(bat_entry_slot(0, 2048, 6147), BatSlot::Payload(0));
    assert_eq!(bat_entry_slot(2047, 2048, 6147), BatSlot::Payload(2047));
    assert_eq!(bat_entry_slot(2049, 2048, 6147), BatSlot::Payload(2048));
    assert_eq!(bat_entry_slot(4096, 2048, 6147), BatSlot::Payload(4095));
    assert_eq!(bat_entry_slot(4098, 2048, 6147), BatSlot::Payload(4096));
    assert_eq!(bat_entry_slot(6146, 2048, 6147), BatSlot::Payload(6144));
    let sectors: Vec<u64> = (0..6147u64)
        .filter(|&i| matches!(bat_entry_slot(i, 2048, 6147), BatSlot::Sector(_)))
        .collect();
    assert_eq!(sectors, vec![2048, 4097]);
}

#[test]
fn worked_example_table() {
    let m = metadata(0x200000, 512, 10 << 30);
    let raw: Vec<u64> = (0..6147u64).map(|i| if is_sector(i, 6147) { 0 } else { entry(6, i + 10) }).collect();
    let bytes = table(&raw);
    let (payload, sector) = read_bat(&bytes, &bat_region(0x10_0000), &m, false).unwrap();
    assert_eq!(sector.len(), 2);
    assert_eq!(payload.len(), 6145);
    assert_eq!(payload[6144].file_offset_mb, 6146 + 10);
    assert_eq!(sector[0], SectorEntry { state: SectorBlockState::NotPresent, file_offset_mb: 0 });
    assert_eq!(sector[1].state, SectorBlockState::NotPresent);
    assert_eq!(payload[0], PayloadEntry { state: PayloadBlockState::FullyPresent, file_offset_mb: 10 });
    assert_eq!(payload[2047].file_offset_mb, 2047 + 10);
    assert_eq!(payload[2048].file_offset_mb, 2049 + 10);
    assert!(payload.iter().all(|p| p.state == PayloadBlockState::FullyPresent));
}

#[test]
fn zero_entry_at_sector_position_is_a_sector_entry() {
    let m = metadata(0x200000, 512, 10 << 30);
    let mut raw: Vec<u64> = (0..6147u64).map(|i| if is_sector(i, 6147) { 6 } else { 7 }).collect();
    raw[2048] = 0;
    raw[6146] = 1;
    let (payload, sector) = read_bat(&table(&raw), &bat_region(0x10_0000), &m, false).unwrap();
    assert_eq!(sector.len(), 2);
    assert_eq!(sector[0].state, SectorBlockState::NotPresent);
    assert_eq!(sector[1].state, SectorBlockState::Present);
    assert_eq!(payload[6144].state, PayloadBlockState::Undefined);
    assert!(payload.iter().all(|p| p.state != PayloadBlockState::NotPresent));
}

#[test]
fn with_parent_shape_interleaves_the_same_way() {
    let m = metadata(0x200000, 512, 10 << 30);
    let raw: Vec<u64> = (0..5122u64).map(|i| if is_sector(i, 5122) { 6 } else { 2 }).collect();
    let (payload, sector) = read_bat(&table(&raw), &bat_region(0x10_0000), &m, true).unwrap();
    assert_eq!(payload.len(), 5120);
    assert_eq!(sector.len(), 2);
    assert!(sector.iter().all(|s| s.state == SectorBlockState::Present));
    assert!(payload.iter().all(|p| p.state == PayloadBlockState::Zero));
}

#[test]
fn state_codes_four_and_five_are_rejected_everywhere() {
    let m = metadata(0x200000, 512, 10 << 30);
    for code in [4u64, 5] {
        for index in [0usize, 1, 2047, 2048, 4097, 6146] {
            let mut raw: Vec<u64> = (0..6147u64).map(|i| if is_sector(i, 6147) { 0 } else { 1 }).collect();
            raw[index] = entry(code, 3);
            let r = read_bat(&table(&raw), &bat_region(0x10_0000), &m, false);
            assert_eq!(r.unwrap_err(), VhdxError::InvalidStateCode, "code {} at {}", code, index);
        }
        assert_eq!(PayloadEntry::new(code), Err(VhdxError::InvalidStateCode));
        assert_eq!(SectorEntry::new(code), Err(VhdxError::InvalidStateCode));
    }
}

#[test]
fn entry_decoding() {
    assert_eq!(
        PayloadEntry::new(entry(7, 0xABC)),
        Ok(PayloadEntry { state: PayloadBlockState::PartiallyPresent, file_offset_mb: 0xABC })
    );
    assert_eq!(PayloadEntry::new(3 | (0xF << 3)).unwrap().state, PayloadBlockState::Unmapped);
    assert_eq!(PayloadEntry::new(3 | (0xF << 3)).unwrap().file_offset_mb, 0);
    assert_eq!(PayloadEntry::new(u64::MAX - 1).unwrap().file_offset_mb, (1u64 << 44) - 1);
    assert_eq!(PayloadEntry::new(2).unwrap().state, PayloadBlockState::Zero);
    assert_eq!(PayloadEntry::new(1).unwrap().state, PayloadBlockState::Undefined);
    assert_eq!(SectorEntry::new(entry(6, 9)), Ok(SectorEntry { state: SectorBlockState::Present, file_offset_mb: 9 }));
    for code in [1u64, 2, 3, 7] {
        assert_eq!(SectorEntry::new(code), Err(VhdxError::InvalidStateCode));
    }
    for code in [0u64, 1, 2, 3, 6, 7] {
        assert_eq!(PayloadBlockState::from_code(code).unwrap().code(), code);
    }
    assert_eq!(SectorBlockState::Present.code(), 6);
}

#[test]
fn degenerate_block_values() {
    assert_eq!(calculate_block_values(&metadata(0x200000, 0, 1 << 30), false), Err(VhdxError::DegenerateComputation));
    assert_eq!(calculate_block_values(&metadata(0, 512, 1 << 30), false), Err(VhdxError::DegenerateComputation));
    assert_eq!(calculate_block_values(&metadata(0x200000, 512, 0), true), Err(VhdxError::DegenerateComputation));
    let empty = calculate_block_values(&metadata(0x200000, 512, 0), false).unwrap();
    assert_eq!(empty.total_bat_entries, 0);
    assert_eq!(calculate_block_values(&metadata(1, 0xFFFF_FFFF, u64::MAX), false), Err(VhdxError::DegenerateComputation));
}

#[test]
fn table_longer_than_its_region_fails() {
    let m = metadata(0x100000, 512, 8 << 20);
    let v = calculate_block_values(&m, false).unwrap();
    assert_eq!(v.total_bat_entries, 4097);
    let raw = vec![0u64; 4097];
    let r = read_bat(&table(&raw), &bat_region(64), &m, false);
    assert_eq!(r.unwrap_err(), VhdxError::StructuralBoundsViolation);
    let r = read_bat(&table(&raw[..100]), &bat_region(0x10_0000), &m, false);
    assert_eq!(r.unwrap_err(), VhdxError::IoFailure);
    let mut other = bat_region(0x10_0000);
    other.region_type = RegionType::Metadata;
    assert_eq!(read_bat(&table(&raw), &other, &m, false).unwrap_err(), VhdxError::MissingExpectedField);
}
