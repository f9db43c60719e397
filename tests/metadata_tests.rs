use vhdx_inspector::error::VhdxError;
use vhdx_inspector::metadata::{
    read_metadata, MetadataType, ParentLocator, ParentLocatorType, METADATA_FILE_PARAMETERS,
    METADATA_LOGICAL_SECTOR_SIZE, METADATA_PARENT_LOCATOR, METADATA_PARENT_LOCATOR_VHDX,
    METADATA_PHYSICAL_SECTOR_SIZE, METADATA_VIRTUAL_DISK_ID, METADATA_VIRTUAL_DISK_SIZE,
};
use vhdx_inspector::region::{RegionTableEntry, RegionType, REGION_METADATA};

const REGION_LEN: usize = 0x10_0000;

fn guid_bytes(id: u128) -> [u8; 16] {
    uuid::Uuid::from_u128(id).to_bytes_le()
}

fn utf16(text: &str) -> Vec<u8> {
    text.encode_utf16().flat_map(|u| u.to_le_bytes()).collect()
}

struct Region {
    bytes: Vec<u8>,
    entries: usize,
    next_value: usize,
}

impl Region {
    fn new() -> Region {
        let mut bytes = vec![0u8; REGION_LEN];
        bytes[0..8].copy_from_slice(b"metadata");
        Region { bytes, entries: 0, next_value: 0x10000 }
    }

    fn put(&mut self, value: &[u8]) -> usize {
        let at = self.next_value;
        self.bytes[at..at + value.len()].copy_from_slice(value);
        self.next_value += (value.len() + 15) / 16 * 16 + 16;
        at
    }

    fn entry(&mut self, id: u128, offset: usize, length: u32, flags: u32) {
        let o = 32 + 32 * self.entries;
        self.bytes[o..o + 16].copy_from_slice(&guid_bytes(id));
        self.bytes[o + 16..o + 20].copy_from_slice(&(offset as u32).to_le_bytes());
        self.bytes[o + 20..o + 24].copy_from_slice(&length.to_le_bytes());
        self.bytes[o + 24..o + 28].copy_from_slice(&flags.to_le_bytes());
        self.entries += 1;
        self.bytes[10..12].copy_from_slice(&(self.entries as u16).to_le_bytes());
    }

    fn item(&mut self, id: u128, value: &[u8], flags: u32) {
        let at = self.put(value);
        self.entry(id, at, value.len() as u32, flags);
    }

    fn locator(&mut self, type_id: u128, pairs: &[(&str, &str)]) {
        let mut header = Vec::new();
        header.extend_from_slice(&guid_bytes(type_id));
        header.extend_from_slice(&[0, 0]);
        header.extend_from_slice(&(pairs.len() as u16).to_le_bytes());
        let mut descriptors = Vec::new();
        for (key, value) in pairs {
            let k = utf16(key);
            let v = utf16(value);
            let ko = self.put(&k);
            let vo = self.put(&v);
            descriptors.extend_from_slice(&(ko as u32).to_le_bytes());
            descriptors.extend_from_slice(&(vo as u32).to_le_bytes());
            descriptors.extend_from_slice(&(k.len() as u16).to_le_bytes());
            descriptors.extend_from_slice(&(v.len() as u16).to_le_bytes());
        }
        header.extend_from_slice(&descriptors);
        self.item(METADATA_PARENT_LOCATOR, &header, 4);
    }

    fn standard(has_parent: bool) -> Region {
        let mut r = Region::new();
        let flags: u32 = if has_parent { 0b11 } else { 0b01 };
        let mut fp = Vec::new();
        fp.extend_from_slice(&0x200000u32.to_le_bytes());
        fp.extend_from_slice(&flags.to_le_bytes());
        r.item(METADATA_FILE_PARAMETERS, &fp, 4);
        r.item(METADATA_VIRTUAL_DISK_SIZE, &(10u64 << 30).to_le_bytes(), 6);
        r.item(METADATA_VIRTUAL_DISK_ID, &guid_bytes(0x0011_2233_4455_6677_8899_aabb_ccdd_eeff), 6);
        r.item(METADATA_LOGICAL_SECTOR_SIZE, &512u32.to_le_bytes(), 6);
        r.item(METADATA_PHYSICAL_SECTOR_SIZE, &4096u32.to_le_bytes(), 6);
        r
    }
}

fn region_entry() -> RegionTableEntry {
    RegionTableEntry {
        region_type: RegionType::Metadata,
        object_id: REGION_METADATA,
        object_offset: 0x20_0000,
        object_length: REGION_LEN as u32,
        required: true,
    }
}

const PARENT_ID: &str = "{12345678-9abc-def0-1234-56789abcdef0}";

#[test]
fn metadata_values_are_decoded() {
    let r = Region::standard(false);
    let (table, m) = read_metadata(&r.bytes, &region_entry()).unwrap();
    assert_eq!(table.entry_count, 5);
    assert_eq!(table.entries[0].metadata_type, MetadataType::FileParameters);
    assert!(table.entries[0].is_required);
    assert!(!table.entries[0].is_user);
    assert!(table.entries[1].is_virtual_disk);
    assert_eq!(table.entries[4].metadata_type, MetadataType::PhysicalSectorSize);
    assert_eq!(table.entries[1].object_offset, 0x10000 + 32);
    assert_eq!(table.entries[1].object_length, 8);
    assert_eq!(m.file_parameters.block_size, 0x200000);
    assert!(m.file_parameters.leave_block_allocated);
    assert!(!m.file_parameters.has_parent);
    assert_eq!(m.virtual_disk_size, 10u64 << 30);
    assert_eq!(m.virtual_disk_id, 0x0011_2233_4455_6677_8899_aabb_ccdd_eeff);
    assert_eq!(m.logical_sector_size, 512);
    assert_eq!(m.physical_sector_size, 4096);
    assert!(m.parent_locator.is_none());
    assert!(m.parent_locator_dict.is_none());
}

#[test]
fn metadata_guid_constants_match_their_text() {
    let text = [
        (METADATA_FILE_PARAMETERS, "CAA16737-FA36-4D43-B3B6-33F0AA44E76B"),
        (METADATA_VIRTUAL_DISK_SIZE, "2FA54224-CD1B-4876-B211-5DBED83BF4B8"),
        (METADATA_VIRTUAL_DISK_ID, "BECA12AB-B2E6-4523-93EF-C309E000C746"),
        (METADATA_LOGICAL_SECTOR_SIZE, "8141BF1D-A96F-4709-BA47-F233A8FAAB5F"),
        (METADATA_PHYSICAL_SECTOR_SIZE, "CDA348C7-445D-4471-9CC9-E9885251C556"),
        (METADATA_PARENT_LOCATOR, "A8D35F2D-B30B-454D-ABF7-D3D84834AB0C"),
        (METADATA_PARENT_LOCATOR_VHDX, "B04AEFB7-D19E-4A81-B789-25B8E9445913"),
    ];
    for (id, t) in text {
        assert_eq!(id, uuid::Uuid::parse_str(t).unwrap().as_u128());
    }
}

#[test]
fn parent_locator_is_resolved() {
    let mut r = Region::standard(true);
    r.locator(
        METADATA_PARENT_LOCATOR_VHDX,
        &[
            ("parent_linkage", PARENT_ID),
            ("parent_linkage2", "00000000-0000-0000-0000-000000000001"),
            ("relative_path", "..\\base.vhdx"),
            ("volume_path", "\\\\?\\Volume{0}\\base.vhdx"),
            ("absolute_win32_path", "C:\\disks\\base.vhdx"),
        ],
    );
    let (_, m) = read_metadata(&r.bytes, &region_entry()).unwrap();
    let dict = m.parent_locator_dict.unwrap();
    assert_eq!(dict.locator_type, ParentLocatorType::Vhdx);
    assert_eq!(dict.locator_type_id, METADATA_PARENT_LOCATOR_VHDX);
    assert_eq!(dict.key_value_count, 5);
    assert_eq!(dict.entries.len(), 5);
    assert_eq!(dict.entries[0].key, "parent_linkage");
    assert_eq!(dict.entries[0].key_length, 28);
    assert_eq!(dict.entries[0].value, PARENT_ID);
    let loc = m.parent_locator.unwrap();
    assert_eq!(loc.locator_type, ParentLocatorType::Vhdx);
    assert_eq!(loc.parent_linkage, 0x12345678_9abc_def0_1234_56789abcdef0);
    assert_eq!(loc.parent_linkage2, 1);
    assert_eq!(loc.relative_path, "..\\base.vhdx");
    assert_eq!(loc.volume_path, "\\\\?\\Volume{0}\\base.vhdx");
    assert_eq!(loc.absolute_win32_path, "C:\\disks\\base.vhdx");
}

#[test]
fn unknown_locator_type_is_kept() {
    let mut r = Region::standard(true);
    r.locator(0x42, &[("relative_path", "a.vhdx")]);
    let (_, m) = read_metadata(&r.bytes, &region_entry()).unwrap();
    assert_eq!(m.parent_locator.unwrap().locator_type, ParentLocatorType::Unknown);
    assert_eq!(m.parent_locator_dict.unwrap().locator_type_id, 0x42);
}

#[test]
fn linkage_that_is_not_a_uuid_fails() {
    let mut r = Region::standard(true);
    r.locator(METADATA_PARENT_LOCATOR_VHDX, &[("parent_linkage", "not-a-uuid")]);
    let e = read_metadata(&r.bytes, &region_entry()).unwrap_err();
    assert_eq!(e, VhdxError::MissingExpectedField);
}

#[test]
fn locator_linkage_takes_the_parsed_value() {
    let key = String::from("parent_linkage");
    let value = String::from("not-a-uuid");
    let mut loc = ParentLocator::new();
    assert_eq!(loc.set_value(&key, &value, None), Err(VhdxError::MissingExpectedField));
    assert_eq!(loc.parent_linkage, 0);
    assert_eq!(loc.set_value(&key, &value, Some(77)), Ok(()));
    assert_eq!(loc.parent_linkage, 77);
    assert_eq!(loc.add_pair(&key, &value), Err(VhdxError::MissingExpectedField));
    assert_eq!(loc.parent_linkage, 77);
    let path = String::from("relative_path");
    assert_eq!(loc.set_value(&path, &value, Some(5)), Ok(()));
    assert_eq!(loc.relative_path, "not-a-uuid");
    assert_eq!(loc.parent_linkage, 77);
}

#[test]
fn unknown_locator_key_fails() {
    let mut r = Region::standard(true);
    r.locator(METADATA_PARENT_LOCATOR_VHDX, &[("parent_path", "x")]);
    assert_eq!(read_metadata(&r.bytes, &region_entry()).unwrap_err(), VhdxError::MissingExpectedField);
}

#[test]
fn embedded_null_in_locator_text_fails() {
    let mut r = Region::standard(true);
    r.locator(METADATA_PARENT_LOCATOR_VHDX, &[("relative_path", "a\u{0}b")]);
    assert_eq!(read_metadata(&r.bytes, &region_entry()).unwrap_err(), VhdxError::MissingExpectedField);
}

#[test]
fn invalid_utf16_in_locator_text_fails() {
    let mut r = Region::standard(true);
    r.locator(METADATA_PARENT_LOCATOR_VHDX, &[("relative_path", "ab")]);
    // Replace the value's first unit with a lone high surrogate.
    let bytes = &mut r.bytes;
    let pos = (0..bytes.len() - 4).find(|&i| bytes[i..i + 4] == [b'a', 0, b'b', 0]).unwrap();
    bytes[pos..pos + 2].copy_from_slice(&0xD800u16.to_le_bytes());
    assert_eq!(read_metadata(&r.bytes, &region_entry()).unwrap_err(), VhdxError::MissingExpectedField);
}

#[test]
fn has_parent_requires_a_locator() {
    let r = Region::standard(true);
    assert_eq!(read_metadata(&r.bytes, &region_entry()).unwrap_err(), VhdxError::MissingExpectedField);
}

#[test]
fn required_unknown_metadata_item_is_unsupported() {
    let mut r = Region::standard(false);
    r.item(0xdead_beef, &[1, 2, 3, 4], 4);
    r.item(METADATA_LOGICAL_SECTOR_SIZE, &4096u32.to_le_bytes(), 4);
    assert_eq!(read_metadata(&r.bytes, &region_entry()).unwrap_err(), VhdxError::UnsupportedRequiredFeature);
}

#[test]
fn optional_unknown_metadata_item_still_fails_when_read() {
    let mut r = Region::standard(false);
    r.item(0xdead_beef, &[1, 2, 3, 4], 1);
    assert_eq!(read_metadata(&r.bytes, &region_entry()).unwrap_err(), VhdxError::UnsupportedRequiredFeature);
}

#[test]
fn later_metadata_item_replaces_earlier_one() {
    let mut r = Region::standard(false);
    r.item(METADATA_LOGICAL_SECTOR_SIZE, &4096u32.to_le_bytes(), 4);
    let (_, m) = read_metadata(&r.bytes, &region_entry()).unwrap();
    assert_eq!(m.logical_sector_size, 4096);
}

#[test]
fn metadata_signature_is_checked() {
    let mut r = Region::standard(false);
    r.bytes[0] = b'M';
    assert_eq!(read_metadata(&r.bytes, &region_entry()).unwrap_err(), VhdxError::MalformedSignature);
}

#[test]
fn metadata_value_outside_region_is_a_bounds_violation() {
    let mut r = Region::new();
    r.entry(METADATA_VIRTUAL_DISK_SIZE, REGION_LEN - 4, 8, 4);
    assert_eq!(read_metadata(&r.bytes, &region_entry()).unwrap_err(), VhdxError::StructuralBoundsViolation);
    let mut short = Region::standard(false);
    short.bytes.truncate(0x10010);
    assert_eq!(read_metadata(&short.bytes, &region_entry()).unwrap_err(), VhdxError::IoFailure);
}

#[test]
fn metadata_directory_must_fit_the_region() {
    let mut r = Region::new();
    r.bytes[10..12].copy_from_slice(&u16::MAX.to_le_bytes());
    let mut small = region_entry();
    small.object_length = 0x1000;
    assert_eq!(read_metadata(&r.bytes, &small).unwrap_err(), VhdxError::StructuralBoundsViolation);
}

#[test]
fn metadata_needs_the_metadata_region() {
    let r = Region::standard(false);
    let mut other = region_entry();
    other.region_type = RegionType::BAT;
    assert_eq!(read_metadata(&r.bytes, &other).unwrap_err(), VhdxError::MissingExpectedField);
}
