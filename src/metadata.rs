//! The metadata region: its directory of typed entries and the values that
//! those entries point to, the parent locator among them.

use crate::error::VhdxError;
use crate::reader::{check_span, guid_at, le_u16, le_u32, le_u64, read_guid, read_u16, read_u32, read_u64, span_failure};
use crate::region::{RegionTableEntry, RegionType};
use crate::text::{contains_char, is_ascii_text, parse_uuid_text, read_utf16_text, text_is, utf16_text, utf16_units, uuid_from_text};
use vstd::prelude::*;

verus! {

/// Length of the metadata directory header.
pub const METADATA_HEADER_LEN: usize = 0x20;

/// The signature `metadata`, read as a little-endian 64-bit value.
pub const METADATA_HEADER_SIG: u64 = 0x6174_6164_6174_656d;

/// Length of one metadata directory entry.
pub const METADATA_ENTRY_LEN: usize = 0x20;

/// Length of the parent locator header.
pub const METADATA_PARENT_LOCATOR_HEADER_LEN: usize = 0x14;

/// Length of one parent locator key/value descriptor.
pub const METADATA_PARENT_LOCATOR_ENTRY_LEN: usize = 0xc;

/// CAA16737-FA36-4D43-B3B6-33F0AA44E76B
pub const METADATA_FILE_PARAMETERS: u128 = 0xCAA1_6737_FA36_4D43_B3B6_33F0_AA44_E76B;

/// 2FA54224-CD1B-4876-B211-5DBED83BF4B8
pub const METADATA_VIRTUAL_DISK_SIZE: u128 = 0x2FA5_4224_CD1B_4876_B211_5DBE_D83B_F4B8;

/// BECA12AB-B2E6-4523-93EF-C309E000C746
pub const METADATA_VIRTUAL_DISK_ID: u128 = 0xBECA_12AB_B2E6_4523_93EF_C309_E000_C746;

/// 8141BF1D-A96F-4709-BA47-F233A8FAAB5F
pub const METADATA_LOGICAL_SECTOR_SIZE: u128 = 0x8141_BF1D_A96F_4709_BA47_F233_A8FA_AB5F;

/// CDA348C7-445D-4471-9CC9-E9885251C556
pub const METADATA_PHYSICAL_SECTOR_SIZE: u128 = 0xCDA3_48C7_445D_4471_9CC9_E988_5251_C556;

/// A8D35F2D-B30B-454D-ABF7-D3D84834AB0C
pub const METADATA_PARENT_LOCATOR: u128 = 0xA8D3_5F2D_B30B_454D_ABF7_D3D8_4834_AB0C;

/// Locator type of a VHDX parent, B04AEFB7-D19E-4A81-B789-25B8E9445913.
pub const METADATA_PARENT_LOCATOR_VHDX: u128 = 0xB04A_EFB7_D19E_4A81_B789_25B8_E944_5913;

pub const METADATA_ENTRY_IS_USER_FLAG: u32 = 0b001;

pub const METADATA_ENTRY_IS_VIRTUAL_DISK_FLAG: u32 = 0b010;

pub const METADATA_ENTRY_IS_REQUIRED_FLAG: u32 = 0b100;

pub const METADATA_LEAVE_ALLOCATED_FLAG: u32 = 0b01;

pub const METADATA_HAS_PARENT_FLAG: u32 = 0b10;

pub const PARENT_LOCATOR_LINKAGE1_KEY: &'static str = "parent_linkage";

pub const PARENT_LOCATOR_LINKAGE2_KEY: &'static str = "parent_linkage2";

pub const PARENT_LOCATOR_RELATIVE_PATH_KEY: &'static str = "relative_path";

pub const PARENT_LOCATOR_VOLUME_PATH_KEY: &'static str = "volume_path";

pub const PARENT_LOCATOR_ABSOLUTE_PATH_KEY: &'static str = "absolute_win32_path";

/// What a metadata item holds, as its object id says.
#[derive(Clone, Copy, Debug, PartialEq, Eq, Structural)]
pub enum MetadataType {
    Unknown,
    FileParameters,
    VirtualDiskSize,
    VirtualDiskId,
    LogicalSectorSize,
    PhysicalSectorSize,
    ParentLocator,
}

/// One entry of the metadata directory. The offset is relative to the start
/// of the metadata region.
#[derive(Clone, Copy, Debug, PartialEq, Eq, Structural)]
pub struct MetadataTableEntry {
    pub metadata_type: MetadataType,
    pub object_id: u128,
    pub object_offset: u32,
    pub object_length: u32,
    pub is_user: bool,
    pub is_virtual_disk: bool,
    pub is_required: bool,
}

/// The metadata directory.
#[derive(Debug)]
pub struct MetadataTable {
    pub entry_count: u16,
    pub entries: Vec<MetadataTableEntry>,
}

/// The contents of a [`MetadataTable`].
pub struct MetadataTableView {
    pub entry_count: u16,
    pub entries: Seq<MetadataTableEntry>,
}

impl View for MetadataTable {
    type V = MetadataTableView;

    open spec fn view(&self) -> MetadataTableView {
        MetadataTableView { entry_count: self.entry_count, entries: self.entries@ }
    }
}

/// The kind of metadata item that an object id names.
pub open spec fn metadata_kind(id: u128) -> MetadataType {
    if id == METADATA_FILE_PARAMETERS {
        MetadataType::FileParameters
    } else if id == METADATA_VIRTUAL_DISK_SIZE {
        MetadataType::VirtualDiskSize
    } else if id == METADATA_VIRTUAL_DISK_ID {
        MetadataType::VirtualDiskId
    } else if id == METADATA_LOGICAL_SECTOR_SIZE {
        MetadataType::LogicalSectorSize
    } else if id == METADATA_PHYSICAL_SECTOR_SIZE {
        MetadataType::PhysicalSectorSize
    } else if id == METADATA_PARENT_LOCATOR {
        MetadataType::ParentLocator
    } else {
        MetadataType::Unknown
    }
}

/// The directory entry stored at `off` of the region.
pub open spec fn metadata_entry_at(s: Seq<u8>, off: int) -> MetadataTableEntry {
    MetadataTableEntry {
        metadata_type: metadata_kind(guid_at(s, off)),
        object_id: guid_at(s, off),
        object_offset: le_u32(s, off + 16),
        object_length: le_u32(s, off + 20),
        is_user: le_u32(s, off + 24) & METADATA_ENTRY_IS_USER_FLAG != 0,
        is_virtual_disk: le_u32(s, off + 24) & METADATA_ENTRY_IS_VIRTUAL_DISK_FLAG != 0,
        is_required: le_u32(s, off + 24) & METADATA_ENTRY_IS_REQUIRED_FLAG != 0,
    }
}

/// An unrecognised item may be present only when it is not required.
pub open spec fn metadata_entry_failure(e: MetadataTableEntry) -> Option<VhdxError> {
    if e.metadata_type == MetadataType::Unknown && e.is_required {
        Some(VhdxError::UnsupportedRequiredFeature)
    } else {
        None
    }
}

/// The offset of directory entry `n` within the region.
pub open spec fn metadata_entry_offset(n: int) -> int {
    METADATA_HEADER_LEN + n * METADATA_ENTRY_LEN
}

/// The first `n` directory entries of the region `s`, declared `limit` bytes
/// long, or the first failure among them.
pub open spec fn metadata_entries(s: Seq<u8>, limit: int, n: nat) -> Result<
    Seq<MetadataTableEntry>,
    VhdxError,
>
    decreases n,
{
    if n == 0 {
        Ok(Seq::empty())
    } else {
        match metadata_entries(s, limit, (n - 1) as nat) {
            Err(e) => Err(e),
            Ok(prefix) => {
                let off = metadata_entry_offset(n - 1);
                match span_failure(s.len() as int, limit, off, METADATA_ENTRY_LEN as int) {
                    Some(e) => Err(e),
                    None => {
                        let entry = metadata_entry_at(s, off);
                        match metadata_entry_failure(entry) {
                            Some(e) => Err(e),
                            None => Ok(prefix.push(entry)),
                        }
                    },
                }
            },
        }
    }
}

/// The directory phase: the header must be there and signed, and each of the
/// entries it declares must fit in the region and be acceptable.
pub open spec fn metadata_directory(s: Seq<u8>, limit: int) -> Result<MetadataTableView, VhdxError> {
    match span_failure(s.len() as int, limit, 0, METADATA_HEADER_LEN as int) {
        Some(e) => Err(e),
        None => if le_u64(s, 0) != METADATA_HEADER_SIG {
            Err(VhdxError::MalformedSignature)
        } else {
            match metadata_entries(s, limit, le_u16(s, 10) as nat) {
                Err(e) => Err(e),
                Ok(entries) => Ok(MetadataTableView { entry_count: le_u16(s, 10), entries }),
            }
        },
    }
}

/// Once a prefix of the entries fails, every longer prefix fails the same way.
proof fn lemma_metadata_entries_fail_forward(s: Seq<u8>, limit: int, n: nat, m: nat)
    requires
        n <= m,
        metadata_entries(s, limit, n) is Err,
    ensures
        metadata_entries(s, limit, m) == metadata_entries(s, limit, n),
    decreases m - n,
{
    if n < m {
        lemma_metadata_entries_fail_forward(s, limit, n, (m - 1) as nat);
    }
}

impl MetadataTableEntry {
    /// Decodes the directory entry at `off` of the region, classifying its
    /// object id.
    pub fn new(data: &[u8], off: usize) -> (r: MetadataTableEntry)
        requires
            off + METADATA_ENTRY_LEN <= data.len(),
        ensures
            r == metadata_entry_at(data@, off as int),
    {
        let object_id = read_guid(data, off);
        let metadata_type = if object_id == METADATA_FILE_PARAMETERS {
            MetadataType::FileParameters
        } else if object_id == METADATA_VIRTUAL_DISK_SIZE {
            MetadataType::VirtualDiskSize
        } else if object_id == METADATA_VIRTUAL_DISK_ID {
            MetadataType::VirtualDiskId
        } else if object_id == METADATA_LOGICAL_SECTOR_SIZE {
            MetadataType::LogicalSectorSize
        } else if object_id == METADATA_PHYSICAL_SECTOR_SIZE {
            MetadataType::PhysicalSectorSize
        } else if object_id == METADATA_PARENT_LOCATOR {
            MetadataType::ParentLocator
        } else {
            MetadataType::Unknown
        };
        let flags = read_u32(data, off + 24);
        MetadataTableEntry {
            metadata_type,
            object_id,
            object_offset: read_u32(data, off + 16),
            object_length: read_u32(data, off + 20),
            is_user: flags & METADATA_ENTRY_IS_USER_FLAG != 0,
            is_virtual_disk: flags & METADATA_ENTRY_IS_VIRTUAL_DISK_FLAG != 0,
            is_required: flags & METADATA_ENTRY_IS_REQUIRED_FLAG != 0,
        }
    }
}

impl MetadataTable {
    /// The entry count of the directory header, with no entries yet.
    pub fn new(data: &[u8]) -> (r: MetadataTable)
        requires
            data.len() >= METADATA_HEADER_LEN,
        ensures
            r.entry_count == le_u16(data@, 10),
            r.entries@.len() == 0,
    {
        MetadataTable { entry_count: read_u16(data, 10), entries: Vec::new() }
    }

    /// Appends an entry.
    pub fn add_entry(&mut self, entry: MetadataTableEntry)
        ensures
            final(self).entry_count == old(self).entry_count,
            final(self).entries@ == old(self).entries@.push(entry),
    {
        self.entries.push(entry);
    }
}

fn check_metadata_table_entry_valid(entry: &MetadataTableEntry) -> (r: Result<(), VhdxError>)
    ensures
        match metadata_entry_failure(*entry) {
            Some(e) => r == Err::<(), VhdxError>(e),
            None => r is Ok,
        },
{
    if entry.metadata_type == MetadataType::Unknown && entry.is_required {
        Err(VhdxError::UnsupportedRequiredFeature)
    } else {
        Ok(())
    }
}

/// Decodes and checks the directory entry at `off` of a region declared
/// `limit` bytes long.
pub fn read_metadata_entry(data: &[u8], limit: u64, off: u64) -> (r: Result<MetadataTableEntry, VhdxError>)
    requires
        off + METADATA_ENTRY_LEN <= u64::MAX,
    ensures
        match span_failure(data@.len() as int, limit as int, off as int, METADATA_ENTRY_LEN as int) {
            Some(e) => r == Err::<MetadataTableEntry, VhdxError>(e),
            None => match metadata_entry_failure(metadata_entry_at(data@, off as int)) {
                Some(e) => r == Err::<MetadataTableEntry, VhdxError>(e),
                None => r == Ok::<MetadataTableEntry, VhdxError>(metadata_entry_at(data@, off as int)),
            },
        },
{
    if let Err(e) = check_span(data, limit, off, METADATA_ENTRY_LEN as u64) {
        return Err(e);
    }
    let entry = MetadataTableEntry::new(data, off as usize);
    match check_metadata_table_entry_valid(&entry) {
        Err(e) => Err(e),
        Ok(()) => Ok(entry),
    }
}

/// Decodes the metadata directory at the start of the region `data`, declared
/// `limit` bytes long.
pub fn read_metadata_table(data: &[u8], limit: u64) -> (r: Result<MetadataTable, VhdxError>)
    ensures
        match r {
            Ok(t) => metadata_directory(data@, limit as int) == Ok::<MetadataTableView, VhdxError>(t@),
            Err(e) => metadata_directory(data@, limit as int) == Err::<MetadataTableView, VhdxError>(e),
        },
{
    if let Err(e) = check_span(data, limit, 0, METADATA_HEADER_LEN as u64) {
        return Err(e);
    }
    if read_u64(data, 0) != METADATA_HEADER_SIG {
        return Err(VhdxError::MalformedSignature);
    }
    let mut table = MetadataTable::new(data);
    let count = table.entry_count as u64;
    let mut n: u64 = 0;
    assert(table.entries@ =~= Seq::<MetadataTableEntry>::empty());
    while n < count
        invariant
            n <= count,
            count == le_u16(data@, 10),
            data.len() >= METADATA_HEADER_LEN,
            limit >= METADATA_HEADER_LEN,
            le_u64(data@, 0) == METADATA_HEADER_SIG,
            table.entry_count == le_u16(data@, 10),
            metadata_entries(data@, limit as int, n as nat) == Ok::<
                Seq<MetadataTableEntry>,
                VhdxError,
            >(table.entries@),
        decreases count - n,
    {
        let off: u64 = METADATA_HEADER_LEN as u64 + n * METADATA_ENTRY_LEN as u64;
        match read_metadata_entry(data, limit, off) {
            Err(e) => {
                proof {
                    lemma_metadata_entries_fail_forward(
                        data@,
                        limit as int,
                        (n + 1) as nat,
                        count as nat,
                    );
                }
                return Err(e);
            },
            Ok(entry) => table.add_entry(entry),
        }
        n = n + 1;
    }
    Ok(table)
}

/// The file parameters item.
#[derive(Clone, Copy, Debug, PartialEq, Eq, Structural)]
pub struct FileParameters {
    pub block_size: u32,
    pub leave_block_allocated: bool,
    pub has_parent: bool,
}

/// The file parameters stored at `off`: a block size and a flag word.
pub open spec fn file_parameters_at(s: Seq<u8>, off: int) -> FileParameters {
    FileParameters {
        block_size: le_u32(s, off),
        leave_block_allocated: le_u32(s, off + 4) & METADATA_LEAVE_ALLOCATED_FLAG != 0,
        has_parent: le_u32(s, off + 4) & METADATA_HAS_PARENT_FLAG != 0,
    }
}

impl FileParameters {
    /// Decodes the file parameters stored at `off`.
    pub fn new(data: &[u8], off: usize) -> (r: FileParameters)
        requires
            off + 8 <= data.len(),
        ensures
            r == file_parameters_at(data@, off as int),
    {
        let block_size = read_u32(data, off);
        let flags = read_u32(data, off + 4);
        FileParameters {
            block_size,
            leave_block_allocated: flags & METADATA_LEAVE_ALLOCATED_FLAG != 0,
            has_parent: flags & METADATA_HAS_PARENT_FLAG != 0,
        }
    }
}

/// One key/value pair of the parent locator, with the descriptor that
/// locates it. Offsets are relative to the start of the metadata region and
/// lengths are in bytes.
#[derive(Debug)]
pub struct ParentLocatorEntry {
    pub key_offset: u32,
    pub value_offset: u32,
    pub key_length: u16,
    pub value_length: u16,
    pub key: String,
    pub value: String,
}

/// The contents of a [`ParentLocatorEntry`].
pub struct ParentLocatorEntryView {
    pub key_offset: u32,
    pub value_offset: u32,
    pub key_length: u16,
    pub value_length: u16,
    pub key: Seq<char>,
    pub value: Seq<char>,
}

impl View for ParentLocatorEntry {
    type V = ParentLocatorEntryView;

    open spec fn view(&self) -> ParentLocatorEntryView {
        ParentLocatorEntryView {
            key_offset: self.key_offset,
            value_offset: self.value_offset,
            key_length: self.key_length,
            value_length: self.value_length,
            key: self.key@,
            value: self.value@,
        }
    }
}

/// The key/value pair whose descriptor is stored at `d`, in a region `s`
/// declared `limit` bytes long: the descriptor and both strings must lie in
/// the region, and both strings must be valid UTF-16. A string of `n` bytes
/// holds `n / 2` code units.
pub open spec fn locator_entry_at(s: Seq<u8>, limit: int, d: int) -> Result<
    ParentLocatorEntryView,
    VhdxError,
> {
    match span_failure(s.len() as int, limit, d, METADATA_PARENT_LOCATOR_ENTRY_LEN as int) {
        Some(e) => Err(e),
        None => {
            let key_offset = le_u32(s, d);
            let value_offset = le_u32(s, d + 4);
            let key_length = le_u16(s, d + 8);
            let value_length = le_u16(s, d + 10);
            match span_failure(s.len() as int, limit, key_offset as int, 2 * (key_length / 2)) {
                Some(e) => Err(e),
                None => match span_failure(
                    s.len() as int,
                    limit,
                    value_offset as int,
                    2 * (value_length / 2),
                ) {
                    Some(e) => Err(e),
                    None => match utf16_text(utf16_units(s, key_offset as int, (key_length / 2) as int)) {
                        None => Err(VhdxError::MissingExpectedField),
                        Some(key) => match utf16_text(
                            utf16_units(s, value_offset as int, (value_length / 2) as int),
                        ) {
                            None => Err(VhdxError::MissingExpectedField),
                            Some(value) => Ok(
                                ParentLocatorEntryView {
                                    key_offset,
                                    value_offset,
                                    key_length,
                                    value_length,
                                    key,
                                    value,
                                },
                            ),
                        },
                    },
                },
            }
        },
    }
}

/// A key or a value that holds a null character is not acceptable.
pub open spec fn locator_entry_failure(e: ParentLocatorEntryView) -> Option<VhdxError> {
    if e.key.contains('\0') || e.value.contains('\0') {
        Some(VhdxError::MissingExpectedField)
    } else {
        None
    }
}

impl ParentLocatorEntry {
    /// Decodes the key/value pair whose descriptor is stored at `off` of the
    /// region `data`, declared `limit` bytes long.
    pub fn new(data: &[u8], limit: u64, off: u64) -> (r: Result<ParentLocatorEntry, VhdxError>)
        requires
            off + METADATA_PARENT_LOCATOR_ENTRY_LEN <= u64::MAX,
        ensures
            match r {
                Ok(e) => locator_entry_at(data@, limit as int, off as int) == Ok::<
                    ParentLocatorEntryView,
                    VhdxError,
                >(e@),
                Err(x) => locator_entry_at(data@, limit as int, off as int) == Err::<
                    ParentLocatorEntryView,
                    VhdxError,
                >(x),
            },
    {
        if let Err(e) = check_span(data, limit, off, METADATA_PARENT_LOCATOR_ENTRY_LEN as u64) {
            return Err(e);
        }
        let d = off as usize;
        let key_offset = read_u32(data, d);
        let value_offset = read_u32(data, d + 4);
        let key_length = read_u16(data, d + 8);
        let value_length = read_u16(data, d + 10);
        let key_units = (key_length / 2) as u64;
        let value_units = (value_length / 2) as u64;
        if let Err(e) = check_span(data, limit, key_offset as u64, 2 * key_units) {
            return Err(e);
        }
        if let Err(e) = check_span(data, limit, value_offset as u64, 2 * value_units) {
            return Err(e);
        }
        let key = match read_utf16_text(data, key_offset as usize, key_units as usize) {
            None => return Err(VhdxError::MissingExpectedField),
            Some(k) => k,
        };
        let value = match read_utf16_text(data, value_offset as usize, value_units as usize) {
            None => return Err(VhdxError::MissingExpectedField),
            Some(v) => v,
        };
        Ok(ParentLocatorEntry { key_offset, value_offset, key_length, value_length, key, value })
    }
}

fn check_parent_locator_entry_valid(entry: &ParentLocatorEntry) -> (r: Result<(), VhdxError>)
    ensures
        match locator_entry_failure(entry@) {
            Some(e) => r == Err::<(), VhdxError>(e),
            None => r is Ok,
        },
{
    if contains_char(entry.key.as_str(), '\0') || contains_char(entry.value.as_str(), '\0') {
        Err(VhdxError::MissingExpectedField)
    } else {
        Ok(())
    }
}

/// Decodes and checks the key/value pair whose descriptor is stored at `off`.
fn read_parent_locator_entry(data: &[u8], limit: u64, off: u64) -> (r: Result<
    ParentLocatorEntry,
    VhdxError,
>)
    requires
        off + METADATA_PARENT_LOCATOR_ENTRY_LEN <= u64::MAX,
    ensures
        match locator_entry_at(data@, limit as int, off as int) {
            Err(x) => r == Err::<ParentLocatorEntry, VhdxError>(x),
            Ok(v) => match locator_entry_failure(v) {
                Some(x) => r == Err::<ParentLocatorEntry, VhdxError>(x),
                None => r is Ok && r->Ok_0@ == v,
            },
        },
{
    let entry = match ParentLocatorEntry::new(data, limit, off) {
        Err(e) => return Err(e),
        Ok(e) => e,
    };
    match check_parent_locator_entry_valid(&entry) {
        Err(e) => Err(e),
        Ok(()) => Ok(entry),
    }
}

/// The kind of parent that a locator type id names.
#[derive(Clone, Copy, Debug, PartialEq, Eq, Structural)]
pub enum ParentLocatorType {
    Unknown,
    Vhdx,
}

/// The kind of parent that a locator type id names.
pub open spec fn locator_kind(id: u128) -> ParentLocatorType {
    if id == METADATA_PARENT_LOCATOR_VHDX {
        ParentLocatorType::Vhdx
    } else {
        ParentLocatorType::Unknown
    }
}

/// The parent locator item as stored: its header and its key/value pairs.
#[derive(Debug)]
pub struct ParentLocatorDict {
    pub locator_type: ParentLocatorType,
    pub locator_type_id: u128,
    pub key_value_count: u16,
    pub entries: Vec<ParentLocatorEntry>,
}

/// The contents of a [`ParentLocatorDict`].
pub struct ParentLocatorDictView {
    pub locator_type: ParentLocatorType,
    pub locator_type_id: u128,
    pub key_value_count: u16,
    pub entries: Seq<ParentLocatorEntryView>,
}

impl View for ParentLocatorDict {
    type V = ParentLocatorDictView;

    open spec fn view(&self) -> ParentLocatorDictView {
        ParentLocatorDictView {
            locator_type: self.locator_type,
            locator_type_id: self.locator_type_id,
            key_value_count: self.key_value_count,
            entries: self.entries@.map_values(|e: ParentLocatorEntry| e@),
        }
    }
}

impl ParentLocatorDict {
    /// Decodes the parent locator header stored at `off`, with no pairs yet.
    pub fn new(data: &[u8], off: usize) -> (r: ParentLocatorDict)
        requires
            off + METADATA_PARENT_LOCATOR_HEADER_LEN <= data.len(),
        ensures
            r.locator_type_id == guid_at(data@, off as int),
            r.locator_type == locator_kind(r.locator_type_id),
            r.key_value_count == le_u16(data@, off + 18),
            r.entries@.len() == 0,
    {
        let locator_type_id = read_guid(data, off);
        let locator_type = if locator_type_id == METADATA_PARENT_LOCATOR_VHDX {
            ParentLocatorType::Vhdx
        } else {
            ParentLocatorType::Unknown
        };
        ParentLocatorDict {
            locator_type,
            locator_type_id,
            key_value_count: read_u16(data, off + 18),
            entries: Vec::new(),
        }
    }

    /// Appends a key/value pair.
    pub fn add_entry(&mut self, entry: ParentLocatorEntry)
        ensures
            final(self).locator_type == old(self).locator_type,
            final(self).locator_type_id == old(self).locator_type_id,
            final(self).key_value_count == old(self).key_value_count,
            final(self)@.entries == old(self)@.entries.push(entry@),
    {
        let ghost before = self.entries@;
        self.entries.push(entry);
        assert(self.entries@.map_values(|e: ParentLocatorEntry| e@) =~= before.map_values(
            |e: ParentLocatorEntry| e@,
        ).push(entry@));
    }
}

/// Where the parent of a differencing disk is to be found.
#[derive(Debug)]
pub struct ParentLocator {
    pub locator_type: ParentLocatorType,
    pub parent_linkage: u128,
    pub parent_linkage2: u128,
    pub relative_path: String,
    pub volume_path: String,
    pub absolute_win32_path: String,
}

/// The contents of a [`ParentLocator`].
pub struct ParentLocatorView {
    pub locator_type: ParentLocatorType,
    pub parent_linkage: u128,
    pub parent_linkage2: u128,
    pub relative_path: Seq<char>,
    pub volume_path: Seq<char>,
    pub absolute_win32_path: Seq<char>,
}

impl View for ParentLocator {
    type V = ParentLocatorView;

    open spec fn view(&self) -> ParentLocatorView {
        ParentLocatorView {
            locator_type: self.locator_type,
            parent_linkage: self.parent_linkage,
            parent_linkage2: self.parent_linkage2,
            relative_path: self.relative_path@,
            volume_path: self.volume_path@,
            absolute_win32_path: self.absolute_win32_path@,
        }
    }
}

/// A locator with no key recorded yet.
pub open spec fn empty_locator() -> ParentLocatorView {
    ParentLocatorView {
        locator_type: ParentLocatorType::Unknown,
        parent_linkage: 0,
        parent_linkage2: 0,
        relative_path: Seq::empty(),
        volume_path: Seq::empty(),
        absolute_win32_path: Seq::empty(),
    }
}

/// `loc` with the pair `key`/`value` recorded, where `linkage` is the GUID
/// that `value` spells, if it spells one. The two linkage keys take that
/// GUID and fail without one; the three path keys take the value as it
/// stands; any other key fails.
pub open spec fn locator_update(
    loc: ParentLocatorView,
    key: Seq<char>,
    value: Seq<char>,
    linkage: Option<u128>,
) -> Result<ParentLocatorView, VhdxError> {
    if key == PARENT_LOCATOR_LINKAGE1_KEY@ {
        match linkage {
            Some(id) => Ok(ParentLocatorView { parent_linkage: id, ..loc }),
            None => Err(VhdxError::MissingExpectedField),
        }
    } else if key == PARENT_LOCATOR_LINKAGE2_KEY@ {
        match linkage {
            Some(id) => Ok(ParentLocatorView { parent_linkage2: id, ..loc }),
            None => Err(VhdxError::MissingExpectedField),
        }
    } else if key == PARENT_LOCATOR_RELATIVE_PATH_KEY@ {
        Ok(ParentLocatorView { relative_path: value, ..loc })
    } else if key == PARENT_LOCATOR_VOLUME_PATH_KEY@ {
        Ok(ParentLocatorView { volume_path: value, ..loc })
    } else if key == PARENT_LOCATOR_ABSOLUTE_PATH_KEY@ {
        Ok(ParentLocatorView { absolute_win32_path: value, ..loc })
    } else {
        Err(VhdxError::MissingExpectedField)
    }
}

/// `loc` with the pair `key`/`value` recorded, a linkage value being read as
/// GUID text.
pub open spec fn apply_locator_pair(loc: ParentLocatorView, key: Seq<char>, value: Seq<char>) -> Result<
    ParentLocatorView,
    VhdxError,
> {
    locator_update(loc, key, value, uuid_from_text(value))
}

impl ParentLocator {
    /// A locator with no key recorded yet.
    pub fn new() -> (r: ParentLocator)
        ensures
            r@ == empty_locator(),
    {
        ParentLocator {
            locator_type: ParentLocatorType::Unknown,
            parent_linkage: 0,
            parent_linkage2: 0,
            relative_path: String::new(),
            volume_path: String::new(),
            absolute_win32_path: String::new(),
        }
    }

    /// Records the pair `key`/`value`; `linkage` is the GUID that `value`
    /// spells, where it spells one, and is read for the linkage keys only. On
    /// failure the locator is left as it was.
    pub fn set_value(&mut self, key: &String, value: &String, linkage: Option<u128>) -> (r: Result<
        (),
        VhdxError,
    >)
        ensures
            match locator_update(old(self)@, key@, value@, linkage) {
                Ok(l) => r is Ok && final(self)@ == l,
                Err(e) => r == Err::<(), VhdxError>(e) && final(self)@ == old(self)@,
            },
    {
        if text_is(key, PARENT_LOCATOR_LINKAGE1_KEY) {
            match linkage {
                Some(id) => {
                    self.parent_linkage = id;
                    Ok(())
                },
                None => Err(VhdxError::MissingExpectedField),
            }
        } else if text_is(key, PARENT_LOCATOR_LINKAGE2_KEY) {
            match linkage {
                Some(id) => {
                    self.parent_linkage2 = id;
                    Ok(())
                },
                None => Err(VhdxError::MissingExpectedField),
            }
        } else if text_is(key, PARENT_LOCATOR_RELATIVE_PATH_KEY) {
            self.relative_path = value.clone();
            Ok(())
        } else if text_is(key, PARENT_LOCATOR_VOLUME_PATH_KEY) {
            self.volume_path = value.clone();
            Ok(())
        } else if text_is(key, PARENT_LOCATOR_ABSOLUTE_PATH_KEY) {
            self.absolute_win32_path = value.clone();
            Ok(())
        } else {
            Err(VhdxError::MissingExpectedField)
        }
    }

    /// Records the pair `key`/`value`, reading a linkage value as GUID text.
    /// On failure the locator is left as it was. A linkage value that cannot
    /// be a GUID by its length, such as `not-a-uuid`, fails the pair rather
    /// than leaving a zero GUID behind.
    pub fn add_pair(&mut self, key: &String, value: &String) -> (r: Result<(), VhdxError>)
        ensures
            match apply_locator_pair(old(self)@, key@, value@) {
                Ok(l) => r is Ok && final(self)@ == l,
                Err(e) => r == Err::<(), VhdxError>(e) && final(self)@ == old(self)@,
            },
            (key@ == PARENT_LOCATOR_LINKAGE1_KEY@ || key@ == PARENT_LOCATOR_LINKAGE2_KEY@)
                && is_ascii_text(value@) && value@.len() != 32 && value@.len() != 36
                && value@.len() != 38 && value@.len() != 45 ==> r == Err::<(), VhdxError>(
                VhdxError::MissingExpectedField,
            ),
    {
        let linkage = if text_is(key, PARENT_LOCATOR_LINKAGE1_KEY) || text_is(
            key,
            PARENT_LOCATOR_LINKAGE2_KEY,
        ) {
            parse_uuid_text(value.as_str())
        } else {
            None
        };
        self.set_value(key, value, linkage)
    }
}

/// The offset of descriptor `n` of the parent locator stored at `base`.
pub open spec fn locator_descriptor_offset(base: int, n: int) -> int {
    base + METADATA_PARENT_LOCATOR_HEADER_LEN + n * METADATA_PARENT_LOCATOR_ENTRY_LEN
}

/// The first `n` pairs of the parent locator stored at `base`, and the
/// locator they make up, or the first failure among them.
pub open spec fn locator_pairs(s: Seq<u8>, limit: int, base: int, n: nat) -> Result<
    (Seq<ParentLocatorEntryView>, ParentLocatorView),
    VhdxError,
>
    decreases n,
{
    if n == 0 {
        Ok((Seq::empty(), empty_locator()))
    } else {
        match locator_pairs(s, limit, base, (n - 1) as nat) {
            Err(e) => Err(e),
            Ok((entries, loc)) => match locator_entry_at(
                s,
                limit,
                locator_descriptor_offset(base, n - 1),
            ) {
                Err(e) => Err(e),
                Ok(entry) => match locator_entry_failure(entry) {
                    Some(e) => Err(e),
                    None => match apply_locator_pair(loc, entry.key, entry.value) {
                        Err(e) => Err(e),
                        Ok(next) => Ok((entries.push(entry), next)),
                    },
                },
            },
        }
    }
}

/// The parent locator item stored at `off`: its header, then as many pairs
/// as the header declares. The locator takes the kind of the header's type id.
pub open spec fn parent_locator_at(s: Seq<u8>, limit: int, off: int) -> Result<
    (ParentLocatorDictView, ParentLocatorView),
    VhdxError,
> {
    match span_failure(s.len() as int, limit, off, METADATA_PARENT_LOCATOR_HEADER_LEN as int) {
        Some(e) => Err(e),
        None => {
            let id = guid_at(s, off);
            let count = le_u16(s, off + 18);
            match locator_pairs(s, limit, off, count as nat) {
                Err(e) => Err(e),
                Ok((entries, loc)) => Ok(
                    (
                        ParentLocatorDictView {
                            locator_type: locator_kind(id),
                            locator_type_id: id,
                            key_value_count: count,
                            entries,
                        },
                        ParentLocatorView { locator_type: locator_kind(id), ..loc },
                    ),
                ),
            }
        },
    }
}

proof fn lemma_locator_pairs_fail_forward(s: Seq<u8>, limit: int, base: int, n: nat, m: nat)
    requires
        n <= m,
        locator_pairs(s, limit, base, n) is Err,
    ensures
        locator_pairs(s, limit, base, m) == locator_pairs(s, limit, base, n),
    decreases m - n,
{
    if n < m {
        lemma_locator_pairs_fail_forward(s, limit, base, n, (m - 1) as nat);
    }
}

/// Decodes the parent locator item that `item` points to, in the region
/// `data` declared `limit` bytes long.
pub fn read_parent_locator(data: &[u8], limit: u64, item: &MetadataTableEntry) -> (r: Result<
    (ParentLocatorDict, ParentLocator),
    VhdxError,
>)
    ensures
        match r {
            Ok((d, l)) => parent_locator_at(data@, limit as int, item.object_offset as int) == Ok::<
                (ParentLocatorDictView, ParentLocatorView),
                VhdxError,
            >((d@, l@)),
            Err(e) => parent_locator_at(data@, limit as int, item.object_offset as int) == Err::<
                (ParentLocatorDictView, ParentLocatorView),
                VhdxError,
            >(e),
        },
{
    let base = item.object_offset as u64;
    if let Err(e) = check_span(data, limit, base, METADATA_PARENT_LOCATOR_HEADER_LEN as u64) {
        return Err(e);
    }
    let mut dict = ParentLocatorDict::new(data, base as usize);
    let mut locator = ParentLocator::new();
    let count = dict.key_value_count as u64;
    let mut n: u64 = 0;
    assert(dict@.entries =~= Seq::<ParentLocatorEntryView>::empty());
    while n < count
        invariant
            n <= count,
            count <= u16::MAX,
            base <= u32::MAX,
            base == item.object_offset,
            base + METADATA_PARENT_LOCATOR_HEADER_LEN <= data.len(),
            dict.locator_type_id == guid_at(data@, base as int),
            dict.locator_type == locator_kind(dict.locator_type_id),
            count == dict.key_value_count,
            dict.key_value_count == le_u16(data@, base + 18),
            locator_pairs(data@, limit as int, base as int, n as nat) == Ok::<
                (Seq<ParentLocatorEntryView>, ParentLocatorView),
                VhdxError,
            >((dict@.entries, locator@)),
        decreases count - n,
    {
        assert(n * (METADATA_PARENT_LOCATOR_ENTRY_LEN as u64) < 0x10_0000) by (nonlinear_arith)
            requires
                n < 0x1_0000,
                METADATA_PARENT_LOCATOR_ENTRY_LEN == 0xc,
        ;
        let step: u64 = n * (METADATA_PARENT_LOCATOR_ENTRY_LEN as u64);
        let off: u64 = base + METADATA_PARENT_LOCATOR_HEADER_LEN as u64 + step;
        let entry = match read_parent_locator_entry(data, limit, off) {
            Err(e) => {
                proof {
                    lemma_locator_pairs_fail_forward(
                        data@,
                        limit as int,
                        base as int,
                        (n + 1) as nat,
                        count as nat,
                    );
                }
                return Err(e);
            },
            Ok(e) => e,
        };
        if let Err(e) = locator.add_pair(&entry.key, &entry.value) {
            proof {
                lemma_locator_pairs_fail_forward(
                    data@,
                    limit as int,
                    base as int,
                    (n + 1) as nat,
                    count as nat,
                );
            }
            return Err(e);
        }
        dict.add_entry(entry);
        n = n + 1;
    }
    locator.locator_type = dict.locator_type;
    Ok((dict, locator))
}

/// The values that the metadata directory points to.
#[derive(Debug)]
pub struct Metadata {
    pub file_parameters: FileParameters,
    pub virtual_disk_size: u64,
    pub virtual_disk_id: u128,
    pub logical_sector_size: u32,
    pub physical_sector_size: u32,
    pub parent_locator_dict: Option<ParentLocatorDict>,
    pub parent_locator: Option<ParentLocator>,
}

/// The contents of a [`Metadata`].
pub struct MetadataView {
    pub file_parameters: FileParameters,
    pub virtual_disk_size: u64,
    pub virtual_disk_id: u128,
    pub logical_sector_size: u32,
    pub physical_sector_size: u32,
    pub parent_locator_dict: Option<ParentLocatorDictView>,
    pub parent_locator: Option<ParentLocatorView>,
}

impl View for Metadata {
    type V = MetadataView;

    open spec fn view(&self) -> MetadataView {
        MetadataView {
            file_parameters: self.file_parameters,
            virtual_disk_size: self.virtual_disk_size,
            virtual_disk_id: self.virtual_disk_id,
            logical_sector_size: self.logical_sector_size,
            physical_sector_size: self.physical_sector_size,
            parent_locator_dict: match self.parent_locator_dict {
                Some(d) => Some(d@),
                None => None,
            },
            parent_locator: match self.parent_locator {
                Some(l) => Some(l@),
                None => None,
            },
        }
    }
}

/// Metadata before any item has been read: every value zero and no parent
/// locator.
pub open spec fn empty_metadata() -> MetadataView {
    MetadataView {
        file_parameters: FileParameters {
            block_size: 0,
            leave_block_allocated: false,
            has_parent: false,
        },
        virtual_disk_size: 0,
        virtual_disk_id: 0,
        logical_sector_size: 0,
        physical_sector_size: 0,
        parent_locator_dict: None,
        parent_locator: None,
    }
}

/// `m` with the item that `e` points to read from the region `s`, declared
/// `limit` bytes long. The value must lie in the region; an item of unknown
/// kind cannot be read.
pub open spec fn apply_metadata_item(
    s: Seq<u8>,
    limit: int,
    m: MetadataView,
    e: MetadataTableEntry,
) -> Result<MetadataView, VhdxError> {
    let off = e.object_offset as int;
    let len = s.len() as int;
    match e.metadata_type {
        MetadataType::FileParameters => match span_failure(len, limit, off, 8) {
            Some(x) => Err(x),
            None => Ok(MetadataView { file_parameters: file_parameters_at(s, off), ..m }),
        },
        MetadataType::VirtualDiskSize => match span_failure(len, limit, off, 8) {
            Some(x) => Err(x),
            None => Ok(MetadataView { virtual_disk_size: le_u64(s, off), ..m }),
        },
        MetadataType::VirtualDiskId => match span_failure(len, limit, off, 16) {
            Some(x) => Err(x),
            None => Ok(MetadataView { virtual_disk_id: guid_at(s, off), ..m }),
        },
        MetadataType::LogicalSectorSize => match span_failure(len, limit, off, 4) {
            Some(x) => Err(x),
            None => Ok(MetadataView { logical_sector_size: le_u32(s, off), ..m }),
        },
        MetadataType::PhysicalSectorSize => match span_failure(len, limit, off, 4) {
            Some(x) => Err(x),
            None => Ok(MetadataView { physical_sector_size: le_u32(s, off), ..m }),
        },
        MetadataType::ParentLocator => match parent_locator_at(s, limit, off) {
            Err(x) => Err(x),
            Ok((d, l)) => Ok(
                MetadataView { parent_locator_dict: Some(d), parent_locator: Some(l), ..m },
            ),
        },
        MetadataType::Unknown => Err(VhdxError::UnsupportedRequiredFeature),
    }
}

/// The values of the first `n` directory entries, read in directory order, a
/// later item of a kind replacing an earlier one; or the first failure.
pub open spec fn metadata_items(
    s: Seq<u8>,
    limit: int,
    entries: Seq<MetadataTableEntry>,
    n: nat,
) -> Result<MetadataView, VhdxError>
    decreases n,
{
    if n == 0 {
        Ok(empty_metadata())
    } else {
        match metadata_items(s, limit, entries, (n - 1) as nat) {
            Err(e) => Err(e),
            Ok(m) => apply_metadata_item(s, limit, m, entries[n - 1]),
        }
    }
}

/// A disk that declares a parent must carry a parent locator.
pub open spec fn metadata_failure(m: MetadataView) -> Option<VhdxError> {
    if m.file_parameters.has_parent && m.parent_locator is None {
        Some(VhdxError::MissingExpectedField)
    } else {
        None
    }
}

/// The outcome of decoding the metadata region `s`, located by `region`: the
/// directory phase, then the value of every entry, then the cross-check.
pub open spec fn metadata_region(s: Seq<u8>, region: RegionTableEntry) -> Result<
    (MetadataTableView, MetadataView),
    VhdxError,
> {
    if region.region_type != RegionType::Metadata {
        Err(VhdxError::MissingExpectedField)
    } else {
        let limit = region.object_length as int;
        match metadata_directory(s, limit) {
            Err(e) => Err(e),
            Ok(t) => match metadata_items(s, limit, t.entries, t.entries.len()) {
                Err(e) => Err(e),
                Ok(m) => match metadata_failure(m) {
                    Some(e) => Err(e),
                    None => Ok((t, m)),
                },
            },
        }
    }
}

proof fn lemma_metadata_items_fail_forward(
    s: Seq<u8>,
    limit: int,
    entries: Seq<MetadataTableEntry>,
    n: nat,
    m: nat,
)
    requires
        n <= m,
        metadata_items(s, limit, entries, n) is Err,
    ensures
        metadata_items(s, limit, entries, m) == metadata_items(s, limit, entries, n),
    decreases m - n,
{
    if n < m {
        lemma_metadata_items_fail_forward(s, limit, entries, n, (m - 1) as nat);
    }
}

fn read_file_parameters(data: &[u8], limit: u64, item: &MetadataTableEntry) -> (r: Result<
    FileParameters,
    VhdxError,
>)
    ensures
        match span_failure(data@.len() as int, limit as int, item.object_offset as int, 8) {
            Some(e) => r == Err::<FileParameters, VhdxError>(e),
            None => r == Ok::<FileParameters, VhdxError>(
                file_parameters_at(data@, item.object_offset as int),
            ),
        },
{
    let off = item.object_offset as u64;
    match check_span(data, limit, off, 8) {
        Err(e) => Err(e),
        Ok(()) => Ok(FileParameters::new(data, off as usize)),
    }
}

fn read_virtual_disk_size(data: &[u8], limit: u64, item: &MetadataTableEntry) -> (r: Result<
    u64,
    VhdxError,
>)
    ensures
        match span_failure(data@.len() as int, limit as int, item.object_offset as int, 8) {
            Some(e) => r == Err::<u64, VhdxError>(e),
            None => r == Ok::<u64, VhdxError>(le_u64(data@, item.object_offset as int)),
        },
{
    let off = item.object_offset as u64;
    match check_span(data, limit, off, 8) {
        Err(e) => Err(e),
        Ok(()) => Ok(read_u64(data, off as usize)),
    }
}

fn read_virtual_disk_id(data: &[u8], limit: u64, item: &MetadataTableEntry) -> (r: Result<
    u128,
    VhdxError,
>)
    ensures
        match span_failure(data@.len() as int, limit as int, item.object_offset as int, 16) {
            Some(e) => r == Err::<u128, VhdxError>(e),
            None => r == Ok::<u128, VhdxError>(guid_at(data@, item.object_offset as int)),
        },
{
    let off = item.object_offset as u64;
    match check_span(data, limit, off, 16) {
        Err(e) => Err(e),
        Ok(()) => Ok(read_guid(data, off as usize)),
    }
}

fn read_logical_sector_size(data: &[u8], limit: u64, item: &MetadataTableEntry) -> (r: Result<
    u32,
    VhdxError,
>)
    ensures
        match span_failure(data@.len() as int, limit as int, item.object_offset as int, 4) {
            Some(e) => r == Err::<u32, VhdxError>(e),
            None => r == Ok::<u32, VhdxError>(le_u32(data@, item.object_offset as int)),
        },
{
    let off = item.object_offset as u64;
    match check_span(data, limit, off, 4) {
        Err(e) => Err(e),
        Ok(()) => Ok(read_u32(data, off as usize)),
    }
}

fn read_physical_sector_size(data: &[u8], limit: u64, item: &MetadataTableEntry) -> (r: Result<
    u32,
    VhdxError,
>)
    ensures
        match span_failure(data@.len() as int, limit as int, item.object_offset as int, 4) {
            Some(e) => r == Err::<u32, VhdxError>(e),
            None => r == Ok::<u32, VhdxError>(le_u32(data@, item.object_offset as int)),
        },
{
    let off = item.object_offset as u64;
    match check_span(data, limit, off, 4) {
        Err(e) => Err(e),
        Ok(()) => Ok(read_u32(data, off as usize)),
    }
}

impl Metadata {
    /// Metadata before any item has been read.
    pub fn new() -> (r: Metadata)
        ensures
            r@ == empty_metadata(),
    {
        Metadata {
            file_parameters: FileParameters {
                block_size: 0,
                leave_block_allocated: false,
                has_parent: false,
            },
            virtual_disk_size: 0,
            virtual_disk_id: 0,
            logical_sector_size: 0,
            physical_sector_size: 0,
            parent_locator_dict: None,
            parent_locator: None,
        }
    }
}

/// Reads the value of every directory entry of `table` from the region
/// `data`, declared `limit` bytes long.
fn read_metadata_values(data: &[u8], limit: u64, table: &MetadataTable) -> (r: Result<
    Metadata,
    VhdxError,
>)
    ensures
        match r {
            Ok(m) => metadata_items(data@, limit as int, table.entries@, table.entries@.len())
                == Ok::<MetadataView, VhdxError>(m@),
            Err(e) => metadata_items(data@, limit as int, table.entries@, table.entries@.len())
                == Err::<MetadataView, VhdxError>(e),
        },
{
    let mut metadata = Metadata::new();
    let mut i: usize = 0;
    while i < table.entries.len()
        invariant
            i <= table.entries@.len(),
            metadata_items(data@, limit as int, table.entries@, i as nat) == Ok::<
                MetadataView,
                VhdxError,
            >(metadata@),
        decreases table.entries@.len() - i,
    {
        let item = &table.entries[i];
        let step: Result<(), VhdxError> = match item.metadata_type {
            MetadataType::FileParameters => match read_file_parameters(data, limit, item) {
                Err(e) => Err(e),
                Ok(v) => {
                    metadata.file_parameters = v;
                    Ok(())
                },
            },
            MetadataType::VirtualDiskSize => match read_virtual_disk_size(data, limit, item) {
                Err(e) => Err(e),
                Ok(v) => {
                    metadata.virtual_disk_size = v;
                    Ok(())
                },
            },
            MetadataType::VirtualDiskId => match read_virtual_disk_id(data, limit, item) {
                Err(e) => Err(e),
                Ok(v) => {
                    metadata.virtual_disk_id = v;
                    Ok(())
                },
            },
            MetadataType::LogicalSectorSize => match read_logical_sector_size(data, limit, item) {
                Err(e) => Err(e),
                Ok(v) => {
                    metadata.logical_sector_size = v;
                    Ok(())
                },
            },
            MetadataType::PhysicalSectorSize => match read_physical_sector_size(
                data,
                limit,
                item,
            ) {
                Err(e) => Err(e),
                Ok(v) => {
                    metadata.physical_sector_size = v;
                    Ok(())
                },
            },
            MetadataType::ParentLocator => match read_parent_locator(data, limit, item) {
                Err(e) => Err(e),
                Ok((d, l)) => {
                    metadata.parent_locator_dict = Some(d);
                    metadata.parent_locator = Some(l);
                    Ok(())
                },
            },
            MetadataType::Unknown => Err(VhdxError::UnsupportedRequiredFeature),
        };
        if let Err(e) = step {
            proof {
                lemma_metadata_items_fail_forward(
                    data@,
                    limit as int,
                    table.entries@,
                    (i + 1) as nat,
                    table.entries@.len(),
                );
            }
            return Err(e);
        }
        i = i + 1;
    }
    Ok(metadata)
}

fn check_metadata_valid(metadata: &Metadata) -> (r: Result<(), VhdxError>)
    ensures
        match metadata_failure(metadata@) {
            Some(e) => r == Err::<(), VhdxError>(e),
            None => r is Ok,
        },
{
    if metadata.file_parameters.has_parent && metadata.parent_locator.is_none() {
        Err(VhdxError::MissingExpectedField)
    } else {
        Ok(())
    }
}

/// Decodes the metadata region: `data` holds the bytes read from the start
/// of the region that `region_data` describes.
pub fn read_metadata(data: &[u8], region_data: &RegionTableEntry) -> (r: Result<
    (MetadataTable, Metadata),
    VhdxError,
>)
    ensures
        match r {
            Ok((t, m)) => metadata_region(data@, *region_data) == Ok::<
                (MetadataTableView, MetadataView),
                VhdxError,
            >((t@, m@)),
            Err(e) => metadata_region(data@, *region_data) == Err::<
                (MetadataTableView, MetadataView),
                VhdxError,
            >(e),
        },
{
    if region_data.region_type != RegionType::Metadata {
        return Err(VhdxError::MissingExpectedField);
    }
    let limit = region_data.object_length as u64;
    let table = match read_metadata_table(data, limit) {
        Err(e) => return Err(e),
        Ok(t) => t,
    };
    let metadata = match read_metadata_values(data, limit, &table) {
        Err(e) => return Err(e),
        Ok(m) => m,
    };
    match check_metadata_valid(&metadata) {
        Err(e) => Err(e),
        Ok(()) => Ok((table, metadata)),
    }
}

/// Up to an entry `k` that lies in the region and in the bytes, the
/// directory phase either succeeds or fails on an unrecognised required item.
proof fn lemma_entries_ok_or_unsupported(s: Seq<u8>, limit: int, k: nat, n: nat)
    requires
        n <= k,
        span_failure(s.len() as int, limit, metadata_entry_offset(k as int), METADATA_ENTRY_LEN as int)
            is None,
    ensures
        metadata_entries(s, limit, n) is Ok || metadata_entries(s, limit, n) == Err::<
            Seq<MetadataTableEntry>,
            VhdxError,
        >(VhdxError::UnsupportedRequiredFeature),
    decreases n,
{
    if n > 0 {
        lemma_entries_ok_or_unsupported(s, limit, k, (n - 1) as nat);
        assert(metadata_entry_offset(n - 1) < metadata_entry_offset(k as int)) by (nonlinear_arith)
            requires
                n - 1 < k,
        ;
    }
}

/// A directory entry whose object id is not recognised and that is marked
/// required aborts the decode of the metadata region with
/// `UnsupportedRequiredFeature`, wherever it stands in a well-formed
/// directory.
pub proof fn lemma_required_unknown_aborts(s: Seq<u8>, region: RegionTableEntry, k: nat)
    requires
        region.region_type == RegionType::Metadata,
        span_failure(s.len() as int, region.object_length as int, 0, METADATA_HEADER_LEN as int)
            is None,
        le_u64(s, 0) == METADATA_HEADER_SIG,
        k < le_u16(s, 10),
        span_failure(
            s.len() as int,
            region.object_length as int,
            metadata_entry_offset(k as int),
            METADATA_ENTRY_LEN as int,
        ) is None,
        metadata_kind(guid_at(s, metadata_entry_offset(k as int))) == MetadataType::Unknown,
        metadata_entry_at(s, metadata_entry_offset(k as int)).is_required,
    ensures
        metadata_region(s, region) == Err::<(MetadataTableView, MetadataView), VhdxError>(
            VhdxError::UnsupportedRequiredFeature,
        ),
{
    let limit = region.object_length as int;
    lemma_entries_ok_or_unsupported(s, limit, k, k);
    assert(metadata_entries(s, limit, k + 1) == Err::<Seq<MetadataTableEntry>, VhdxError>(
        VhdxError::UnsupportedRequiredFeature,
    ));
    lemma_metadata_entries_fail_forward(s, limit, k + 1, le_u16(s, 10) as nat);
}

} // verus!
