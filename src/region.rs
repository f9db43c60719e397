//! The region directory: the redundant table that locates the BAT and the
//! metadata region.

use crate::checksum::{check_checksum, checksum_matches};
use crate::error::VhdxError;
use crate::reader::{copy_bytes, guid_at, le_u32, le_u64, read_guid, read_u32, read_u64};
use vstd::prelude::*;

verus! {

/// Length of each copy of the region directory, the window of its checksum.
pub const REGION_TAB_LEN: usize = 0x10000;

/// File offset of the first copy of the region directory.
pub const FIRST_REGION_TAB_OFFSET: usize = 0x30000;

/// File offset of the second copy of the region directory.
pub const SECOND_REGION_TAB_OFFSET: usize = 0x40000;

/// Length of the directory header that precedes the entries.
pub const REGION_TAB_HEADER_LEN: usize = 0x10;

/// The signature `regi`, read as a little-endian 32-bit value.
pub const REGION_TAB_HEADER_SIG: u32 = 0x6967_6572;

/// Offset of the checksum field within a directory copy.
pub const REGION_TAB_CHECKSUM_OFFSET: usize = 4;

/// Length of one directory entry.
pub const REGION_TAB_ENTRY_LEN: usize = 0x20;

/// The largest number of entries a directory may declare.
pub const MAX_REGION_ENTRIES: u32 = 2047;

/// The smallest offset at which a region may start.
pub const MIN_REGION_OFFSET: u64 = 0x10_0000;

/// Region offsets are multiples of this.
pub const REGION_OFFSET_FACTOR: u64 = 0x10_0000;

/// Region lengths are multiples of this.
pub const REGION_SIZE_FACTOR: u32 = 0x10_0000;

/// Object id of the block allocation table region,
/// 2DC27766-F623-4200-9D64-115E9BFD4A08.
pub const REGION_BAT: u128 = 0x2DC2_7766_F623_4200_9D64_115E_9BFD_4A08;

/// Object id of the metadata region, 8B7CA206-4790-4B9A-B8FE-575F050F886E.
pub const REGION_METADATA: u128 = 0x8B7C_A206_4790_4B9A_B8FE_575F_050F_886E;

/// What a region holds, as its object id says.
#[derive(Clone, Copy, Debug, PartialEq, Eq, Structural)]
pub enum RegionType {
    Unknown,
    BAT,
    Metadata,
}

/// One entry of the region directory.
#[derive(Clone, Copy, Debug, PartialEq, Eq, Structural)]
pub struct RegionTableEntry {
    pub region_type: RegionType,
    pub object_id: u128,
    pub object_offset: u64,
    pub object_length: u32,
    pub required: bool,
}

/// A decoded copy of the region directory.
#[derive(Debug)]
pub struct RegionTable {
    pub checksum: u32,
    pub entry_count: u32,
    pub entries: Vec<RegionTableEntry>,
}

/// The contents of a [`RegionTable`].
pub struct RegionTableView {
    pub checksum: u32,
    pub entry_count: u32,
    pub entries: Seq<RegionTableEntry>,
}

impl View for RegionTable {
    type V = RegionTableView;

    open spec fn view(&self) -> RegionTableView {
        RegionTableView {
            checksum: self.checksum,
            entry_count: self.entry_count,
            entries: self.entries@,
        }
    }
}

/// The kind of region that an object id names.
pub open spec fn region_kind(id: u128) -> RegionType {
    if id == REGION_BAT {
        RegionType::BAT
    } else if id == REGION_METADATA {
        RegionType::Metadata
    } else {
        RegionType::Unknown
    }
}

/// The directory entry stored at `off`.
pub open spec fn region_entry_at(s: Seq<u8>, off: int) -> RegionTableEntry {
    RegionTableEntry {
        region_type: region_kind(guid_at(s, off)),
        object_id: guid_at(s, off),
        object_offset: le_u64(s, off + 16),
        object_length: le_u32(s, off + 24),
        required: le_u32(s, off + 28) & 1 != 0,
    }
}

/// Why a directory entry is not acceptable, if it is not: a misplaced or
/// misaligned region, or an unrecognised region that is required.
pub open spec fn region_entry_failure(e: RegionTableEntry) -> Option<VhdxError> {
    if e.object_offset < MIN_REGION_OFFSET || e.object_offset % REGION_OFFSET_FACTOR != 0
        || e.object_length % REGION_SIZE_FACTOR != 0 {
        Some(VhdxError::StructuralBoundsViolation)
    } else if e.region_type == RegionType::Unknown && e.required {
        Some(VhdxError::UnsupportedRequiredFeature)
    } else {
        None
    }
}

/// The offset of entry `n` within a directory copy.
pub open spec fn region_entry_offset(n: int) -> int {
    REGION_TAB_HEADER_LEN + n * REGION_TAB_ENTRY_LEN
}

/// The first `n` entries of a directory copy, or the failure of the first
/// entry among them that is not acceptable.
pub open spec fn region_entries(s: Seq<u8>, n: nat) -> Result<Seq<RegionTableEntry>, VhdxError>
    decreases n,
{
    if n == 0 {
        Ok(Seq::empty())
    } else {
        match region_entries(s, (n - 1) as nat) {
            Err(e) => Err(e),
            Ok(prefix) => {
                let entry = region_entry_at(s, region_entry_offset(n - 1));
                match region_entry_failure(entry) {
                    Some(e) => Err(e),
                    None => Ok(prefix.push(entry)),
                }
            },
        }
    }
}

/// The outcome of decoding one directory copy from the bytes read at its
/// offset: complete, signed, matching its checksum, within the entry limit,
/// and with every entry acceptable.
pub open spec fn region_copy(s: Seq<u8>) -> Result<RegionTableView, VhdxError> {
    if s.len() < REGION_TAB_LEN {
        Err(VhdxError::IoFailure)
    } else if le_u32(s, 0) != REGION_TAB_HEADER_SIG {
        Err(VhdxError::MalformedSignature)
    } else if !checksum_matches(
        s.subrange(0, REGION_TAB_LEN as int),
        REGION_TAB_CHECKSUM_OFFSET as int,
        le_u32(s, 4),
    ) {
        Err(VhdxError::ChecksumMismatch)
    } else if le_u32(s, 8) > MAX_REGION_ENTRIES {
        Err(VhdxError::StructuralBoundsViolation)
    } else {
        match region_entries(s, le_u32(s, 8) as nat) {
            Err(e) => Err(e),
            Ok(entries) => Ok(
                RegionTableView { checksum: le_u32(s, 4), entry_count: le_u32(s, 8), entries },
            ),
        }
    }
}

/// The reconciliation of the two copies: the first failure in order, else
/// the common table when both are identical, else an inconsistency.
pub open spec fn resolve_regions(
    first: Result<RegionTableView, VhdxError>,
    second: Result<RegionTableView, VhdxError>,
) -> Result<RegionTableView, VhdxError> {
    match first {
        Err(e) => Err(e),
        Ok(t1) => match second {
            Err(e) => Err(e),
            Ok(t2) => if t1 == t2 {
                Ok(t1)
            } else {
                Err(VhdxError::InconsistentRedundancy)
            },
        },
    }
}

/// The region directory decoded from the blocks read at its two offsets.
pub open spec fn region_directory(first: Seq<u8>, second: Seq<u8>) -> Result<
    RegionTableView,
    VhdxError,
> {
    resolve_regions(region_copy(first), region_copy(second))
}

impl RegionTableEntry {
    /// Decodes the directory entry at `off`, classifying its object id.
    pub fn new(block: &[u8], off: usize) -> (r: RegionTableEntry)
        requires
            off + REGION_TAB_ENTRY_LEN <= block.len(),
        ensures
            r == region_entry_at(block@, off as int),
    {
        let object_id = read_guid(block, off);
        let region_type = if object_id == REGION_BAT {
            RegionType::BAT
        } else if object_id == REGION_METADATA {
            RegionType::Metadata
        } else {
            RegionType::Unknown
        };
        RegionTableEntry {
            region_type,
            object_id,
            object_offset: read_u64(block, off + 16),
            object_length: read_u32(block, off + 24),
            required: read_u32(block, off + 28) & 1 != 0,
        }
    }
}

impl RegionTable {
    /// The header fields of a directory copy, with no entries yet.
    pub fn new(block: &[u8]) -> (r: RegionTable)
        requires
            block.len() >= REGION_TAB_HEADER_LEN,
        ensures
            r.checksum == le_u32(block@, 4),
            r.entry_count == le_u32(block@, 8),
            r.entries@.len() == 0,
    {
        RegionTable {
            checksum: read_u32(block, 4),
            entry_count: read_u32(block, 8),
            entries: Vec::new(),
        }
    }

    /// Appends an entry.
    pub fn add_entry(&mut self, entry: RegionTableEntry)
        ensures
            final(self).checksum == old(self).checksum,
            final(self).entry_count == old(self).entry_count,
            final(self).entries@ == old(self).entries@.push(entry),
    {
        self.entries.push(entry);
    }
}

impl PartialEq for RegionTable {
    fn eq(&self, other: &RegionTable) -> (r: bool) {
        if self.checksum != other.checksum || self.entry_count != other.entry_count
            || self.entries.len() != other.entries.len() {
            return false;
        }
        let mut i: usize = 0;
        while i < self.entries.len()
            invariant
                i <= self.entries@.len(),
                self.entries@.len() == other.entries@.len(),
                forall|k: int| 0 <= k < i ==> self.entries@[k] == other.entries@[k],
            decreases self.entries@.len() - i,
        {
            if self.entries[i] != other.entries[i] {
                return false;
            }
            i = i + 1;
        }
        assert(self.entries@ =~= other.entries@);
        true
    }
}

impl vstd::std_specs::cmp::PartialEqSpecImpl for RegionTable {
    open spec fn obeys_eq_spec() -> bool {
        true
    }

    open spec fn eq_spec(&self, other: &RegionTable) -> bool {
        self@ == other@
    }
}

/// Checks one directory entry against the placement rules.
fn check_region_entry_valid(entry: &RegionTableEntry) -> (r: Result<(), VhdxError>)
    ensures
        match region_entry_failure(*entry) {
            Some(e) => r == Err::<(), VhdxError>(e),
            None => r is Ok,
        },
{
    if entry.object_offset < MIN_REGION_OFFSET || entry.object_offset % REGION_OFFSET_FACTOR != 0
        || entry.object_length % REGION_SIZE_FACTOR != 0 {
        return Err(VhdxError::StructuralBoundsViolation);
    }
    if entry.region_type == RegionType::Unknown && entry.required {
        return Err(VhdxError::UnsupportedRequiredFeature);
    }
    Ok(())
}

/// Decodes and checks the directory entry at `off`.
fn read_region_entry(block: &[u8], off: usize) -> (r: Result<RegionTableEntry, VhdxError>)
    requires
        off + REGION_TAB_ENTRY_LEN <= block.len(),
    ensures
        match region_entry_failure(region_entry_at(block@, off as int)) {
            Some(e) => r == Err::<RegionTableEntry, VhdxError>(e),
            None => r == Ok::<RegionTableEntry, VhdxError>(region_entry_at(block@, off as int)),
        },
{
    let entry = RegionTableEntry::new(block, off);
    match check_region_entry_valid(&entry) {
        Err(e) => Err(e),
        Ok(()) => Ok(entry),
    }
}

/// Decodes and validates one directory copy from the bytes read at its offset.
pub fn read_specific_region(block: &[u8]) -> (r: Result<RegionTable, VhdxError>)
    ensures
        match r {
            Ok(t) => region_copy(block@) == Ok::<RegionTableView, VhdxError>(t@),
            Err(e) => region_copy(block@) == Err::<RegionTableView, VhdxError>(e),
        },
{
    if block.len() < REGION_TAB_LEN {
        return Err(VhdxError::IoFailure);
    }
    if read_u32(block, 0) != REGION_TAB_HEADER_SIG {
        return Err(VhdxError::MalformedSignature);
    }
    let mut table = RegionTable::new(block);
    let window = copy_bytes(block, 0, REGION_TAB_LEN);
    if let Err(e) = check_checksum(window, REGION_TAB_CHECKSUM_OFFSET, table.checksum) {
        return Err(e);
    }
    if table.entry_count > MAX_REGION_ENTRIES {
        return Err(VhdxError::StructuralBoundsViolation);
    }
    let count = table.entry_count as usize;
    let mut n: usize = 0;
    assert(table.entries@ =~= Seq::<RegionTableEntry>::empty());
    while n < count
        invariant
            n <= count,
            count == le_u32(block@, 8),
            count <= MAX_REGION_ENTRIES,
            block.len() >= REGION_TAB_LEN,
            le_u32(block@, 0) == REGION_TAB_HEADER_SIG,
            checksum_matches(
                block@.subrange(0, REGION_TAB_LEN as int),
                REGION_TAB_CHECKSUM_OFFSET as int,
                le_u32(block@, 4),
            ),
            table.checksum == le_u32(block@, 4),
            table.entry_count == le_u32(block@, 8),
            region_entries(block@, n as nat) == Ok::<Seq<RegionTableEntry>, VhdxError>(
                table.entries@,
            ),
        decreases count - n,
    {
        let off = REGION_TAB_HEADER_LEN + n * REGION_TAB_ENTRY_LEN;
        match read_region_entry(block, off) {
            Err(e) => {
                proof {
                    assert(region_entries(block@, (n + 1) as nat) == Err::<
                        Seq<RegionTableEntry>,
                        VhdxError,
                    >(e));
                    lemma_region_entries_fail_forward(block@, (n + 1) as nat, count as nat);
                }
                return Err(e);
            },
            Ok(entry) => table.add_entry(entry),
        }
        n = n + 1;
    }
    Ok(table)
}

/// Once a prefix of the entries fails, every longer prefix fails the same way.
proof fn lemma_region_entries_fail_forward(s: Seq<u8>, n: nat, m: nat)
    requires
        n <= m,
        region_entries(s, n) is Err,
    ensures
        region_entries(s, m) == region_entries(s, n),
    decreases m - n,
{
    if n < m {
        lemma_region_entries_fail_forward(s, n, (m - 1) as nat);
    }
}

/// Decodes both copies of the region directory, from the blocks read at the
/// first and the second directory offset, and requires them to agree.
pub fn read_region(first: &[u8], second: &[u8]) -> (r: Result<RegionTable, VhdxError>)
    ensures
        match r {
            Ok(t) => region_directory(first@, second@) == Ok::<RegionTableView, VhdxError>(t@),
            Err(e) => region_directory(first@, second@) == Err::<RegionTableView, VhdxError>(e),
        },
{
    let region1 = match read_specific_region(first) {
        Err(e) => return Err(e),
        Ok(t) => t,
    };
    let region2 = match read_specific_region(second) {
        Err(e) => return Err(e),
        Ok(t) => t,
    };
    if region1 == region2 {
        Ok(region1)
    } else {
        Err(VhdxError::InconsistentRedundancy)
    }
}

/// Decoding the region directory depends on the bytes alone: the same bytes
/// give the same entry lists, field for field, however often they are decoded.
pub proof fn lemma_region_decode_deterministic(
    first1: Seq<u8>,
    second1: Seq<u8>,
    first2: Seq<u8>,
    second2: Seq<u8>,
)
    requires
        first1 == first2,
        second1 == second2,
    ensures
        region_directory(first1, second1) == region_directory(first2, second2),
        region_copy(first1) == region_copy(first2),
        region_copy(second1) == region_copy(second2),
{
}

} // verus!
