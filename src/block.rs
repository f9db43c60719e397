//! The block allocation table: how many entries it has, which of them
//! describe payload blocks and which sector bitmap blocks, and what each says.

use crate::error::VhdxError;
use crate::maths::{ceil_div, floor_div, lemma_ceiling_divide_bounds, SpecificDivide};
use crate::metadata::{Metadata, MetadataView};
use crate::reader::{le_u64, read_u64};
use crate::region::{RegionTableEntry, RegionType};
use vstd::arithmetic::div_mod::{lemma_fundamental_div_mod, lemma_fundamental_div_mod_converse};
use vstd::prelude::*;

verus! {

/// The number of sectors that one sector bitmap block describes, 2^23.
pub const CHUNK_RATIO_MULTIPLIER: u64 = 0x80_0000;

/// Length of one table entry.
pub const BAT_ENTRY_LEN: u64 = 8;

/// The bits of an entry that hold its state code.
pub const BAT_ENTRY_STATE_MASK: u64 = 0b111;

/// The bits of an entry that hold its file offset, in units of 1 MiB from
/// bit 20 on.
pub const BAT_ENTRY_OFFSET_MASK: u64 = 0xFFFF_FFFF_FFF0_0000;

/// The state of a payload block. Codes 4 and 5 are not states.
#[derive(Clone, Copy, Debug, PartialEq, Eq, Structural)]
pub enum PayloadBlockState {
    NotPresent,
    Undefined,
    Zero,
    Unmapped,
    FullyPresent,
    PartiallyPresent,
}

/// The payload state that a state code stands for.
pub open spec fn payload_state_of(code: u64) -> Option<PayloadBlockState> {
    if code == 0 {
        Some(PayloadBlockState::NotPresent)
    } else if code == 1 {
        Some(PayloadBlockState::Undefined)
    } else if code == 2 {
        Some(PayloadBlockState::Zero)
    } else if code == 3 {
        Some(PayloadBlockState::Unmapped)
    } else if code == 6 {
        Some(PayloadBlockState::FullyPresent)
    } else if code == 7 {
        Some(PayloadBlockState::PartiallyPresent)
    } else {
        None
    }
}

impl PayloadBlockState {
    /// The state that `code` stands for, if any.
    pub fn from_code(code: u64) -> (r: Option<PayloadBlockState>)
        ensures
            r == payload_state_of(code),
    {
        if code == 0 {
            Some(PayloadBlockState::NotPresent)
        } else if code == 1 {
            Some(PayloadBlockState::Undefined)
        } else if code == 2 {
            Some(PayloadBlockState::Zero)
        } else if code == 3 {
            Some(PayloadBlockState::Unmapped)
        } else if code == 6 {
            Some(PayloadBlockState::FullyPresent)
        } else if code == 7 {
            Some(PayloadBlockState::PartiallyPresent)
        } else {
            None
        }
    }

    /// The state code of this state.
    pub fn code(&self) -> (r: u64)
        ensures
            payload_state_of(r) == Some(*self),
    {
        match self {
            PayloadBlockState::NotPresent => 0,
            PayloadBlockState::Undefined => 1,
            PayloadBlockState::Zero => 2,
            PayloadBlockState::Unmapped => 3,
            PayloadBlockState::FullyPresent => 6,
            PayloadBlockState::PartiallyPresent => 7,
        }
    }
}

/// The state of a sector bitmap block.
#[derive(Clone, Copy, Debug, PartialEq, Eq, Structural)]
pub enum SectorBlockState {
    NotPresent,
    Present,
}

/// The sector bitmap state that a state code stands for.
pub open spec fn sector_state_of(code: u64) -> Option<SectorBlockState> {
    if code == 0 {
        Some(SectorBlockState::NotPresent)
    } else if code == 6 {
        Some(SectorBlockState::Present)
    } else {
        None
    }
}

impl SectorBlockState {
    /// The state that `code` stands for, if any.
    pub fn from_code(code: u64) -> (r: Option<SectorBlockState>)
        ensures
            r == sector_state_of(code),
    {
        if code == 0 {
            Some(SectorBlockState::NotPresent)
        } else if code == 6 {
            Some(SectorBlockState::Present)
        } else {
            None
        }
    }

    /// The state code of this state.
    pub fn code(&self) -> (r: u64)
        ensures
            sector_state_of(r) == Some(*self),
    {
        match self {
            SectorBlockState::NotPresent => 0,
            SectorBlockState::Present => 6,
        }
    }
}

/// The state code held in an entry.
pub open spec fn entry_state_code(raw: u64) -> u64 {
    raw & BAT_ENTRY_STATE_MASK
}

/// The file offset, in MiB, held in an entry.
pub open spec fn entry_offset_mb(raw: u64) -> u64 {
    (raw & BAT_ENTRY_OFFSET_MASK) >> 20u64
}

/// A table entry that describes a payload block.
#[derive(Clone, Copy, Debug, PartialEq, Eq, Structural)]
pub struct PayloadEntry {
    pub state: PayloadBlockState,
    pub file_offset_mb: u64,
}

/// The payload entry that a raw entry encodes, if its state code is valid for
/// a payload block.
pub open spec fn payload_entry_of(raw: u64) -> Result<PayloadEntry, VhdxError> {
    match payload_state_of(entry_state_code(raw)) {
        Some(state) => Ok(PayloadEntry { state, file_offset_mb: entry_offset_mb(raw) }),
        None => Err(VhdxError::InvalidStateCode),
    }
}

impl PayloadEntry {
    /// Decodes a raw entry as a payload entry.
    pub fn new(raw: u64) -> (r: Result<PayloadEntry, VhdxError>)
        ensures
            r == payload_entry_of(raw),
    {
        match PayloadBlockState::from_code(raw & BAT_ENTRY_STATE_MASK) {
            Some(state) => Ok(
                PayloadEntry { state, file_offset_mb: (raw & BAT_ENTRY_OFFSET_MASK) >> 20u64 },
            ),
            None => Err(VhdxError::InvalidStateCode),
        }
    }
}

/// A table entry that describes a sector bitmap block.
#[derive(Clone, Copy, Debug, PartialEq, Eq, Structural)]
pub struct SectorEntry {
    pub state: SectorBlockState,
    pub file_offset_mb: u64,
}

/// The sector bitmap entry that a raw entry encodes, if its state code is
/// valid for a sector bitmap block.
pub open spec fn sector_entry_of(raw: u64) -> Result<SectorEntry, VhdxError> {
    match sector_state_of(entry_state_code(raw)) {
        Some(state) => Ok(SectorEntry { state, file_offset_mb: entry_offset_mb(raw) }),
        None => Err(VhdxError::InvalidStateCode),
    }
}

impl SectorEntry {
    /// Decodes a raw entry as a sector bitmap entry.
    pub fn new(raw: u64) -> (r: Result<SectorEntry, VhdxError>)
        ensures
            r == sector_entry_of(raw),
    {
        match SectorBlockState::from_code(raw & BAT_ENTRY_STATE_MASK) {
            Some(state) => Ok(
                SectorEntry { state, file_offset_mb: (raw & BAT_ENTRY_OFFSET_MASK) >> 20u64 },
            ),
            None => Err(VhdxError::InvalidStateCode),
        }
    }
}

/// The counts that size the table.
#[derive(Clone, Copy, Debug, PartialEq, Eq, Structural)]
pub struct FileBlockValues {
    pub chunk_ratio: u64,
    pub payload_blocks: u64,
    pub sector_blocks: u64,
    pub total_bat_entries: u64,
}

/// The table's counts for a disk of `block_size`, `logical_sector_size` and
/// `virtual_disk_size`. With a parent the total is
/// `payload + floor((payload - 1) / chunk_ratio)`; without one it is
/// `sector * (chunk_ratio + 1)`. Which entries are sector bitmap entries is
/// [`bat_slot`]'s rule. A zero block size or chunk ratio, or a total that is
/// negative or does not fit in 64 bits, is degenerate.
pub open spec fn block_values(
    block_size: u32,
    logical_sector_size: u32,
    virtual_disk_size: u64,
    has_parent: bool,
) -> Result<FileBlockValues, VhdxError> {
    if block_size == 0 {
        Err(VhdxError::DegenerateComputation)
    } else {
        let chunk_ratio = (CHUNK_RATIO_MULTIPLIER * logical_sector_size) / (block_size as int);
        let payload = ceil_div(virtual_disk_size as int, block_size as int);
        let sector = ceil_div(payload, chunk_ratio);
        let total = if has_parent {
            payload + floor_div(payload - 1, chunk_ratio)
        } else {
            sector * (chunk_ratio + 1)
        };
        if chunk_ratio == 0 || total < 0 || total > u64::MAX {
            Err(VhdxError::DegenerateComputation)
        } else {
            Ok(
                FileBlockValues {
                    chunk_ratio: chunk_ratio as u64,
                    payload_blocks: payload as u64,
                    sector_blocks: sector as u64,
                    total_bat_entries: total as u64,
                },
            )
        }
    }
}

/// The table's counts for the disk that `m` describes.
pub open spec fn metadata_block_values(m: MetadataView, has_parent: bool) -> Result<
    FileBlockValues,
    VhdxError,
> {
    block_values(
        m.file_parameters.block_size,
        m.logical_sector_size,
        m.virtual_disk_size,
        has_parent,
    )
}

/// Computes the table's counts from the disk's metadata. `has_parent` says
/// whether this decode follows a chain of differencing disks.
pub fn calculate_block_values(file_data: &Metadata, has_parent: bool) -> (r: Result<
    FileBlockValues,
    VhdxError,
>)
    ensures
        r == metadata_block_values(file_data@, has_parent),
{
    let block_size = file_data.file_parameters.block_size as u64;
    if block_size == 0 {
        return Err(VhdxError::DegenerateComputation);
    }
    let chunk_ratio: u64 = (CHUNK_RATIO_MULTIPLIER * file_data.logical_sector_size as u64)
        / block_size;
    if chunk_ratio == 0 {
        return Err(VhdxError::DegenerateComputation);
    }
    let payload_blocks = u64::ceiling_divide(file_data.virtual_disk_size, block_size);
    let sector_blocks = u64::ceiling_divide(payload_blocks, chunk_ratio);
    let total = if has_parent {
        if payload_blocks == 0 {
            proof {
                lemma_fundamental_div_mod_converse(-1, chunk_ratio as int, -1, chunk_ratio - 1);
            }
            return Err(VhdxError::DegenerateComputation);
        }
        payload_blocks.checked_add(u64::floor_divide(payload_blocks - 1, chunk_ratio))
    } else {
        sector_blocks.checked_mul(chunk_ratio + 1)
    };
    match total {
        None => Err(VhdxError::DegenerateComputation),
        Some(total_bat_entries) => Ok(
            FileBlockValues { chunk_ratio, payload_blocks, sector_blocks, total_bat_entries },
        ),
    }
}

/// Where a table entry goes: to the payload entries or to the sector bitmap
/// entries, at the given position among them.
#[derive(Clone, Copy, Debug, PartialEq, Eq, Structural)]
pub enum BatSlot {
    Payload(u64),
    Sector(u64),
}

/// The slot of table entry `index` in a table of `total` entries. Counting
/// from zero, the entry at index `k * (chunk_ratio + 1) + chunk_ratio` follows
/// the `chunk_ratio` payload entries of chunk `k` and is that chunk's sector
/// bitmap entry, except at the table's last index, which is always a payload
/// entry; every other entry is a payload entry. With a chunk ratio of 2048
/// the sector bitmap entries stand at indices 2048, 4097, and so on.
pub open spec fn bat_slot(index: int, chunk_ratio: int, total: int) -> BatSlot {
    let chunk = chunk_ratio + 1;
    if index % chunk == chunk_ratio && index + 1 < total {
        BatSlot::Sector((index / chunk) as u64)
    } else {
        BatSlot::Payload((index - index / chunk) as u64)
    }
}

/// Whether table entry `index` is a sector bitmap entry.
pub open spec fn is_sector_slot(index: int, chunk_ratio: int, total: int) -> bool {
    bat_slot(index, chunk_ratio, total) is Sector
}

/// The slot of table entry `index` in a table of `total` entries.
pub fn bat_entry_slot(index: u64, chunk_ratio: u64, total: u64) -> (r: BatSlot)
    requires
        chunk_ratio < u64::MAX,
    ensures
        r == bat_slot(index as int, chunk_ratio as int, total as int),
{
    let chunk = chunk_ratio + 1;
    let q = index / chunk;
    if index % chunk == chunk_ratio && index < total && total - index > 1 {
        BatSlot::Sector(q)
    } else {
        BatSlot::Payload(index - q)
    }
}

/// The first `n` entries of a table whose region is declared
/// `region_length` bytes long and whose bytes are `s`, split by slot, or the
/// first failure: an entry that starts past the region's end, bytes that are
/// not there, or a state code not valid for the entry's kind.
pub open spec fn bat_entries(
    s: Seq<u8>,
    region_length: int,
    chunk_ratio: int,
    total: int,
    n: nat,
) -> Result<
    (Seq<PayloadEntry>, Seq<SectorEntry>),
    VhdxError,
>
    decreases n,
{
    if n == 0 {
        Ok((Seq::empty(), Seq::empty()))
    } else {
        match bat_entries(s, region_length, chunk_ratio, total, (n - 1) as nat) {
            Err(e) => Err(e),
            Ok((payload, sector)) => {
                let i = n - 1;
                if i * BAT_ENTRY_LEN > region_length {
                    Err(VhdxError::StructuralBoundsViolation)
                } else if i * BAT_ENTRY_LEN + BAT_ENTRY_LEN > s.len() {
                    Err(VhdxError::IoFailure)
                } else {
                    let raw = le_u64(s, i * BAT_ENTRY_LEN);
                    if is_sector_slot(i, chunk_ratio, total) {
                        match sector_entry_of(raw) {
                            Err(e) => Err(e),
                            Ok(e) => Ok((payload, sector.push(e))),
                        }
                    } else {
                        match payload_entry_of(raw) {
                            Err(e) => Err(e),
                            Ok(e) => Ok((payload.push(e), sector)),
                        }
                    }
                }
            },
        }
    }
}

/// The outcome of decoding the table: `s` holds the bytes read from the
/// start of the region that `region` describes, `m` the disk's metadata, and
/// `has_parent` says whether the decode follows a chain of differencing
/// disks.
pub open spec fn bat_decode(
    s: Seq<u8>,
    region: RegionTableEntry,
    m: MetadataView,
    has_parent: bool,
) -> Result<(Seq<PayloadEntry>, Seq<SectorEntry>), VhdxError> {
    if region.region_type != RegionType::BAT {
        Err(VhdxError::MissingExpectedField)
    } else {
        match metadata_block_values(m, has_parent) {
            Err(e) => Err(e),
            Ok(v) => bat_entries(
                s,
                region.object_length as int,
                v.chunk_ratio as int,
                v.total_bat_entries as int,
                v.total_bat_entries as nat,
            ),
        }
    }
}

proof fn lemma_bat_entries_fail_forward(
    s: Seq<u8>,
    region_length: int,
    chunk_ratio: int,
    total: int,
    n: nat,
    m: nat,
)
    requires
        n <= m,
        bat_entries(s, region_length, chunk_ratio, total, n) is Err,
    ensures
        bat_entries(s, region_length, chunk_ratio, total, m) == bat_entries(
            s,
            region_length,
            chunk_ratio,
            total,
            n,
        ),
    decreases m - n,
{
    if n < m {
        lemma_bat_entries_fail_forward(s, region_length, chunk_ratio, total, n, (m - 1) as nat);
    }
}

/// Decodes the table entries, from the bytes read at the start of the
/// region, as `values` sizes and splits them.
fn read_bat_table(bat: &[u8], region_length: u32, values: &FileBlockValues) -> (r: Result<
    (Vec<PayloadEntry>, Vec<SectorEntry>),
    VhdxError,
>)
    requires
        values.chunk_ratio < u64::MAX,
    ensures
        match r {
            Ok((p, q)) => bat_entries(
                bat@,
                region_length as int,
                values.chunk_ratio as int,
                values.total_bat_entries as int,
                values.total_bat_entries as nat,
            ) == Ok::<(Seq<PayloadEntry>, Seq<SectorEntry>), VhdxError>((p@, q@)),
            Err(e) => bat_entries(
                bat@,
                region_length as int,
                values.chunk_ratio as int,
                values.total_bat_entries as int,
                values.total_bat_entries as nat,
            ) == Err::<(Seq<PayloadEntry>, Seq<SectorEntry>), VhdxError>(e),
        },
{
    let mut payload_blocks: Vec<PayloadEntry> = Vec::new();
    let mut sector_blocks: Vec<SectorEntry> = Vec::new();
    let total = values.total_bat_entries;
    let cr = values.chunk_ratio;
    let ghost s = bat@;
    let ghost len = region_length as int;
    let mut n: u64 = 0;
    assert(payload_blocks@ =~= Seq::<PayloadEntry>::empty());
    assert(sector_blocks@ =~= Seq::<SectorEntry>::empty());
    while n < total
        invariant
            n <= total,
            total == values.total_bat_entries,
            cr == values.chunk_ratio,
            cr < u64::MAX,
            s == bat@,
            len == region_length,
            n == 0 || (n - 1) * BAT_ENTRY_LEN <= region_length,
            bat_entries(s, len, cr as int, total as int, n as nat) == Ok::<
                (Seq<PayloadEntry>, Seq<SectorEntry>),
                VhdxError,
            >((payload_blocks@, sector_blocks@)),
        decreases total - n,
    {
        let start: u64 = n * BAT_ENTRY_LEN;
        if start > region_length as u64 {
            proof {
                lemma_bat_entries_fail_forward(s, len, cr as int, total as int, (n + 1) as nat, total as nat);
            }
            return Err(VhdxError::StructuralBoundsViolation);
        }
        if start + BAT_ENTRY_LEN > bat.len() as u64 {
            proof {
                lemma_bat_entries_fail_forward(s, len, cr as int, total as int, (n + 1) as nat, total as nat);
            }
            return Err(VhdxError::IoFailure);
        }
        let raw = read_u64(bat, start as usize);
        match bat_entry_slot(n, cr, total) {
            BatSlot::Sector(_) => match SectorEntry::new(raw) {
                Err(e) => {
                    proof {
                        lemma_bat_entries_fail_forward(
                            s,
                            len,
                            cr as int,
                            total as int,
                            (n + 1) as nat,
                            total as nat,
                        );
                    }
                    return Err(e);
                },
                Ok(entry) => sector_blocks.push(entry),
            },
            BatSlot::Payload(_) => match PayloadEntry::new(raw) {
                Err(e) => {
                    proof {
                        lemma_bat_entries_fail_forward(
                            s,
                            len,
                            cr as int,
                            total as int,
                            (n + 1) as nat,
                            total as nat,
                        );
                    }
                    return Err(e);
                },
                Ok(entry) => payload_blocks.push(entry),
            },
        }
        n = n + 1;
    }
    Ok((payload_blocks, sector_blocks))
}

/// Decodes the block allocation table: `bat` holds the bytes read from the
/// start of the region that `bat_region` describes, `file_data` is the disk's
/// metadata, and `has_parent` says whether this decode follows a chain of
/// differencing disks. The entries come back split into payload and sector
/// bitmap entries, each in table order.
pub fn read_bat(bat: &[u8], bat_region: &RegionTableEntry, file_data: &Metadata, has_parent: bool) -> (r: Result<
    (Vec<PayloadEntry>, Vec<SectorEntry>),
    VhdxError,
>)
    ensures
        match r {
            Ok((p, q)) => bat_decode(bat@, *bat_region, file_data@, has_parent) == Ok::<
                (Seq<PayloadEntry>, Seq<SectorEntry>),
                VhdxError,
            >((p@, q@)),
            Err(e) => bat_decode(bat@, *bat_region, file_data@, has_parent) == Err::<
                (Seq<PayloadEntry>, Seq<SectorEntry>),
                VhdxError,
            >(e),
        },
{
    if bat_region.region_type != RegionType::BAT {
        return Err(VhdxError::MissingExpectedField);
    }
    let values = match calculate_block_values(file_data, has_parent) {
        Err(e) => return Err(e),
        Ok(v) => v,
    };
    assert(values.chunk_ratio < u64::MAX) by {
        assert(values.chunk_ratio <= CHUNK_RATIO_MULTIPLIER * 0xFFFF_FFFF) by (nonlinear_arith)
            requires
                values.chunk_ratio == (CHUNK_RATIO_MULTIPLIER * file_data.logical_sector_size)
                    / (file_data.file_parameters.block_size as int),
                file_data.file_parameters.block_size > 0,
                file_data.logical_sector_size <= 0xFFFF_FFFF,
                CHUNK_RATIO_MULTIPLIER == 0x80_0000,
        ;
    }
    read_bat_table(bat, bat_region.object_length, &values)
}

/// Up to an entry `i` that lies in the region and in the bytes, decoding
/// either succeeds or fails on a state code: nothing else can go wrong first.
proof fn lemma_bat_prefix_ok_or_invalid(
    s: Seq<u8>,
    region_length: int,
    chunk_ratio: int,
    total: int,
    i: nat,
    n: nat,
)
    requires
        n <= i,
        i * BAT_ENTRY_LEN <= region_length,
        i * BAT_ENTRY_LEN + BAT_ENTRY_LEN <= s.len(),
    ensures
        bat_entries(s, region_length, chunk_ratio, total, n) is Ok || bat_entries(
            s,
            region_length,
            chunk_ratio,
            total,
            n,
        ) == Err::<(Seq<PayloadEntry>, Seq<SectorEntry>), VhdxError>(VhdxError::InvalidStateCode),
    decreases n,
{
    if n > 0 {
        lemma_bat_prefix_ok_or_invalid(s, region_length, chunk_ratio, total, i, (n - 1) as nat);
        assert((n - 1) * BAT_ENTRY_LEN < i * BAT_ENTRY_LEN) by (nonlinear_arith)
            requires
                n - 1 < i,
                BAT_ENTRY_LEN == 8,
        ;
    }
}

/// An entry whose state code is 4 or 5 is rejected as an invalid state code,
/// whatever its position and whether it falls to a payload block or to a
/// sector bitmap block, as long as the table reaches it.
pub proof fn lemma_bat_invalid_state_rejected(
    s: Seq<u8>,
    region_length: int,
    chunk_ratio: int,
    total: int,
    i: nat,
    n: nat,
)
    requires
        i < n,
        i * BAT_ENTRY_LEN <= region_length,
        i * BAT_ENTRY_LEN + BAT_ENTRY_LEN <= s.len(),
        entry_state_code(le_u64(s, i * BAT_ENTRY_LEN)) == 4 || entry_state_code(
            le_u64(s, i * BAT_ENTRY_LEN),
        ) == 5,
    ensures
        bat_entries(s, region_length, chunk_ratio, total, n) == Err::<
            (Seq<PayloadEntry>, Seq<SectorEntry>),
            VhdxError,
        >(VhdxError::InvalidStateCode),
{
    lemma_bat_prefix_ok_or_invalid(s, region_length, chunk_ratio, total, i, i);
    assert(bat_entries(s, region_length, chunk_ratio, total, i + 1) == Err::<
        (Seq<PayloadEntry>, Seq<SectorEntry>),
        VhdxError,
    >(VhdxError::InvalidStateCode));
    lemma_bat_entries_fail_forward(s, region_length, chunk_ratio, total, i + 1, n);
}

/// The same for a whole table decode: once the counts are computed and
/// reach entry `i`, an entry `i` with state code 4 or 5 fails the decode.
pub proof fn lemma_bat_decode_invalid_state_rejected(
    s: Seq<u8>,
    region: RegionTableEntry,
    m: MetadataView,
    has_parent: bool,
    i: nat,
)
    requires
        region.region_type == RegionType::BAT,
        metadata_block_values(m, has_parent) is Ok,
        i < metadata_block_values(m, has_parent)->Ok_0.total_bat_entries,
        i * BAT_ENTRY_LEN <= region.object_length,
        i * BAT_ENTRY_LEN + BAT_ENTRY_LEN <= s.len(),
        entry_state_code(le_u64(s, i * BAT_ENTRY_LEN)) == 4 || entry_state_code(
            le_u64(s, i * BAT_ENTRY_LEN),
        ) == 5,
    ensures
        bat_decode(s, region, m, has_parent) == Err::<
            (Seq<PayloadEntry>, Seq<SectorEntry>),
            VhdxError,
        >(VhdxError::InvalidStateCode),
{
    let v = metadata_block_values(m, has_parent)->Ok_0;
    lemma_bat_invalid_state_rejected(
        s,
        region.object_length as int,
        v.chunk_ratio as int,
        v.total_bat_entries as int,
        i,
        v.total_bat_entries as nat,
    );
}

/// How the entry after the first `n` moves the count of closed chunks.
proof fn lemma_chunk_step(n: int, chunk_ratio: int)
    requires
        n >= 0,
        chunk_ratio >= 0,
    ensures
        (n + 1) / (chunk_ratio + 1) == if n % (chunk_ratio + 1) == chunk_ratio {
            n / (chunk_ratio + 1) + 1
        } else {
            n / (chunk_ratio + 1)
        },
        n / (chunk_ratio + 1) <= n,
{
    let c = chunk_ratio + 1;
    lemma_fundamental_div_mod(n, c);
    let q = n / c;
    let r = n % c;
    if r == chunk_ratio {
        assert(n + 1 == (q + 1) * c + 0) by (nonlinear_arith)
            requires
                n == c * q + r,
                r == c - 1,
        ;
        lemma_fundamental_div_mod_converse(n + 1, c, q + 1, 0);
    } else {
        assert(n + 1 == q * c + (r + 1)) by (nonlinear_arith)
            requires
                n == c * q + r,
        ;
        lemma_fundamental_div_mod_converse(n + 1, c, q, r + 1);
    }
    assert(q <= n) by (nonlinear_arith)
        requires
            n == c * q + r,
            c >= 1,
            0 <= r,
            n >= 0,
    ;
}

/// The number of sector bitmap entries among the first `n` entries of a
/// table of `total` entries: one for each chunk closed before the table's
/// last index.
pub open spec fn sector_entry_count(n: int, chunk_ratio: int, total: int) -> int {
    if n < total {
        n / (chunk_ratio + 1)
    } else if n == 0 {
        0
    } else {
        (n - 1) / (chunk_ratio + 1)
    }
}

/// After `n` entries of a table of `total`, there are
/// [`sector_entry_count`] sector bitmap entries and the payload entries are
/// all the others.
pub proof fn lemma_bat_counts(s: Seq<u8>, region_length: int, chunk_ratio: int, total: int, n: nat)
    requires
        chunk_ratio >= 0,
        n <= total,
        bat_entries(s, region_length, chunk_ratio, total, n) is Ok,
    ensures
        ({
            let (payload, sector) = bat_entries(s, region_length, chunk_ratio, total, n)->Ok_0;
            &&& sector.len() == sector_entry_count(n as int, chunk_ratio, total)
            &&& payload.len() == n - sector_entry_count(n as int, chunk_ratio, total)
        }),
    decreases n,
{
    if n > 0 {
        lemma_bat_counts(s, region_length, chunk_ratio, total, (n - 1) as nat);
        lemma_chunk_step(n - 1, chunk_ratio);
    }
}

/// Every entry of a decoded table lands in its slot: entry `i` is the
/// payload entry or the sector bitmap entry at the position that
/// [`bat_slot`] gives, decoded from the eight bytes at `8 * i`.
pub proof fn lemma_bat_entry_position(
    s: Seq<u8>,
    region_length: int,
    chunk_ratio: int,
    total: int,
    n: nat,
    i: int,
)
    requires
        chunk_ratio >= 0,
        0 <= i < n,
        n <= total <= u64::MAX,
        bat_entries(s, region_length, chunk_ratio, total, n) is Ok,
    ensures
        ({
            let (payload, sector) = bat_entries(s, region_length, chunk_ratio, total, n)->Ok_0;
            let raw = le_u64(s, i * BAT_ENTRY_LEN);
            match bat_slot(i, chunk_ratio, total) {
                BatSlot::Payload(k) => k < payload.len() && payload_entry_of(raw) == Ok::<
                    PayloadEntry,
                    VhdxError,
                >(payload[k as int]),
                BatSlot::Sector(k) => k < sector.len() && sector_entry_of(raw) == Ok::<
                    SectorEntry,
                    VhdxError,
                >(sector[k as int]),
            }
        }),
    decreases n,
{
    let m = (n - 1) as nat;
    let prev = bat_entries(s, region_length, chunk_ratio, total, m);
    assert(prev is Ok);
    let (p, q) = prev->Ok_0;
    let (payload, sector) = bat_entries(s, region_length, chunk_ratio, total, n)->Ok_0;
    let raw = le_u64(s, m * BAT_ENTRY_LEN);
    if is_sector_slot(m as int, chunk_ratio, total) {
        assert(payload == p && sector == q.push(sector_entry_of(raw)->Ok_0));
    } else {
        assert(payload == p.push(payload_entry_of(raw)->Ok_0) && sector == q);
    }
    lemma_chunk_step(i, chunk_ratio);
    if i < m {
        lemma_bat_entry_position(s, region_length, chunk_ratio, total, m, i);
    } else {
        lemma_bat_counts(s, region_length, chunk_ratio, total, m);
    }
}

/// A decoded table holds exactly its computed number of entries; without a
/// parent, it holds one sector bitmap entry fewer than `sector_blocks`,
/// since the chunk that ends the table has its entry at the last index,
/// which is a payload entry.
pub proof fn lemma_bat_decode_counts(
    s: Seq<u8>,
    region: RegionTableEntry,
    m: MetadataView,
    has_parent: bool,
)
    requires
        bat_decode(s, region, m, has_parent) is Ok,
    ensures
        ({
            let v = metadata_block_values(m, has_parent)->Ok_0;
            let (payload, sector) = bat_decode(s, region, m, has_parent)->Ok_0;
            &&& metadata_block_values(m, has_parent) is Ok
            &&& payload.len() + sector.len() == v.total_bat_entries
            &&& !has_parent && v.sector_blocks > 0 ==> sector.len() == v.sector_blocks - 1
        }),
{
    let v = metadata_block_values(m, has_parent)->Ok_0;
    let c = v.chunk_ratio + 1;
    lemma_bat_counts(
        s,
        region.object_length as int,
        v.chunk_ratio as int,
        v.total_bat_entries as int,
        v.total_bat_entries as nat,
    );
    if !has_parent && v.sector_blocks > 0 {
        let bs = m.file_parameters.block_size as int;
        let cr = (CHUNK_RATIO_MULTIPLIER * m.logical_sector_size) / bs;
        let sector = ceil_div(ceil_div(m.virtual_disk_size as int, bs), cr);
        assert(cr == v.chunk_ratio);
        assert(0 <= sector * (cr + 1) <= u64::MAX);
        assert(0 <= sector <= u64::MAX) by (nonlinear_arith)
            requires
                0 <= sector * (cr + 1) <= u64::MAX,
                cr >= 1,
        ;
        assert(sector == v.sector_blocks);
        let k = v.sector_blocks as int;
        assert(v.total_bat_entries == k * c);
        assert(k * c - 1 == (k - 1) * c + (c - 1)) by (nonlinear_arith);
        lemma_fundamental_div_mod_converse(k * c - 1, c, k - 1, c - 1);
        assert(k * c >= 1) by (nonlinear_arith)
            requires
                k >= 1,
                c >= 1,
        ;
    }
}

/// The counts round up: `payload_blocks` is the least number of blocks that
/// covers the disk, and `sector_blocks` the least number of chunks that
/// covers the payload blocks.
pub proof fn lemma_block_values_round_up(
    block_size: u32,
    logical_sector_size: u32,
    virtual_disk_size: u64,
    has_parent: bool,
)
    requires
        block_values(block_size, logical_sector_size, virtual_disk_size, has_parent) is Ok,
    ensures
        ({
            let v = block_values(block_size, logical_sector_size, virtual_disk_size, has_parent)->Ok_0;
            &&& virtual_disk_size > 0 ==> (v.payload_blocks - 1) * block_size < virtual_disk_size
                <= v.payload_blocks * block_size
            &&& v.payload_blocks > 0 ==> (v.sector_blocks - 1) * v.chunk_ratio < v.payload_blocks
                <= v.sector_blocks * v.chunk_ratio
        }),
{
    let bs = block_size as int;
    let chunk_ratio = (CHUNK_RATIO_MULTIPLIER * logical_sector_size) / bs;
    let payload = ceil_div(virtual_disk_size as int, bs);
    let sector = ceil_div(payload, chunk_ratio);
    if virtual_disk_size > 0 {
        lemma_ceiling_divide_bounds(virtual_disk_size as int, bs);
        assert(0 < payload <= virtual_disk_size) by (nonlinear_arith)
            requires
                (payload - 1) * bs < virtual_disk_size <= payload * bs,
                virtual_disk_size > 0,
                bs >= 1,
        ;
        lemma_ceiling_divide_bounds(payload, chunk_ratio);
        assert(0 < sector <= payload) by (nonlinear_arith)
            requires
                (sector - 1) * chunk_ratio < payload <= sector * chunk_ratio,
                payload > 0,
                chunk_ratio >= 1,
        ;
    } else {
        assert(payload == 0);
    }
}

} // verus!
