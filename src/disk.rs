//! What kind of disk a decoded file is, and how a parent is tied to the
//! child that names it.

use crate::block::{PayloadBlockState, PayloadEntry};
use crate::metadata::ParentLocator;
use vstd::prelude::*;

verus! {

/// The kinds of virtual disk.
#[derive(Clone, Copy, Debug, PartialEq, Eq, Structural)]
pub enum VhdType {
    Fixed,
    Dynamic,
    Differencing,
}

/// Whether a payload block has no data of its own in the file.
pub open spec fn is_unallocated(e: PayloadEntry) -> bool {
    e.state == PayloadBlockState::NotPresent || e.state == PayloadBlockState::PartiallyPresent
}

/// Whether some payload block has no data, or only part of it, in the file.
pub fn has_unallocated_blocks(payload: &[PayloadEntry]) -> (r: bool)
    ensures
        r == exists|i: int| 0 <= i < payload@.len() && is_unallocated(#[trigger] payload@[i]),
{
    let mut i: usize = 0;
    while i < payload.len()
        invariant
            i <= payload@.len(),
            forall|k: int| 0 <= k < i ==> !is_unallocated(#[trigger] payload@[k]),
        decreases payload@.len() - i,
    {
        let state = payload[i].state;
        if state == PayloadBlockState::NotPresent || state == PayloadBlockState::PartiallyPresent {
            return true;
        }
        i = i + 1;
    }
    false
}

/// The kind of the disk just decoded, from the kind found so far in the
/// chain: reached through a parent locator it is differencing, and with
/// blocks that are absent or partly present it is dynamic.
pub fn disk_type_of(so_far: VhdType, reached_as_parent: bool, payload: &[PayloadEntry]) -> (r: VhdType)
    ensures
        r == if exists|i: int| 0 <= i < payload@.len() && is_unallocated(#[trigger] payload@[i]) {
            VhdType::Dynamic
        } else if reached_as_parent {
            VhdType::Differencing
        } else {
            so_far
        },
{
    if has_unallocated_blocks(payload) {
        VhdType::Dynamic
    } else if reached_as_parent {
        VhdType::Differencing
    } else {
        so_far
    }
}

/// Which linkage of a child's locator names a parent.
#[derive(Clone, Copy, Debug, PartialEq, Eq, Structural)]
pub enum LinkageField {
    ParentLinkage,
    ParentLinkage2,
}

/// The linkage of `locator` that equals the data write GUID of the parent
/// found for it, the first linkage taking precedence; `None` when neither
/// does, and the parent found is not the one the child was written against.
pub fn parent_linkage_match(locator: &ParentLocator, data_write_id: u128) -> (r: Option<LinkageField>)
    ensures
        r == if locator.parent_linkage == data_write_id {
            Some(LinkageField::ParentLinkage)
        } else if locator.parent_linkage2 == data_write_id {
            Some(LinkageField::ParentLinkage2)
        } else {
            None::<LinkageField>
        },
{
    if locator.parent_linkage == data_write_id {
        Some(LinkageField::ParentLinkage)
    } else if locator.parent_linkage2 == data_write_id {
        Some(LinkageField::ParentLinkage2)
    } else {
        None
    }
}

} // verus!
