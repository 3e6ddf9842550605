//! What the value in a file allocation table slot means.

use vstd::prelude::*;

verus! {

/// Bytes taken by one slot of a file allocation table.
pub const FAT_ENTRY_SIZE: usize = 4;

/// The bits of a slot that carry meaning: the low 28. The high four are
/// reserved and play no part in reading a slot.
pub const FAT_ENTRY_MASK: u32 = 0x0FFF_FFFF;

/// The largest slot value that names a next cluster.
pub const LAST_ALLOCATED: u32 = 0x0FFF_FFF6;

/// The slot value that marks a defective cluster.
pub const DEFECTIVE: u32 = 0x0FFF_FFF7;

/// The meaning of a slot of the file allocation table.
#[derive(Debug, Clone, Copy, PartialEq, Eq, Structural)]
pub enum FatEntryValue {
    /// The cluster is free.
    NotUsed,
    /// The cluster is in use and the chain goes on at the cluster named here.
    Allocated(u32),
    /// The slot holds a value that the format keeps for itself.
    Reserved,
    /// The cluster is marked as unusable.
    Defective,
    /// The cluster is in use and is the last of its chain.
    EndOfChain,
}

impl FatEntryValue {
    /// The meaning of the raw slot value `raw`, decided by its low 28 bits:
    /// 0 is free, 2 up to `0x0FFFFFF6` name the next cluster, `0x0FFFFFF7`
    /// marks a defect, everything above ends a chain, and 1, the one value
    /// left, is reserved.
    pub open spec fn spec_from_raw(raw: u32) -> FatEntryValue {
        let value = raw % 0x1000_0000;
        if value == 0 {
            FatEntryValue::NotUsed
        } else if value == 1 {
            FatEntryValue::Reserved
        } else if value <= LAST_ALLOCATED {
            FatEntryValue::Allocated(value as u32)
        } else if value == DEFECTIVE {
            FatEntryValue::Defective
        } else {
            FatEntryValue::EndOfChain
        }
    }

    /// The cluster that follows in the chain, where there is one.
    pub open spec fn spec_next_cluster(self) -> Option<u32> {
        match self {
            FatEntryValue::Allocated(next) => Some(next),
            _ => None,
        }
    }

    /// Classifies the raw slot value `raw`.
    pub fn from_raw(raw: u32) -> (value: Self)
        ensures
            value == Self::spec_from_raw(raw),
    {
        let value: u32 = raw & FAT_ENTRY_MASK;
        assert(raw & 0x0FFF_FFFF == raw % 0x1000_0000) by (bit_vector);
        if value == 0 {
            FatEntryValue::NotUsed
        } else if value == 1 {
            FatEntryValue::Reserved
        } else if value <= LAST_ALLOCATED {
            FatEntryValue::Allocated(value)
        } else if value == DEFECTIVE {
            FatEntryValue::Defective
        } else {
            FatEntryValue::EndOfChain
        }
    }

    /// The cluster that follows in the chain, where there is one.
    pub fn next_cluster(self) -> (next: Option<u32>)
        ensures
            next == self.spec_next_cluster(),
    {
        match self {
            FatEntryValue::Allocated(next) => Some(next),
            _ => None,
        }
    }

    /// The high four bits of a slot never change what the slot means.
    pub proof fn lemma_high_bits_ignored(raw: u32, other: u32)
        requires
            raw & FAT_ENTRY_MASK == other & FAT_ENTRY_MASK,
        ensures
            Self::spec_from_raw(raw) == Self::spec_from_raw(other),
    {
        assert(raw & 0x0FFF_FFFF == raw % 0x1000_0000) by (bit_vector);
        assert(other & 0x0FFF_FFFF == other % 0x1000_0000) by (bit_vector);
    }

    /// A next cluster named by a slot is a data cluster: it lies from 2 up to
    /// `0x0FFFFFF6`, and it is the slot's own low 28 bits.
    pub proof fn lemma_allocated_range(raw: u32)
        ensures
            Self::spec_from_raw(raw) matches FatEntryValue::Allocated(next) ==> 2 <= next
                <= LAST_ALLOCATED && next == raw & FAT_ENTRY_MASK,
            Self::spec_from_raw(raw) is Allocated <==> 2 <= raw & FAT_ENTRY_MASK <= LAST_ALLOCATED,
    {
        assert(raw & 0x0FFF_FFFF == raw % 0x1000_0000) by (bit_vector);
    }
}

} // verus!
