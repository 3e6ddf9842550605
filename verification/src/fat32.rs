//! An opened FAT32 volume: its boot sector, its FS information sector and both
//! copies of its file allocation table, read once and kept as they were.

pub mod image;
pub mod reader;

use crate::bytes::le_u32;
use crate::codec::read_u32;
use crate::define::{FatEntryValue, FsInfoSector, PartitionBootSector};
use vstd::prelude::*;
use vstd::slice::slice_subrange;

pub use reader::{
    InitError, InitErrorKind, InitStep, ReadRequest, ReaderAction, ReaderView, SourceEvent,
    SourceEventView, VolumeReader, VolumeState,
};

verus! {

/// The sector size that FAT32 volumes commonly have.
pub const DEFAULT_SECTOR_SIZE: usize = 512;

/// One slot of a file allocation table, as stored: all 32 bits.
#[derive(Debug, Clone, Copy, PartialEq, Eq, Structural)]
pub struct FatEntry {
    data: u32,
}

impl View for FatEntry {
    type V = u32;

    closed spec fn view(&self) -> u32 {
        self.data
    }
}

impl FatEntry {
    /// The slot that stores `data`.
    pub fn new(data: u32) -> (entry: Self)
        ensures
            entry@ == data,
    {
        Self { data }
    }

    /// The stored word, reserved bits included.
    pub fn data(&self) -> (data: u32)
        ensures
            data == self@,
    {
        self.data
    }

    /// What the slot means.
    pub fn value(&self) -> (value: FatEntryValue)
        ensures
            value == FatEntryValue::spec_from_raw(self@),
    {
        FatEntryValue::from_raw(self.data)
    }
}

/// One copy of the file allocation table: the bytes as read from the volume.
/// Slots are decoded when asked for, never ahead of time.
#[derive(Debug, PartialEq, Eq)]
pub struct FileAllocationTable {
    data: Vec<u8>,
}

impl View for FileAllocationTable {
    type V = Seq<u8>;

    closed spec fn view(&self) -> Seq<u8> {
        self.data@
    }
}

impl FileAllocationTable {
    /// The stored word of slot `n` in a table held in `bytes`: the four bytes
    /// at offset `4 * n`, little-endian. There is none where the table ends
    /// before the slot does.
    pub open spec fn spec_slot(bytes: Seq<u8>, n: u32) -> Option<u32> {
        if 4 * n + 4 <= bytes.len() {
            Some(le_u32(bytes.subrange(4 * n, 4 * n + 4)))
        } else {
            None
        }
    }

    /// The meaning of slot `n` in a table held in `bytes`.
    pub open spec fn spec_fat_entry_value(bytes: Seq<u8>, n: u32) -> Option<FatEntryValue> {
        match Self::spec_slot(bytes, n) {
            Some(raw) => Some(FatEntryValue::spec_from_raw(raw)),
            None => None,
        }
    }

    /// The table held in `data`.
    pub fn new(data: Vec<u8>) -> (table: Self)
        ensures
            table@ == data@,
    {
        Self { data }
    }

    /// The bytes of the table.
    pub fn as_bytes(&self) -> (bytes: &[u8])
        ensures
            bytes@ == self@,
    {
        self.data.as_slice()
    }

    /// The number of bytes in the table.
    pub fn len(&self) -> (len: usize)
        ensures
            len == self@.len(),
    {
        self.data.len()
    }

    /// The number of whole slots in the table.
    pub fn entry_count(&self) -> (count: usize)
        ensures
            count == self@.len() / 4,
    {
        self.data.len() / 4
    }

    /// Slot `n`, where the table has it.
    pub fn entry(&self, n: u32) -> (entry: Option<FatEntry>)
        ensures
            entry is Some <==> Self::spec_slot(self@, n) is Some,
            entry matches Some(e) ==> Some(e@) == Self::spec_slot(self@, n),
    {
        let start: u64 = 4 * (n as u64);
        if start + 4 <= self.data.len() as u64 {
            let at: usize = start as usize;
            let word: u32 = read_u32(slice_subrange(self.data.as_slice(), at, at + 4));
            Some(FatEntry::new(word))
        } else {
            None
        }
    }

    /// The meaning of slot `n`, where the table has it.
    pub fn fat_entry_value(&self, n: u32) -> (value: Option<FatEntryValue>)
        ensures
            value == Self::spec_fat_entry_value(self@, n),
    {
        match self.entry(n) {
            Some(entry) => Some(entry.value()),
            None => None,
        }
    }
}

/// What an opened volume holds.
pub ghost struct Fat32View {
    pub pbs: PartitionBootSector,
    pub fs_info: FsInfoSector,
    pub fat1: Seq<u8>,
    pub fat2: Seq<u8>,
}

impl Fat32View {
    /// Both table copies have the size that the boot sector gives them.
    pub open spec fn wf(self) -> bool {
        &&& self.fat1.len() == self.pbs.spec_fat_size_bytes()
        &&& self.fat2.len() == self.pbs.spec_fat_size_bytes()
    }
}

/// An opened FAT32 volume.
#[derive(Debug, PartialEq, Eq)]
pub struct Fat32 {
    pbs: PartitionBootSector,
    fs_info: FsInfoSector,
    fat1: FileAllocationTable,
    fat2: FileAllocationTable,
}

impl View for Fat32 {
    type V = Fat32View;

    closed spec fn view(&self) -> Fat32View {
        Fat32View { pbs: self.pbs, fs_info: self.fs_info, fat1: self.fat1@, fat2: self.fat2@ }
    }
}

impl Fat32 {
    #[verifier::type_invariant]
    spec fn well_formed(self) -> bool {
        self@.wf()
    }

    pub(crate) fn from_parts(
        pbs: PartitionBootSector,
        fs_info: FsInfoSector,
        fat1: FileAllocationTable,
        fat2: FileAllocationTable,
    ) -> (volume: Self)
        requires
            fat1@.len() == pbs.spec_fat_size_bytes(),
            fat2@.len() == pbs.spec_fat_size_bytes(),
        ensures
            volume@ == (Fat32View { pbs, fs_info, fat1: fat1@, fat2: fat2@ }),
    {
        Self { pbs, fs_info, fat1, fat2 }
    }

    /// The boot sector.
    pub fn pbs(&self) -> (pbs: &PartitionBootSector)
        ensures
            *pbs == self@.pbs,
    {
        &self.pbs
    }

    /// The FS information sector.
    pub fn fs_info_sector(&self) -> (sector: &FsInfoSector)
        ensures
            *sector == self@.fs_info,
    {
        &self.fs_info
    }

    /// The first copy of the file allocation table.
    pub fn fat1(&self) -> (table: &FileAllocationTable)
        ensures
            table@ == self@.fat1,
            self@.wf(),
    {
        proof {
            use_type_invariant(self);
        }
        &self.fat1
    }

    /// The second copy of the file allocation table.
    pub fn fat2(&self) -> (table: &FileAllocationTable)
        ensures
            table@ == self@.fat2,
            self@.wf(),
    {
        proof {
            use_type_invariant(self);
        }
        &self.fat2
    }

    /// Bytes per sector.
    pub fn sector_size(&self) -> (size: u16)
        ensures
            size == self@.pbs.sector_size,
    {
        self.pbs.sector_size
    }

    /// Sectors on the volume, from the 32-bit field that FAT32 goes by.
    pub fn total_sectors(&self) -> (count: u32)
        ensures
            count == self@.pbs.total_sectors2,
    {
        self.pbs.total_sectors2
    }

    /// Sectors per cluster.
    pub fn sectors_per_cluster(&self) -> (count: u32)
        ensures
            count == self@.pbs.sectors_per_cluster,
    {
        self.pbs.sectors_per_cluster as u32
    }

    /// Bytes per cluster: sectors per cluster times bytes per sector.
    pub fn cluster_size(&self) -> (size: u32)
        ensures
            size == self@.pbs.spec_cluster_size(),
            size == self@.pbs.sectors_per_cluster * self@.pbs.sector_size,
    {
        self.pbs.cluster_size()
    }

    /// The first cluster of the root directory.
    pub fn root_cluster(&self) -> (cluster: u32)
        ensures
            cluster == self@.pbs.root_cluster,
    {
        self.pbs.root_cluster
    }

    /// The sector number of the FS information sector.
    pub fn fs_info(&self) -> (sector: u16)
        ensures
            sector == self@.pbs.fs_info,
    {
        self.pbs.fs_info
    }

    /// The meaning of the slot of `cluster` in the first table copy, where
    /// the table has that slot.
    pub fn fat_entry_value(&self, cluster: u32) -> (value: Option<FatEntryValue>)
        ensures
            value == FileAllocationTable::spec_fat_entry_value(self@.fat1, cluster),
    {
        self.fat1.fat_entry_value(cluster)
    }
}

} // verus!
