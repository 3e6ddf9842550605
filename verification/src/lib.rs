//! Typed views over the on-disk layout of a FAT32 volume image.

pub mod bytes;
pub mod codec;
pub mod define;
pub mod fat32;
pub mod locator;

pub use define::{
    Attribute, DirectoryEntryField, FatEntryValue, FsInfoSector, MasterBootRecord,
    PartitionArea, PartitionBootSector, PartitionTable, SignatureWord,
};
pub use fat32::{Fat32, FatEntry, FileAllocationTable, DEFAULT_SECTOR_SIZE};
