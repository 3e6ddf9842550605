//! The fixed-size records of a FAT32 volume, each with its byte-exact layout.
//!
//! Every record type states its layout twice: `spec_new` reads the record off a
//! byte sequence, field by field at fixed offsets, and `disk_bytes` lays the
//! fields back down in order. The two are proved to be inverse to each other,
//! so a record and its on-disk footprint determine one another.

pub mod boot_sector;
pub mod directory;
pub mod fat_entry;
pub mod fs_info;
pub mod partition;

pub use boot_sector::PartitionBootSector;
pub use directory::{Attribute, DirectoryEntryField};
pub use fat_entry::FatEntryValue;
pub use fs_info::FsInfoSector;
pub use partition::{MasterBootRecord, PartitionArea, PartitionTable, SignatureWord};
