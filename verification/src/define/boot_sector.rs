//! The partition boot sector: the 512 bytes that describe a FAT32 system area.

use crate::bytes::{
    array_of, le_bytes_u16, le_bytes_u32, le_u16, le_u32, lemma_array_of, lemma_array_of_view,
    lemma_le_u16, lemma_le_u32, take_array,
};
use crate::codec::{
    deserialize_array, deserialize_u16, deserialize_u32, deserialize_u8, read_u16, read_u32,
};
use vstd::prelude::*;
use vstd::slice::slice_subrange;

verus! {

/// Bytes taken by a [`PartitionBootSector`].
pub const PARTITION_BOOT_SECTOR_SIZE: usize = 512;

/// The first sector of a FAT32 partition.
#[derive(Debug, Clone, Copy, PartialEq, Eq)]
pub struct PartitionBootSector {
    pub jump_command: [u8; 3],
    pub creating_system_identifier: [u8; 8],
    pub sector_size: u16,
    pub sectors_per_cluster: u8,
    pub reserved_sector_count: u16,
    pub number_of_fats: u8,
    pub number_of_root_directory_entries: u16,
    pub total_sectors: u16,
    pub medium_identifier: u8,
    pub sectors_per_fat: u16,
    pub sectors_per_track: u16,
    pub number_of_sides: u16,
    pub number_of_hidden_sectors: u32,
    pub total_sectors2: u32,
    pub sectors_per_fat_for_fat32: u32,
    pub extension_flag: u16,
    pub fs_version: u16,
    pub root_cluster: u32,
    pub fs_info: u16,
    pub backup_boot_sector: u16,
    pub reserved1: [u8; 12],
    pub physical_disk_number: u8,
    pub reserved2: [u8; 1],
    pub extended_boot_record_signature: u8,
    pub volume_id_number: u32,
    pub volume_label: [u8; 11],
    pub file_system_type: [u8; 8],
    pub reserved3: [u8; 420],
    pub signature_word: [u8; 2],
}

impl PartitionBootSector {
    /// The boot sector held in the 512 bytes `b`: each field at its fixed
    /// offset, single bytes and byte runs as they are, wider integers
    /// little-endian.
    pub open spec fn spec_new(b: Seq<u8>) -> PartitionBootSector
        recommends
            b.len() == 512,
    {
        PartitionBootSector {
            jump_command: array_of::<3>(b.subrange(0, 3)),
            creating_system_identifier: array_of::<8>(b.subrange(3, 11)),
            sector_size: le_u16(b.subrange(11, 13)),
            sectors_per_cluster: b[13],
            reserved_sector_count: le_u16(b.subrange(14, 16)),
            number_of_fats: b[16],
            number_of_root_directory_entries: le_u16(b.subrange(17, 19)),
            total_sectors: le_u16(b.subrange(19, 21)),
            medium_identifier: b[21],
            sectors_per_fat: le_u16(b.subrange(22, 24)),
            sectors_per_track: le_u16(b.subrange(24, 26)),
            number_of_sides: le_u16(b.subrange(26, 28)),
            number_of_hidden_sectors: le_u32(b.subrange(28, 32)),
            total_sectors2: le_u32(b.subrange(32, 36)),
            sectors_per_fat_for_fat32: le_u32(b.subrange(36, 40)),
            extension_flag: le_u16(b.subrange(40, 42)),
            fs_version: le_u16(b.subrange(42, 44)),
            root_cluster: le_u32(b.subrange(44, 48)),
            fs_info: le_u16(b.subrange(48, 50)),
            backup_boot_sector: le_u16(b.subrange(50, 52)),
            reserved1: array_of::<12>(b.subrange(52, 64)),
            physical_disk_number: b[64],
            reserved2: array_of::<1>(b.subrange(65, 66)),
            extended_boot_record_signature: b[66],
            volume_id_number: le_u32(b.subrange(67, 71)),
            volume_label: array_of::<11>(b.subrange(71, 82)),
            file_system_type: array_of::<8>(b.subrange(82, 90)),
            reserved3: array_of::<420>(b.subrange(90, 510)),
            signature_word: array_of::<2>(b.subrange(510, 512)),
        }
    }

    /// The bytes this sector occupies on disk: its fields in order, with
    /// nothing between them.
    pub open spec fn disk_bytes(&self) -> Seq<u8> {
        self.jump_command@ + self.creating_system_identifier@ + le_bytes_u16(self.sector_size)
            + seq![self.sectors_per_cluster] + le_bytes_u16(self.reserved_sector_count)
            + seq![self.number_of_fats] + le_bytes_u16(self.number_of_root_directory_entries)
            + le_bytes_u16(self.total_sectors) + seq![self.medium_identifier] + le_bytes_u16(
            self.sectors_per_fat,
        ) + le_bytes_u16(self.sectors_per_track) + le_bytes_u16(self.number_of_sides)
            + le_bytes_u32(self.number_of_hidden_sectors) + le_bytes_u32(self.total_sectors2)
            + le_bytes_u32(self.sectors_per_fat_for_fat32) + le_bytes_u16(self.extension_flag)
            + le_bytes_u16(self.fs_version) + le_bytes_u32(self.root_cluster) + le_bytes_u16(
            self.fs_info,
        ) + le_bytes_u16(self.backup_boot_sector) + self.reserved1@ + seq![
            self.physical_disk_number,
        ] + self.reserved2@ + seq![self.extended_boot_record_signature] + le_bytes_u32(
            self.volume_id_number,
        ) + self.volume_label@ + self.file_system_type@ + self.reserved3@ + self.signature_word@
    }

    /// Whether the sector carries the marks of a FAT32 boot sector: a medium
    /// identifier that the format knows (`0xF0`, or `0xF8` and above), file
    /// system version 0, extended boot record signature `0x29`, physical disk
    /// number `0x80`, and the closing signature `0x55 0xAA`.
    pub open spec fn spec_is_valid(&self) -> bool {
        &&& (self.medium_identifier == 0xF0 || self.medium_identifier >= 0xF8)
        &&& self.fs_version == 0
        &&& self.extended_boot_record_signature == 0x29
        &&& self.physical_disk_number == 0x80
        &&& self.signature_word@ == seq![0x55u8, 0xAAu8]
    }

    /// Whether the geometry fields are those of FAT32: the two fields that
    /// FAT32 replaces by wider ones (root directory entries, 16-bit total
    /// sectors) are zero, and the fields that every offset is computed from
    /// are not.
    pub open spec fn spec_has_fat32_geometry(&self) -> bool {
        &&& self.number_of_root_directory_entries == 0
        &&& self.total_sectors == 0
        &&& self.sector_size != 0
        &&& self.sectors_per_cluster != 0
        &&& self.reserved_sector_count != 0
        &&& self.number_of_fats != 0
        &&& self.sectors_per_fat_for_fat32 != 0
        &&& self.total_sectors2 != 0
    }

    /// Decodes field by field.
    pub fn new(data: [u8; 512]) -> (r: Self)
        ensures
            r == Self::spec_new(data@),
    {
        let bytes: &[u8] = data.as_slice();
        let r = Self {
            jump_command: take_array::<3>(bytes, 0),
            creating_system_identifier: take_array::<8>(bytes, 3),
            sector_size: read_u16(slice_subrange(bytes, 11, 13)),
            sectors_per_cluster: data[13],
            reserved_sector_count: read_u16(slice_subrange(bytes, 14, 16)),
            number_of_fats: data[16],
            number_of_root_directory_entries: read_u16(slice_subrange(bytes, 17, 19)),
            total_sectors: read_u16(slice_subrange(bytes, 19, 21)),
            medium_identifier: data[21],
            sectors_per_fat: read_u16(slice_subrange(bytes, 22, 24)),
            sectors_per_track: read_u16(slice_subrange(bytes, 24, 26)),
            number_of_sides: read_u16(slice_subrange(bytes, 26, 28)),
            number_of_hidden_sectors: read_u32(slice_subrange(bytes, 28, 32)),
            total_sectors2: read_u32(slice_subrange(bytes, 32, 36)),
            sectors_per_fat_for_fat32: read_u32(slice_subrange(bytes, 36, 40)),
            extension_flag: read_u16(slice_subrange(bytes, 40, 42)),
            fs_version: read_u16(slice_subrange(bytes, 42, 44)),
            root_cluster: read_u32(slice_subrange(bytes, 44, 48)),
            fs_info: read_u16(slice_subrange(bytes, 48, 50)),
            backup_boot_sector: read_u16(slice_subrange(bytes, 50, 52)),
            reserved1: take_array::<12>(bytes, 52),
            physical_disk_number: data[64],
            reserved2: take_array::<1>(bytes, 65),
            extended_boot_record_signature: data[66],
            volume_id_number: read_u32(slice_subrange(bytes, 67, 71)),
            volume_label: take_array::<11>(bytes, 71),
            file_system_type: take_array::<8>(bytes, 82),
            reserved3: take_array::<420>(bytes, 90),
            signature_word: take_array::<2>(bytes, 510),
        };
        proof {
            r.lemma_byte_runs(data@);
        }
        r
    }

    /// Decodes through `bincode`, field by field in the order in which the
    /// fields lie on disk.
    pub fn new_with_bincode(data: [u8; 512]) -> (r: Self)
        ensures
            r == Self::spec_new(data@),
    {
        let bytes: &[u8] = data.as_slice();
        let r = Self {
            jump_command: deserialize_array::<3>(slice_subrange(bytes, 0, 3)).unwrap(),
            creating_system_identifier: deserialize_array::<8>(
                slice_subrange(bytes, 3, 11),
            ).unwrap(),
            sector_size: deserialize_u16(slice_subrange(bytes, 11, 13)).unwrap(),
            sectors_per_cluster: deserialize_u8(slice_subrange(bytes, 13, 14)).unwrap(),
            reserved_sector_count: deserialize_u16(slice_subrange(bytes, 14, 16)).unwrap(),
            number_of_fats: deserialize_u8(slice_subrange(bytes, 16, 17)).unwrap(),
            number_of_root_directory_entries: deserialize_u16(
                slice_subrange(bytes, 17, 19),
            ).unwrap(),
            total_sectors: deserialize_u16(slice_subrange(bytes, 19, 21)).unwrap(),
            medium_identifier: deserialize_u8(slice_subrange(bytes, 21, 22)).unwrap(),
            sectors_per_fat: deserialize_u16(slice_subrange(bytes, 22, 24)).unwrap(),
            sectors_per_track: deserialize_u16(slice_subrange(bytes, 24, 26)).unwrap(),
            number_of_sides: deserialize_u16(slice_subrange(bytes, 26, 28)).unwrap(),
            number_of_hidden_sectors: deserialize_u32(slice_subrange(bytes, 28, 32)).unwrap(),
            total_sectors2: deserialize_u32(slice_subrange(bytes, 32, 36)).unwrap(),
            sectors_per_fat_for_fat32: deserialize_u32(slice_subrange(bytes, 36, 40)).unwrap(),
            extension_flag: deserialize_u16(slice_subrange(bytes, 40, 42)).unwrap(),
            fs_version: deserialize_u16(slice_subrange(bytes, 42, 44)).unwrap(),
            root_cluster: deserialize_u32(slice_subrange(bytes, 44, 48)).unwrap(),
            fs_info: deserialize_u16(slice_subrange(bytes, 48, 50)).unwrap(),
            backup_boot_sector: deserialize_u16(slice_subrange(bytes, 50, 52)).unwrap(),
            reserved1: deserialize_array::<12>(slice_subrange(bytes, 52, 64)).unwrap(),
            physical_disk_number: deserialize_u8(slice_subrange(bytes, 64, 65)).unwrap(),
            reserved2: deserialize_array::<1>(slice_subrange(bytes, 65, 66)).unwrap(),
            extended_boot_record_signature: deserialize_u8(
                slice_subrange(bytes, 66, 67),
            ).unwrap(),
            volume_id_number: deserialize_u32(slice_subrange(bytes, 67, 71)).unwrap(),
            volume_label: deserialize_array::<11>(slice_subrange(bytes, 71, 82)).unwrap(),
            file_system_type: deserialize_array::<8>(slice_subrange(bytes, 82, 90)).unwrap(),
            reserved3: deserialize_array::<420>(slice_subrange(bytes, 90, 510)).unwrap(),
            signature_word: deserialize_array::<2>(slice_subrange(bytes, 510, 512)).unwrap(),
        };
        proof {
            assert(data@.subrange(0, 3).subrange(0, 3) =~= data@.subrange(0, 3));
            assert(data@.subrange(3, 11).subrange(0, 8) =~= data@.subrange(3, 11));
            assert(data@.subrange(52, 64).subrange(0, 12) =~= data@.subrange(52, 64));
            assert(data@.subrange(65, 66).subrange(0, 1) =~= data@.subrange(65, 66));
            assert(data@.subrange(71, 82).subrange(0, 11) =~= data@.subrange(71, 82));
            assert(data@.subrange(82, 90).subrange(0, 8) =~= data@.subrange(82, 90));
            assert(data@.subrange(90, 510).subrange(0, 420) =~= data@.subrange(90, 510));
            assert(data@.subrange(510, 512).subrange(0, 2) =~= data@.subrange(510, 512));
            r.lemma_byte_runs(data@);
        }
        r
    }

    /// Decodes a boot sector from the head of `data` through `bincode`, which
    /// reports a slice of fewer than 512 bytes as an error and ignores what
    /// follows the sector.
    pub fn deserialize(data: &[u8]) -> (r: Result<Self, bincode::Error>)
        ensures
            r is Ok <==> data@.len() >= PARTITION_BOOT_SECTOR_SIZE,
            r matches Ok(sector) ==> sector == Self::spec_new(data@.subrange(0, 512)),
    {
        match deserialize_array::<512>(data) {
            Ok(sector) => Ok(Self::new_with_bincode(sector)),
            Err(e) => Err(e),
        }
    }

    /// Tells whether the sector carries the marks of a FAT32 boot sector.
    /// Decoding never looks at them: a sector is decoded whatever it holds.
    pub fn is_valid(&self) -> (ok: bool)
        ensures
            ok == self.spec_is_valid(),
    {
        let signed: bool = self.signature_word[0] == 0x55 && self.signature_word[1] == 0xAA;
        proof {
            let s = seq![0x55u8, 0xAAu8];
            assert(s[0] == 0x55 && s[1] == 0xAA);
            if signed {
                assert(self.signature_word@ =~= s);
            }
        }
        (self.medium_identifier == 0xF0 || self.medium_identifier >= 0xF8) && self.fs_version == 0
            && self.extended_boot_record_signature == 0x29 && self.physical_disk_number == 0x80
            && signed
    }

    /// Tells whether the geometry fields are those of FAT32.
    pub fn has_fat32_geometry(&self) -> (ok: bool)
        ensures
            ok == self.spec_has_fat32_geometry(),
    {
        self.number_of_root_directory_entries == 0 && self.total_sectors == 0 && self.sector_size
            != 0 && self.sectors_per_cluster != 0 && self.reserved_sector_count != 0
            && self.number_of_fats != 0 && self.sectors_per_fat_for_fat32 != 0
            && self.total_sectors2 != 0
    }

    /// A boot sector takes 512 bytes on disk, and reading those bytes gives
    /// the sector back.
    pub proof fn lemma_disk_bytes(self)
        ensures
            self.disk_bytes().len() == PARTITION_BOOT_SECTOR_SIZE,
            Self::spec_new(self.disk_bytes()) == self,
    {
        let b = self.disk_bytes();
        let e = seq![0u8, 0u8];
        let f = seq![0u8, 0u8, 0u8, 0u8];
        lemma_le_u16(self.sector_size, e);
        lemma_le_u16(self.reserved_sector_count, e);
        lemma_le_u16(self.number_of_root_directory_entries, e);
        lemma_le_u16(self.total_sectors, e);
        lemma_le_u16(self.sectors_per_fat, e);
        lemma_le_u16(self.sectors_per_track, e);
        lemma_le_u16(self.number_of_sides, e);
        lemma_le_u32(self.number_of_hidden_sectors, f);
        lemma_le_u32(self.total_sectors2, f);
        lemma_le_u32(self.sectors_per_fat_for_fat32, f);
        lemma_le_u16(self.extension_flag, e);
        lemma_le_u16(self.fs_version, e);
        lemma_le_u32(self.root_cluster, f);
        lemma_le_u16(self.fs_info, e);
        lemma_le_u16(self.backup_boot_sector, e);
        lemma_le_u32(self.volume_id_number, f);
        assert(b.len() == 512);
        assert(b.subrange(0, 3) =~= self.jump_command@);
        assert(b.subrange(3, 11) =~= self.creating_system_identifier@);
        assert(b.subrange(11, 13) =~= le_bytes_u16(self.sector_size));
        assert(b.subrange(14, 16) =~= le_bytes_u16(self.reserved_sector_count));
        assert(b.subrange(17, 19) =~= le_bytes_u16(self.number_of_root_directory_entries));
        assert(b.subrange(19, 21) =~= le_bytes_u16(self.total_sectors));
        assert(b.subrange(22, 24) =~= le_bytes_u16(self.sectors_per_fat));
        assert(b.subrange(24, 26) =~= le_bytes_u16(self.sectors_per_track));
        assert(b.subrange(26, 28) =~= le_bytes_u16(self.number_of_sides));
        assert(b.subrange(28, 32) =~= le_bytes_u32(self.number_of_hidden_sectors));
        assert(b.subrange(32, 36) =~= le_bytes_u32(self.total_sectors2));
        assert(b.subrange(36, 40) =~= le_bytes_u32(self.sectors_per_fat_for_fat32));
        assert(b.subrange(40, 42) =~= le_bytes_u16(self.extension_flag));
        assert(b.subrange(42, 44) =~= le_bytes_u16(self.fs_version));
        assert(b.subrange(44, 48) =~= le_bytes_u32(self.root_cluster));
        assert(b.subrange(48, 50) =~= le_bytes_u16(self.fs_info));
        assert(b.subrange(50, 52) =~= le_bytes_u16(self.backup_boot_sector));
        assert(b.subrange(52, 64) =~= self.reserved1@);
        assert(b.subrange(65, 66) =~= self.reserved2@);
        assert(b.subrange(67, 71) =~= le_bytes_u32(self.volume_id_number));
        assert(b.subrange(71, 82) =~= self.volume_label@);
        assert(b.subrange(82, 90) =~= self.file_system_type@);
        assert(b.subrange(90, 510) =~= self.reserved3@);
        assert(b.subrange(510, 512) =~= self.signature_word@);
        self.lemma_byte_runs(b);
    }

    /// Any 512 bytes are the on-disk form of the boot sector read from them.
    pub proof fn lemma_spec_new(b: Seq<u8>)
        requires
            b.len() == PARTITION_BOOT_SECTOR_SIZE,
        ensures
            Self::spec_new(b).disk_bytes() == b,
    {
        let r = Self::spec_new(b);
        lemma_array_of::<3>(b.subrange(0, 3));
        lemma_array_of::<8>(b.subrange(3, 11));
        lemma_le_u16(0, b.subrange(11, 13));
        lemma_le_u16(0, b.subrange(14, 16));
        lemma_le_u16(0, b.subrange(17, 19));
        lemma_le_u16(0, b.subrange(19, 21));
        lemma_le_u16(0, b.subrange(22, 24));
        lemma_le_u16(0, b.subrange(24, 26));
        lemma_le_u16(0, b.subrange(26, 28));
        lemma_le_u32(0, b.subrange(28, 32));
        lemma_le_u32(0, b.subrange(32, 36));
        lemma_le_u32(0, b.subrange(36, 40));
        lemma_le_u16(0, b.subrange(40, 42));
        lemma_le_u16(0, b.subrange(42, 44));
        lemma_le_u32(0, b.subrange(44, 48));
        lemma_le_u16(0, b.subrange(48, 50));
        lemma_le_u16(0, b.subrange(50, 52));
        lemma_array_of::<12>(b.subrange(52, 64));
        lemma_array_of::<1>(b.subrange(65, 66));
        lemma_le_u32(0, b.subrange(67, 71));
        lemma_array_of::<11>(b.subrange(71, 82));
        lemma_array_of::<8>(b.subrange(82, 90));
        lemma_array_of::<420>(b.subrange(90, 510));
        lemma_array_of::<2>(b.subrange(510, 512));
        assert(r.disk_bytes() =~= b);
    }

    /// A sector whose bytes carry the five marks at their offsets decodes to
    /// a boot sector that shows them: medium identifier `0xF8` at offset 21,
    /// version 0 at 42, disk number `0x80` at 64, extended signature `0x29`
    /// at 66, and `0x55 0xAA` at 510.
    pub proof fn lemma_marks_exposed(b: Seq<u8>)
        requires
            b.len() == PARTITION_BOOT_SECTOR_SIZE,
            b[21] == 0xF8,
            b[42] == 0x00 && b[43] == 0x00,
            b[64] == 0x80,
            b[66] == 0x29,
            b[510] == 0x55 && b[511] == 0xAA,
        ensures
            Self::spec_new(b).medium_identifier == 0xF8,
            Self::spec_new(b).fs_version == 0,
            Self::spec_new(b).physical_disk_number == 0x80,
            Self::spec_new(b).extended_boot_record_signature == 0x29,
            Self::spec_new(b).signature_word@ == seq![0x55u8, 0xAAu8],
            Self::spec_new(b).spec_is_valid(),
    {
        lemma_array_of::<2>(b.subrange(510, 512));
        assert(b.subrange(510, 512) =~= seq![0x55u8, 0xAAu8]);
    }

    /// A record whose byte runs hold the same bytes as those read from `b`
    /// has the very arrays that `spec_new` names.
    proof fn lemma_byte_runs(self, b: Seq<u8>)
        requires
            b.len() == 512,
            self.jump_command@ == b.subrange(0, 3),
            self.creating_system_identifier@ == b.subrange(3, 11),
            self.reserved1@ == b.subrange(52, 64),
            self.reserved2@ == b.subrange(65, 66),
            self.volume_label@ == b.subrange(71, 82),
            self.file_system_type@ == b.subrange(82, 90),
            self.reserved3@ == b.subrange(90, 510),
            self.signature_word@ == b.subrange(510, 512),
        ensures
            self.jump_command == array_of::<3>(b.subrange(0, 3)),
            self.creating_system_identifier == array_of::<8>(b.subrange(3, 11)),
            self.reserved1 == array_of::<12>(b.subrange(52, 64)),
            self.reserved2 == array_of::<1>(b.subrange(65, 66)),
            self.volume_label == array_of::<11>(b.subrange(71, 82)),
            self.file_system_type == array_of::<8>(b.subrange(82, 90)),
            self.reserved3 == array_of::<420>(b.subrange(90, 510)),
            self.signature_word == array_of::<2>(b.subrange(510, 512)),
    {
        lemma_array_of_view::<3>(self.jump_command);
        lemma_array_of_view::<8>(self.creating_system_identifier);
        lemma_array_of_view::<12>(self.reserved1);
        lemma_array_of_view::<1>(self.reserved2);
        lemma_array_of_view::<11>(self.volume_label);
        lemma_array_of_view::<8>(self.file_system_type);
        lemma_array_of_view::<420>(self.reserved3);
        lemma_array_of_view::<2>(self.signature_word);
    }
}

} // verus!
