//! Where things lie on the volume: byte offsets computed from the boot sector
//! alone.

use crate::define::PartitionBootSector;
use vstd::prelude::*;

verus! {

proof fn lemma_product_below(a: int, b: int, above_a: int, above_b: int)
    by (nonlinear_arith)
    requires
        0 <= a < above_a,
        0 <= b < above_b,
    ensures
        0 <= a * b < above_a * above_b,
{
}

impl PartitionBootSector {
    /// Byte offset of the FS information sector: its sector number times the
    /// sector size.
    pub open spec fn spec_fs_info_offset(&self) -> int {
        self.fs_info as int * self.sector_size as int
    }

    /// Byte offset of the first file allocation table, which follows the
    /// reserved sectors.
    pub open spec fn spec_fat1_offset(&self) -> int {
        self.reserved_sector_count as int * self.sector_size as int
    }

    /// Bytes taken by one file allocation table.
    pub open spec fn spec_fat_size_bytes(&self) -> int {
        self.sectors_per_fat_for_fat32 as int * self.sector_size as int
    }

    /// Byte offset of the second file allocation table, which follows the
    /// first with nothing between them.
    pub open spec fn spec_fat2_offset(&self) -> int {
        self.spec_fat1_offset() + self.spec_fat_size_bytes()
    }

    /// Byte offset of the backup boot sector.
    pub open spec fn spec_backup_boot_sector_offset(&self) -> int {
        self.backup_boot_sector as int * self.sector_size as int
    }

    /// Bytes taken by one cluster.
    pub open spec fn spec_cluster_size(&self) -> int {
        self.sectors_per_cluster as int * self.sector_size as int
    }

    /// Byte offset of the data area, which follows the last file allocation
    /// table.
    pub open spec fn spec_data_area_start(&self) -> int {
        self.spec_fat1_offset() + self.number_of_fats as int * self.spec_fat_size_bytes()
    }

    /// Byte offset of a data cluster. The data area starts with cluster 2.
    pub open spec fn spec_cluster_to_byte_offset(&self, cluster: u32) -> int
        recommends
            cluster >= 2,
    {
        self.spec_data_area_start() + (cluster as int - 2) * self.spec_cluster_size()
    }

    /// Every offset and size computed here fits in 64 bits with room to
    /// spare.
    pub proof fn lemma_offsets_bounded(self)
        ensures
            0 <= self.spec_fs_info_offset() < 0x1_0000_0000,
            0 <= self.spec_fat1_offset() < 0x1_0000_0000,
            0 <= self.spec_backup_boot_sector_offset() < 0x1_0000_0000,
            0 <= self.spec_fat_size_bytes() < 0x1_0000_0000_0000,
            0 <= self.spec_fat2_offset() < 0x2_0000_0000_0000,
            0 <= self.spec_cluster_size() < 0x100_0000,
            0 <= self.spec_data_area_start() < 0x200_0000_0000_0000,
            forall|cluster: u32|
                cluster >= 2 ==> 0 <= #[trigger] self.spec_cluster_to_byte_offset(cluster)
                    < 0x400_0000_0000_0000,
    {
        let size = self.sector_size as int;
        lemma_product_below(self.fs_info as int, size, 0x1_0000, 0x1_0000);
        lemma_product_below(self.reserved_sector_count as int, size, 0x1_0000, 0x1_0000);
        lemma_product_below(self.backup_boot_sector as int, size, 0x1_0000, 0x1_0000);
        lemma_product_below(self.sectors_per_fat_for_fat32 as int, size, 0x1_0000_0000, 0x1_0000);
        lemma_product_below(self.sectors_per_cluster as int, size, 0x100, 0x1_0000);
        lemma_product_below(
            self.number_of_fats as int,
            self.spec_fat_size_bytes(),
            0x100,
            0x1_0000_0000_0000,
        );
        assert forall|cluster: u32| cluster >= 2 implies 0
            <= #[trigger] self.spec_cluster_to_byte_offset(cluster) < 0x400_0000_0000_0000 by {
            lemma_product_below(
                cluster as int - 2,
                self.spec_cluster_size(),
                0x1_0000_0000,
                0x100_0000,
            );
        }
    }

    /// Byte offset of the FS information sector.
    pub fn fs_info_offset(&self) -> (offset: u64)
        ensures
            offset == self.spec_fs_info_offset(),
    {
        proof {
            self.lemma_offsets_bounded();
        }
        (self.fs_info as u64) * (self.sector_size as u64)
    }

    /// Byte offset of the first file allocation table.
    pub fn fat1_offset(&self) -> (offset: u64)
        ensures
            offset == self.spec_fat1_offset(),
    {
        proof {
            self.lemma_offsets_bounded();
        }
        (self.reserved_sector_count as u64) * (self.sector_size as u64)
    }

    /// Bytes taken by one file allocation table.
    pub fn fat_size_bytes(&self) -> (size: u64)
        ensures
            size == self.spec_fat_size_bytes(),
    {
        proof {
            self.lemma_offsets_bounded();
        }
        (self.sectors_per_fat_for_fat32 as u64) * (self.sector_size as u64)
    }

    /// Byte offset of the second file allocation table.
    pub fn fat2_offset(&self) -> (offset: u64)
        ensures
            offset == self.spec_fat2_offset(),
    {
        proof {
            self.lemma_offsets_bounded();
        }
        self.fat1_offset() + self.fat_size_bytes()
    }

    /// Byte offset of the backup boot sector.
    pub fn backup_boot_sector_offset(&self) -> (offset: u64)
        ensures
            offset == self.spec_backup_boot_sector_offset(),
    {
        proof {
            self.lemma_offsets_bounded();
        }
        (self.backup_boot_sector as u64) * (self.sector_size as u64)
    }

    /// Bytes taken by one cluster.
    pub fn cluster_size(&self) -> (size: u32)
        ensures
            size == self.spec_cluster_size(),
    {
        proof {
            self.lemma_offsets_bounded();
        }
        (self.sectors_per_cluster as u32) * (self.sector_size as u32)
    }

    /// Byte offset of the data area.
    pub fn data_area_start(&self) -> (offset: u64)
        ensures
            offset == self.spec_data_area_start(),
    {
        proof {
            self.lemma_offsets_bounded();
        }
        self.fat1_offset() + (self.number_of_fats as u64) * self.fat_size_bytes()
    }

    /// Byte offset of the data cluster `cluster`. Clusters 0 and 1 are
    /// reserved and have no place in the data area.
    pub fn cluster_to_byte_offset(&self, cluster: u32) -> (offset: u64)
        requires
            cluster >= 2,
        ensures
            offset == self.spec_cluster_to_byte_offset(cluster),
    {
        proof {
            self.lemma_offsets_bounded();
            assert(0 <= self.spec_cluster_to_byte_offset(cluster) < 0x400_0000_0000_0000);
            lemma_product_below(
                cluster as int - 2,
                self.spec_cluster_size(),
                0x1_0000_0000,
                0x100_0000,
            );
        }
        self.data_area_start() + ((cluster - 2) as u64) * (self.cluster_size() as u64)
    }

    /// With 512-byte sectors, the first table starts `512 * R` bytes in and
    /// the second `512 * R + 512 * S` bytes in, for `R` reserved sectors and
    /// `S` sectors per table.
    pub proof fn lemma_fat_offsets_512(self)
        requires
            self.sector_size == 512,
        ensures
            self.spec_fat1_offset() == self.reserved_sector_count * 512,
            self.spec_fat2_offset() == self.reserved_sector_count * 512
                + self.sectors_per_fat_for_fat32 * 512,
    {
    }

    /// The tables and the data area lie in this order, each starting where
    /// the one before it ends.
    pub proof fn lemma_layout_order(self)
        ensures
            self.spec_fat1_offset() <= self.spec_fat2_offset(),
            self.spec_fat2_offset() - self.spec_fat1_offset() == self.spec_fat_size_bytes(),
            self.number_of_fats == 2 ==> self.spec_data_area_start() == self.spec_fat2_offset()
                + self.spec_fat_size_bytes(),
            self.spec_cluster_to_byte_offset(2) == self.spec_data_area_start(),
    {
        self.lemma_offsets_bounded();
    }

    /// Consecutive clusters lie one cluster size apart.
    pub proof fn lemma_cluster_stride(self, cluster: u32)
        requires
            2 <= cluster < u32::MAX,
        ensures
            self.spec_cluster_to_byte_offset((cluster + 1) as u32)
                == self.spec_cluster_to_byte_offset(cluster) + self.spec_cluster_size(),
    {
        let size = self.spec_cluster_size();
        assert((cluster as int + 1 - 2) * size == (cluster as int - 2) * size + size)
            by (nonlinear_arith);
    }
}

} // verus!
