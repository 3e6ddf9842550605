//! Sector 0 of the raw device: boot code, four partition table entries and the
//! signature word.

use crate::bytes::{
    array_of, le_bytes_u16, le_bytes_u32, le_u16, le_u32, lemma_array_of, lemma_array_of_view,
    lemma_le_u16, lemma_le_u32, take_array,
};
use crate::codec::{
    deserialize_array, deserialize_u16, deserialize_u32, deserialize_u8, read_u16, read_u32,
};
use vstd::prelude::*;
use vstd::slice::slice_subrange;

verus! {

/// Bytes taken by a [`SignatureWord`].
pub const SIGNATURE_WORD_SIZE: usize = 2;

/// Bytes taken by a [`PartitionTable`] entry.
pub const PARTITION_TABLE_SIZE: usize = 16;

/// Bytes taken by a [`MasterBootRecord`].
pub const MASTER_BOOT_RECORD_SIZE: usize = 446;

/// Bytes taken by a [`PartitionArea`].
pub const PARTITION_AREA_SIZE: usize = 512;

/// The two bytes that close a boot sector.
#[derive(Debug, Clone, Copy, PartialEq, Eq)]
pub struct SignatureWord {
    pub _55aa: [u8; 2],
}

impl SignatureWord {
    /// The signature word held in the two bytes `b`.
    pub open spec fn spec_new(b: Seq<u8>) -> SignatureWord
        recommends
            b.len() == 2,
    {
        SignatureWord { _55aa: array_of::<2>(b) }
    }

    /// The bytes this record occupies on disk.
    pub open spec fn disk_bytes(&self) -> Seq<u8> {
        self._55aa@
    }

    /// Whether the word is the `0x55 0xAA` that the format asks for.
    pub open spec fn spec_is_valid(&self) -> bool {
        self._55aa@ == seq![0x55u8, 0xAAu8]
    }

    /// Decodes by copying the bytes.
    pub fn new(data: [u8; 2]) -> (r: Self)
        ensures
            r == Self::spec_new(data@),
    {
        proof {
            lemma_array_of_view::<2>(data);
        }
        Self { _55aa: data }
    }

    /// Decodes through `bincode`.
    pub fn new_with_bincode(data: [u8; 2]) -> (r: Self)
        ensures
            r == Self::spec_new(data@),
    {
        let word = deserialize_array::<2>(&data).unwrap();
        proof {
            assert(data@.subrange(0, 2) =~= data@);
            lemma_array_of_view::<2>(word);
        }
        Self { _55aa: word }
    }

    /// The word takes two bytes on disk, and reading those bytes gives the
    /// word back.
    pub proof fn lemma_disk_bytes(self)
        ensures
            self.disk_bytes().len() == SIGNATURE_WORD_SIZE,
            Self::spec_new(self.disk_bytes()) == self,
    {
        lemma_array_of_view::<2>(self._55aa);
    }

    /// Any two bytes are the on-disk form of the word read from them.
    pub proof fn lemma_spec_new(b: Seq<u8>)
        requires
            b.len() == SIGNATURE_WORD_SIZE,
        ensures
            Self::spec_new(b).disk_bytes() == b,
    {
        lemma_array_of::<2>(b);
    }

    /// Tells whether the word is `0x55 0xAA`.
    pub fn is_valid(&self) -> (ok: bool)
        ensures
            ok == self.spec_is_valid(),
    {
        let ok = self._55aa[0] == 0x55 && self._55aa[1] == 0xAA;
        proof {
            if ok {
                assert(self._55aa@ =~= seq![0x55u8, 0xAAu8]);
            } else {
                assert(seq![0x55u8, 0xAAu8][0] == 0x55u8 && seq![0x55u8, 0xAAu8][1] == 0xAAu8);
            }
        }
        ok
    }
}

/// The boot code region at the head of sector 0, which the format leaves
/// unrestricted.
#[derive(Debug, Clone, Copy, PartialEq, Eq)]
pub struct MasterBootRecord {
    pub not_restricted: [u8; 446],
}

impl MasterBootRecord {
    /// The record held in the 446 bytes `b`.
    pub open spec fn spec_new(b: Seq<u8>) -> MasterBootRecord
        recommends
            b.len() == 446,
    {
        MasterBootRecord { not_restricted: array_of::<446>(b) }
    }

    /// The bytes this record occupies on disk.
    pub open spec fn disk_bytes(&self) -> Seq<u8> {
        self.not_restricted@
    }

    /// Decodes by copying the bytes.
    pub fn new(data: [u8; 446]) -> (r: Self)
        ensures
            r == Self::spec_new(data@),
    {
        proof {
            lemma_array_of_view::<446>(data);
        }
        Self { not_restricted: data }
    }

    /// Decodes through `bincode`, with the big-array handling that a run of
    /// this length needs there.
    pub fn new_with_bincode(data: [u8; 446]) -> (r: Self)
        ensures
            r == Self::spec_new(data@),
    {
        let region = deserialize_array::<446>(&data).unwrap();
        proof {
            assert(data@.subrange(0, 446) =~= data@);
            lemma_array_of_view::<446>(region);
        }
        Self { not_restricted: region }
    }

    /// The record takes 446 bytes on disk, and reading those bytes gives the
    /// record back.
    pub proof fn lemma_disk_bytes(self)
        ensures
            self.disk_bytes().len() == MASTER_BOOT_RECORD_SIZE,
            Self::spec_new(self.disk_bytes()) == self,
    {
        lemma_array_of_view::<446>(self.not_restricted);
    }

    /// Any 446 bytes are the on-disk form of the record read from them.
    pub proof fn lemma_spec_new(b: Seq<u8>)
        requires
            b.len() == MASTER_BOOT_RECORD_SIZE,
        ensures
            Self::spec_new(b).disk_bytes() == b,
    {
        lemma_array_of::<446>(b);
    }
}

/// One of the four partition table entries of sector 0.
#[derive(Debug, Clone, Copy, PartialEq, Eq)]
pub struct PartitionTable {
    pub boot_indicator: u8,
    pub starting_head: u8,
    pub starting_sector: u16,
    pub system_id: u8,
    pub ending_head: u8,
    pub ending_sector: u16,
    pub relative_sector: u32,
    pub total_sector: u32,
}

impl PartitionTable {
    /// The entry held in the 16 bytes `b`: single bytes as they are, wider
    /// fields little-endian.
    pub open spec fn spec_new(b: Seq<u8>) -> PartitionTable
        recommends
            b.len() == 16,
    {
        PartitionTable {
            boot_indicator: b[0],
            starting_head: b[1],
            starting_sector: le_u16(b.subrange(2, 4)),
            system_id: b[4],
            ending_head: b[5],
            ending_sector: le_u16(b.subrange(6, 8)),
            relative_sector: le_u32(b.subrange(8, 12)),
            total_sector: le_u32(b.subrange(12, 16)),
        }
    }

    /// The bytes this entry occupies on disk: its fields in order, with
    /// nothing between them.
    pub open spec fn disk_bytes(&self) -> Seq<u8> {
        seq![self.boot_indicator, self.starting_head] + le_bytes_u16(self.starting_sector)
            + seq![self.system_id, self.ending_head] + le_bytes_u16(self.ending_sector)
            + le_bytes_u32(self.relative_sector) + le_bytes_u32(self.total_sector)
    }

    /// Decodes field by field.
    pub fn new(data: [u8; 16]) -> (r: Self)
        ensures
            r == Self::spec_new(data@),
    {
        let bytes: &[u8] = data.as_slice();
        Self {
            boot_indicator: data[0],
            starting_head: data[1],
            starting_sector: read_u16(slice_subrange(bytes, 2, 4)),
            system_id: data[4],
            ending_head: data[5],
            ending_sector: read_u16(slice_subrange(bytes, 6, 8)),
            relative_sector: read_u32(slice_subrange(bytes, 8, 12)),
            total_sector: read_u32(slice_subrange(bytes, 12, 16)),
        }
    }

    /// Decodes through `bincode`.
    pub fn new_with_bincode(data: [u8; 16]) -> (r: Self)
        ensures
            r == Self::spec_new(data@),
    {
        let bytes: &[u8] = data.as_slice();
        let r = Self {
            boot_indicator: deserialize_u8(slice_subrange(bytes, 0, 1)).unwrap(),
            starting_head: deserialize_u8(slice_subrange(bytes, 1, 2)).unwrap(),
            starting_sector: deserialize_u16(slice_subrange(bytes, 2, 4)).unwrap(),
            system_id: deserialize_u8(slice_subrange(bytes, 4, 5)).unwrap(),
            ending_head: deserialize_u8(slice_subrange(bytes, 5, 6)).unwrap(),
            ending_sector: deserialize_u16(slice_subrange(bytes, 6, 8)).unwrap(),
            relative_sector: deserialize_u32(slice_subrange(bytes, 8, 12)).unwrap(),
            total_sector: deserialize_u32(slice_subrange(bytes, 12, 16)).unwrap(),
        };
        r
    }

    /// An entry takes 16 bytes on disk, and reading those bytes gives the
    /// entry back.
    pub proof fn lemma_disk_bytes(self)
        ensures
            self.disk_bytes().len() == PARTITION_TABLE_SIZE,
            Self::spec_new(self.disk_bytes()) == self,
    {
        let b = self.disk_bytes();
        let e = seq![0u8, 0u8];
        let f = seq![0u8, 0u8, 0u8, 0u8];
        lemma_le_u16(self.starting_sector, e);
        lemma_le_u16(self.ending_sector, e);
        lemma_le_u32(self.relative_sector, f);
        lemma_le_u32(self.total_sector, f);
        assert(b.subrange(2, 4) =~= le_bytes_u16(self.starting_sector));
        assert(b.subrange(6, 8) =~= le_bytes_u16(self.ending_sector));
        assert(b.subrange(8, 12) =~= le_bytes_u32(self.relative_sector));
        assert(b.subrange(12, 16) =~= le_bytes_u32(self.total_sector));
    }

    /// Any 16 bytes are the on-disk form of the entry read from them.
    pub proof fn lemma_spec_new(b: Seq<u8>)
        requires
            b.len() == PARTITION_TABLE_SIZE,
        ensures
            Self::spec_new(b).disk_bytes() == b,
    {
        lemma_le_u16(0, b.subrange(2, 4));
        lemma_le_u16(0, b.subrange(6, 8));
        lemma_le_u32(0, b.subrange(8, 12));
        lemma_le_u32(0, b.subrange(12, 16));
        assert(Self::spec_new(b).disk_bytes() =~= b);
    }
}

/// The first 512-byte sector of the raw device.
#[derive(Debug, Clone, Copy, PartialEq, Eq)]
pub struct PartitionArea {
    pub master_boot_record: MasterBootRecord,
    pub partition1: PartitionTable,
    pub partition2: PartitionTable,
    pub partition3: PartitionTable,
    pub partition4: PartitionTable,
    pub signature_word: SignatureWord,
}

impl PartitionArea {
    /// The sector held in the 512 bytes `b`: 446 bytes of boot code, four
    /// 16-byte partition entries, two bytes of signature.
    pub open spec fn spec_new(b: Seq<u8>) -> PartitionArea
        recommends
            b.len() == 512,
    {
        PartitionArea {
            master_boot_record: MasterBootRecord::spec_new(b.subrange(0, 446)),
            partition1: PartitionTable::spec_new(b.subrange(446, 462)),
            partition2: PartitionTable::spec_new(b.subrange(462, 478)),
            partition3: PartitionTable::spec_new(b.subrange(478, 494)),
            partition4: PartitionTable::spec_new(b.subrange(494, 510)),
            signature_word: SignatureWord::spec_new(b.subrange(510, 512)),
        }
    }

    /// The bytes this sector occupies on disk: its parts in order, with
    /// nothing between them.
    pub open spec fn disk_bytes(&self) -> Seq<u8> {
        self.master_boot_record.disk_bytes() + self.partition1.disk_bytes()
            + self.partition2.disk_bytes() + self.partition3.disk_bytes()
            + self.partition4.disk_bytes() + self.signature_word.disk_bytes()
    }

    /// Whether the sector ends in the signature `0x55 0xAA`.
    pub open spec fn spec_is_valid(&self) -> bool {
        self.signature_word.spec_is_valid()
    }

    /// Decodes part by part: the sector is cut at the fixed offsets and each
    /// part is decoded by its own type.
    pub fn new(data: [u8; 512]) -> (r: Self)
        ensures
            r == Self::spec_new(data@),
    {
        let bytes: &[u8] = data.as_slice();
        let mut start: usize = 0;
        let mut end: usize = MASTER_BOOT_RECORD_SIZE;
        let boot: [u8; 446] = take_array::<446>(bytes, start);
        start = end;
        end = end + PARTITION_TABLE_SIZE;
        let entry1: [u8; 16] = take_array::<16>(bytes, start);
        start = end;
        end = end + PARTITION_TABLE_SIZE;
        let entry2: [u8; 16] = take_array::<16>(bytes, start);
        start = end;
        end = end + PARTITION_TABLE_SIZE;
        let entry3: [u8; 16] = take_array::<16>(bytes, start);
        start = end;
        end = end + PARTITION_TABLE_SIZE;
        let entry4: [u8; 16] = take_array::<16>(bytes, start);
        start = end;
        end = end + SIGNATURE_WORD_SIZE;
        let word: [u8; 2] = take_array::<2>(bytes, start);
        assert(end == PARTITION_AREA_SIZE);
        Self {
            master_boot_record: MasterBootRecord::new(boot),
            partition1: PartitionTable::new(entry1),
            partition2: PartitionTable::new(entry2),
            partition3: PartitionTable::new(entry3),
            partition4: PartitionTable::new(entry4),
            signature_word: SignatureWord::new(word),
        }
    }

    /// Decodes through `bincode`, part by part in the order in which the
    /// parts lie on disk.
    pub fn new_with_bincode(data: [u8; 512]) -> (r: Self)
        ensures
            r == Self::spec_new(data@),
    {
        let bytes: &[u8] = data.as_slice();
        Self {
            master_boot_record: MasterBootRecord::new_with_bincode(take_array::<446>(bytes, 0)),
            partition1: PartitionTable::new_with_bincode(take_array::<16>(bytes, 446)),
            partition2: PartitionTable::new_with_bincode(take_array::<16>(bytes, 462)),
            partition3: PartitionTable::new_with_bincode(take_array::<16>(bytes, 478)),
            partition4: PartitionTable::new_with_bincode(take_array::<16>(bytes, 494)),
            signature_word: SignatureWord::new_with_bincode(take_array::<2>(bytes, 510)),
        }
    }

    /// Tells whether the sector ends in the signature `0x55 0xAA`.
    pub fn is_valid(&self) -> (ok: bool)
        ensures
            ok == self.spec_is_valid(),
    {
        self.signature_word.is_valid()
    }

    /// A sector takes 512 bytes on disk, and reading those bytes gives the
    /// sector back.
    pub proof fn lemma_disk_bytes(self)
        ensures
            self.disk_bytes().len() == PARTITION_AREA_SIZE,
            Self::spec_new(self.disk_bytes()) == self,
    {
        let b = self.disk_bytes();
        self.master_boot_record.lemma_disk_bytes();
        self.partition1.lemma_disk_bytes();
        self.partition2.lemma_disk_bytes();
        self.partition3.lemma_disk_bytes();
        self.partition4.lemma_disk_bytes();
        self.signature_word.lemma_disk_bytes();
        assert(b.subrange(0, 446) =~= self.master_boot_record.disk_bytes());
        assert(b.subrange(446, 462) =~= self.partition1.disk_bytes());
        assert(b.subrange(462, 478) =~= self.partition2.disk_bytes());
        assert(b.subrange(478, 494) =~= self.partition3.disk_bytes());
        assert(b.subrange(494, 510) =~= self.partition4.disk_bytes());
        assert(b.subrange(510, 512) =~= self.signature_word.disk_bytes());
    }

    /// Any 512 bytes are the on-disk form of the sector read from them.
    pub proof fn lemma_spec_new(b: Seq<u8>)
        requires
            b.len() == PARTITION_AREA_SIZE,
        ensures
            Self::spec_new(b).disk_bytes() == b,
    {
        MasterBootRecord::lemma_spec_new(b.subrange(0, 446));
        PartitionTable::lemma_spec_new(b.subrange(446, 462));
        PartitionTable::lemma_spec_new(b.subrange(462, 478));
        PartitionTable::lemma_spec_new(b.subrange(478, 494));
        PartitionTable::lemma_spec_new(b.subrange(494, 510));
        SignatureWord::lemma_spec_new(b.subrange(510, 512));
        assert(Self::spec_new(b).disk_bytes() =~= b);
    }

    /// The two decoders agree on every sector.
    pub proof fn lemma_decoders_agree(data: [u8; 512], explicit: Self, generic: Self)
        requires
            explicit == Self::spec_new(data@),
            generic == Self::spec_new(data@),
        ensures
            explicit == generic,
    {
    }
}

} // verus!
