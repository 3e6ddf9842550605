//! The 32-byte directory entry and its attribute bits.

use crate::bytes::{
    array_of, le_bytes_u16, le_bytes_u32, le_u16, le_u32, lemma_array_of, lemma_array_of_view,
    lemma_le_u16, lemma_le_u32, take_array,
};
use crate::codec::{
    deserialize_array, deserialize_u16, deserialize_u32, deserialize_u8, read_u16, read_u32,
};
use vstd::prelude::*;
use vstd::slice::slice_subrange;

verus! {

/// Bytes taken by a [`DirectoryEntryField`].
pub const DIRECTORY_ENTRY_SIZE: usize = 32;

/// One bit of a directory entry's attribute byte.
#[derive(Debug, Clone, Copy, PartialEq, Eq, Structural)]
pub enum Attribute {
    ReadOnly,
    Hidden,
    System,
    VolumeId,
    Directory,
    Archive,
}

impl Attribute {
    /// The bit that stands for this attribute.
    pub open spec fn spec_mask(self) -> u8 {
        match self {
            Attribute::ReadOnly => 0x01,
            Attribute::Hidden => 0x02,
            Attribute::System => 0x04,
            Attribute::VolumeId => 0x08,
            Attribute::Directory => 0x10,
            Attribute::Archive => 0x20,
        }
    }

    /// The bit that stands for this attribute.
    pub fn mask(self) -> (m: u8)
        ensures
            m == self.spec_mask(),
    {
        match self {
            Attribute::ReadOnly => 0x01,
            Attribute::Hidden => 0x02,
            Attribute::System => 0x04,
            Attribute::VolumeId => 0x08,
            Attribute::Directory => 0x10,
            Attribute::Archive => 0x20,
        }
    }
}

/// One entry of a directory. `attributes` holds the attribute byte as stored:
/// any combination of the bits of [`Attribute`].
#[derive(Debug, Clone, Copy, PartialEq, Eq)]
pub struct DirectoryEntryField {
    pub name: [u8; 11],
    pub attributes: u8,
    pub reserved_for_nt: u8,
    pub created_time_tenth: u8,
    pub created_time: u16,
    pub created_date: u16,
    pub last_access_data: u16,
    pub starting_cluster_number_high: u16,
    pub time_recorded: u16,
    pub date_recorded: u16,
    pub starting_cluster_number_low: u16,
    pub file_length: u32,
}

impl DirectoryEntryField {
    /// The entry held in the 32 bytes `b`: each field at its fixed offset,
    /// single bytes and the name as they are, wider integers little-endian.
    pub open spec fn spec_new(b: Seq<u8>) -> DirectoryEntryField
        recommends
            b.len() == 32,
    {
        DirectoryEntryField {
            name: array_of::<11>(b.subrange(0, 11)),
            attributes: b[11],
            reserved_for_nt: b[12],
            created_time_tenth: b[13],
            created_time: le_u16(b.subrange(14, 16)),
            created_date: le_u16(b.subrange(16, 18)),
            last_access_data: le_u16(b.subrange(18, 20)),
            starting_cluster_number_high: le_u16(b.subrange(20, 22)),
            time_recorded: le_u16(b.subrange(22, 24)),
            date_recorded: le_u16(b.subrange(24, 26)),
            starting_cluster_number_low: le_u16(b.subrange(26, 28)),
            file_length: le_u32(b.subrange(28, 32)),
        }
    }

    /// The bytes this entry occupies on disk: its fields in order, with
    /// nothing between them.
    pub open spec fn disk_bytes(&self) -> Seq<u8> {
        self.name@ + seq![self.attributes, self.reserved_for_nt, self.created_time_tenth]
            + le_bytes_u16(self.created_time) + le_bytes_u16(self.created_date) + le_bytes_u16(
            self.last_access_data,
        ) + le_bytes_u16(self.starting_cluster_number_high) + le_bytes_u16(self.time_recorded)
            + le_bytes_u16(self.date_recorded) + le_bytes_u16(self.starting_cluster_number_low)
            + le_bytes_u32(self.file_length)
    }

    /// Whether the attribute byte has the bit of `attribute` set.
    pub open spec fn spec_has_attribute(&self, attribute: Attribute) -> bool {
        self.attributes & attribute.spec_mask() != 0
    }

    /// The cluster at which the entry's data starts: the high half above the
    /// low half.
    pub open spec fn spec_starting_cluster(&self) -> int {
        self.starting_cluster_number_high as int * 65536 + self.starting_cluster_number_low as int
    }

    /// Decodes field by field.
    pub fn new(data: [u8; 32]) -> (r: Self)
        ensures
            r == Self::spec_new(data@),
    {
        let bytes: &[u8] = data.as_slice();
        let r = Self {
            name: take_array::<11>(bytes, 0),
            attributes: data[11],
            reserved_for_nt: data[12],
            created_time_tenth: data[13],
            created_time: read_u16(slice_subrange(bytes, 14, 16)),
            created_date: read_u16(slice_subrange(bytes, 16, 18)),
            last_access_data: read_u16(slice_subrange(bytes, 18, 20)),
            starting_cluster_number_high: read_u16(slice_subrange(bytes, 20, 22)),
            time_recorded: read_u16(slice_subrange(bytes, 22, 24)),
            date_recorded: read_u16(slice_subrange(bytes, 24, 26)),
            starting_cluster_number_low: read_u16(slice_subrange(bytes, 26, 28)),
            file_length: read_u32(slice_subrange(bytes, 28, 32)),
        };
        proof {
            lemma_array_of_view::<11>(r.name);
        }
        r
    }

    /// Decodes through `bincode`, field by field in the order in which the
    /// fields lie on disk.
    pub fn new_with_bincode(data: [u8; 32]) -> (r: Self)
        ensures
            r == Self::spec_new(data@),
    {
        let bytes: &[u8] = data.as_slice();
        let r = Self {
            name: deserialize_array::<11>(slice_subrange(bytes, 0, 11)).unwrap(),
            attributes: deserialize_u8(slice_subrange(bytes, 11, 12)).unwrap(),
            reserved_for_nt: deserialize_u8(slice_subrange(bytes, 12, 13)).unwrap(),
            created_time_tenth: deserialize_u8(slice_subrange(bytes, 13, 14)).unwrap(),
            created_time: deserialize_u16(slice_subrange(bytes, 14, 16)).unwrap(),
            created_date: deserialize_u16(slice_subrange(bytes, 16, 18)).unwrap(),
            last_access_data: deserialize_u16(slice_subrange(bytes, 18, 20)).unwrap(),
            starting_cluster_number_high: deserialize_u16(slice_subrange(bytes, 20, 22)).unwrap(),
            time_recorded: deserialize_u16(slice_subrange(bytes, 22, 24)).unwrap(),
            date_recorded: deserialize_u16(slice_subrange(bytes, 24, 26)).unwrap(),
            starting_cluster_number_low: deserialize_u16(slice_subrange(bytes, 26, 28)).unwrap(),
            file_length: deserialize_u32(slice_subrange(bytes, 28, 32)).unwrap(),
        };
        proof {
            assert(data@.subrange(0, 11).subrange(0, 11) =~= data@.subrange(0, 11));
            lemma_array_of_view::<11>(r.name);
        }
        r
    }

    /// Tells whether the attribute byte has the bit of `attribute` set.
    pub fn has_attribute(&self, attribute: Attribute) -> (set: bool)
        ensures
            set == self.spec_has_attribute(attribute),
    {
        self.attributes & attribute.mask() != 0
    }

    /// The cluster at which the entry's data starts.
    pub fn starting_cluster(&self) -> (cluster: u32)
        ensures
            cluster == self.spec_starting_cluster(),
    {
        let high: u32 = self.starting_cluster_number_high as u32;
        let low: u32 = self.starting_cluster_number_low as u32;
        high * 65536 + low
    }

    /// An entry takes 32 bytes on disk, and reading those bytes gives the
    /// entry back.
    pub proof fn lemma_disk_bytes(self)
        ensures
            self.disk_bytes().len() == DIRECTORY_ENTRY_SIZE,
            Self::spec_new(self.disk_bytes()) == self,
    {
        let b = self.disk_bytes();
        let e = seq![0u8, 0u8];
        let f = seq![0u8, 0u8, 0u8, 0u8];
        lemma_le_u16(self.created_time, e);
        lemma_le_u16(self.created_date, e);
        lemma_le_u16(self.last_access_data, e);
        lemma_le_u16(self.starting_cluster_number_high, e);
        lemma_le_u16(self.time_recorded, e);
        lemma_le_u16(self.date_recorded, e);
        lemma_le_u16(self.starting_cluster_number_low, e);
        lemma_le_u32(self.file_length, f);
        assert(b.len() == 32);
        assert(b.subrange(0, 11) =~= self.name@);
        assert(b.subrange(14, 16) =~= le_bytes_u16(self.created_time));
        assert(b.subrange(16, 18) =~= le_bytes_u16(self.created_date));
        assert(b.subrange(18, 20) =~= le_bytes_u16(self.last_access_data));
        assert(b.subrange(20, 22) =~= le_bytes_u16(self.starting_cluster_number_high));
        assert(b.subrange(22, 24) =~= le_bytes_u16(self.time_recorded));
        assert(b.subrange(24, 26) =~= le_bytes_u16(self.date_recorded));
        assert(b.subrange(26, 28) =~= le_bytes_u16(self.starting_cluster_number_low));
        assert(b.subrange(28, 32) =~= le_bytes_u32(self.file_length));
        lemma_array_of_view::<11>(self.name);
    }

    /// Any 32 bytes are the on-disk form of the entry read from them.
    pub proof fn lemma_spec_new(b: Seq<u8>)
        requires
            b.len() == DIRECTORY_ENTRY_SIZE,
        ensures
            Self::spec_new(b).disk_bytes() == b,
    {
        lemma_array_of::<11>(b.subrange(0, 11));
        lemma_le_u16(0, b.subrange(14, 16));
        lemma_le_u16(0, b.subrange(16, 18));
        lemma_le_u16(0, b.subrange(18, 20));
        lemma_le_u16(0, b.subrange(20, 22));
        lemma_le_u16(0, b.subrange(22, 24));
        lemma_le_u16(0, b.subrange(24, 26));
        lemma_le_u16(0, b.subrange(26, 28));
        lemma_le_u32(0, b.subrange(28, 32));
        assert(Self::spec_new(b).disk_bytes() =~= b);
    }
}

} // verus!
