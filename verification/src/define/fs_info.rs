//! The FS information sector: signatures around two advisory counters.

use crate::bytes::{
    array_of, le_bytes_u32, le_u32, lemma_array_of, lemma_array_of_view, lemma_le_u32, take_array,
};
use crate::codec::{deserialize_array, deserialize_u32, read_u32};
use vstd::prelude::*;
use vstd::slice::slice_subrange;

verus! {

/// Bytes taken by an [`FsInfoSector`].
pub const FS_INFO_SECTOR_SIZE: usize = 512;

/// The FS information sector. Its two counters are hints: nothing promises
/// that they are accurate.
#[derive(Debug, Clone, Copy, PartialEq, Eq)]
pub struct FsInfoSector {
    pub lead_signature: [u8; 4],
    pub reserved1: [u8; 480],
    pub struct_signature: [u8; 4],
    pub free_cluster_count: u32,
    pub next_free_cluster: u32,
    pub reserved2: [u8; 12],
    pub tail_signature: [u8; 4],
}

impl FsInfoSector {
    /// The sector held in the 512 bytes `b`: each field at its fixed offset,
    /// byte runs as they are, the counters little-endian.
    pub open spec fn spec_new(b: Seq<u8>) -> FsInfoSector
        recommends
            b.len() == 512,
    {
        FsInfoSector {
            lead_signature: array_of::<4>(b.subrange(0, 4)),
            reserved1: array_of::<480>(b.subrange(4, 484)),
            struct_signature: array_of::<4>(b.subrange(484, 488)),
            free_cluster_count: le_u32(b.subrange(488, 492)),
            next_free_cluster: le_u32(b.subrange(492, 496)),
            reserved2: array_of::<12>(b.subrange(496, 508)),
            tail_signature: array_of::<4>(b.subrange(508, 512)),
        }
    }

    /// The bytes this sector occupies on disk: its fields in order, with
    /// nothing between them.
    pub open spec fn disk_bytes(&self) -> Seq<u8> {
        self.lead_signature@ + self.reserved1@ + self.struct_signature@ + le_bytes_u32(
            self.free_cluster_count,
        ) + le_bytes_u32(self.next_free_cluster) + self.reserved2@ + self.tail_signature@
    }

    /// Whether the three signatures are those the format asks for: `RRaA` in
    /// front, `rrAa` before the counters, `00 00 55 AA` at the end.
    pub open spec fn spec_is_valid(&self) -> bool {
        &&& self.lead_signature@ == seq![0x52u8, 0x52u8, 0x61u8, 0x41u8]
        &&& self.struct_signature@ == seq![0x72u8, 0x72u8, 0x41u8, 0x61u8]
        &&& self.tail_signature@ == seq![0x00u8, 0x00u8, 0x55u8, 0xAAu8]
    }

    /// Decodes field by field.
    pub fn new(data: [u8; 512]) -> (r: Self)
        ensures
            r == Self::spec_new(data@),
    {
        let bytes: &[u8] = data.as_slice();
        let r = Self {
            lead_signature: take_array::<4>(bytes, 0),
            reserved1: take_array::<480>(bytes, 4),
            struct_signature: take_array::<4>(bytes, 484),
            free_cluster_count: read_u32(slice_subrange(bytes, 488, 492)),
            next_free_cluster: read_u32(slice_subrange(bytes, 492, 496)),
            reserved2: take_array::<12>(bytes, 496),
            tail_signature: take_array::<4>(bytes, 508),
        };
        proof {
            r.lemma_byte_runs(data@);
        }
        r
    }

    /// Decodes through `bincode`, field by field in the order in which the
    /// fields lie on disk.
    pub fn new_with_bincode(data: [u8; 512]) -> (r: Self)
        ensures
            r == Self::spec_new(data@),
    {
        let bytes: &[u8] = data.as_slice();
        let r = Self {
            lead_signature: deserialize_array::<4>(slice_subrange(bytes, 0, 4)).unwrap(),
            reserved1: deserialize_array::<480>(slice_subrange(bytes, 4, 484)).unwrap(),
            struct_signature: deserialize_array::<4>(slice_subrange(bytes, 484, 488)).unwrap(),
            free_cluster_count: deserialize_u32(slice_subrange(bytes, 488, 492)).unwrap(),
            next_free_cluster: deserialize_u32(slice_subrange(bytes, 492, 496)).unwrap(),
            reserved2: deserialize_array::<12>(slice_subrange(bytes, 496, 508)).unwrap(),
            tail_signature: deserialize_array::<4>(slice_subrange(bytes, 508, 512)).unwrap(),
        };
        proof {
            assert(data@.subrange(0, 4).subrange(0, 4) =~= data@.subrange(0, 4));
            assert(data@.subrange(4, 484).subrange(0, 480) =~= data@.subrange(4, 484));
            assert(data@.subrange(484, 488).subrange(0, 4) =~= data@.subrange(484, 488));
            assert(data@.subrange(496, 508).subrange(0, 12) =~= data@.subrange(496, 508));
            assert(data@.subrange(508, 512).subrange(0, 4) =~= data@.subrange(508, 512));
            r.lemma_byte_runs(data@);
        }
        r
    }

    /// Decodes an FS information sector from the head of `data` through
    /// `bincode`, which reports a slice of fewer than 512 bytes as an error
    /// and ignores what follows the sector.
    pub fn deserialize(data: &[u8]) -> (r: Result<Self, bincode::Error>)
        ensures
            r is Ok <==> data@.len() >= FS_INFO_SECTOR_SIZE,
            r matches Ok(sector) ==> sector == Self::spec_new(data@.subrange(0, 512)),
    {
        match deserialize_array::<512>(data) {
            Ok(sector) => Ok(Self::new_with_bincode(sector)),
            Err(e) => Err(e),
        }
    }

    /// Tells whether the three signatures are those the format asks for.
    pub fn is_valid(&self) -> (ok: bool)
        ensures
            ok == self.spec_is_valid(),
    {
        let lead: bool = self.lead_signature[0] == 0x52 && self.lead_signature[1] == 0x52
            && self.lead_signature[2] == 0x61 && self.lead_signature[3] == 0x41;
        let inner: bool = self.struct_signature[0] == 0x72 && self.struct_signature[1] == 0x72
            && self.struct_signature[2] == 0x41 && self.struct_signature[3] == 0x61;
        let tail: bool = self.tail_signature[0] == 0x00 && self.tail_signature[1] == 0x00
            && self.tail_signature[2] == 0x55 && self.tail_signature[3] == 0xAA;
        proof {
            let l = seq![0x52u8, 0x52u8, 0x61u8, 0x41u8];
            let s = seq![0x72u8, 0x72u8, 0x41u8, 0x61u8];
            let t = seq![0x00u8, 0x00u8, 0x55u8, 0xAAu8];
            assert(l[0] == 0x52 && l[1] == 0x52 && l[2] == 0x61 && l[3] == 0x41);
            assert(s[0] == 0x72 && s[1] == 0x72 && s[2] == 0x41 && s[3] == 0x61);
            assert(t[0] == 0x00 && t[1] == 0x00 && t[2] == 0x55 && t[3] == 0xAA);
            if lead {
                assert(self.lead_signature@ =~= l);
            }
            if inner {
                assert(self.struct_signature@ =~= s);
            }
            if tail {
                assert(self.tail_signature@ =~= t);
            }
        }
        lead && inner && tail
    }

    /// The sector takes 512 bytes on disk, and reading those bytes gives the
    /// sector back.
    pub proof fn lemma_disk_bytes(self)
        ensures
            self.disk_bytes().len() == FS_INFO_SECTOR_SIZE,
            Self::spec_new(self.disk_bytes()) == self,
    {
        let b = self.disk_bytes();
        let f = seq![0u8, 0u8, 0u8, 0u8];
        lemma_le_u32(self.free_cluster_count, f);
        lemma_le_u32(self.next_free_cluster, f);
        assert(b.len() == 512);
        assert(b.subrange(0, 4) =~= self.lead_signature@);
        assert(b.subrange(4, 484) =~= self.reserved1@);
        assert(b.subrange(484, 488) =~= self.struct_signature@);
        assert(b.subrange(488, 492) =~= le_bytes_u32(self.free_cluster_count));
        assert(b.subrange(492, 496) =~= le_bytes_u32(self.next_free_cluster));
        assert(b.subrange(496, 508) =~= self.reserved2@);
        assert(b.subrange(508, 512) =~= self.tail_signature@);
        self.lemma_byte_runs(b);
    }

    /// Any 512 bytes are the on-disk form of the sector read from them.
    pub proof fn lemma_spec_new(b: Seq<u8>)
        requires
            b.len() == FS_INFO_SECTOR_SIZE,
        ensures
            Self::spec_new(b).disk_bytes() == b,
    {
        lemma_array_of::<4>(b.subrange(0, 4));
        lemma_array_of::<480>(b.subrange(4, 484));
        lemma_array_of::<4>(b.subrange(484, 488));
        lemma_le_u32(0, b.subrange(488, 492));
        lemma_le_u32(0, b.subrange(492, 496));
        lemma_array_of::<12>(b.subrange(496, 508));
        lemma_array_of::<4>(b.subrange(508, 512));
        assert(Self::spec_new(b).disk_bytes() =~= b);
    }

    /// A record whose byte runs hold the same bytes as those read from `b`
    /// has the very arrays that `spec_new` names.
    proof fn lemma_byte_runs(self, b: Seq<u8>)
        requires
            b.len() == 512,
            self.lead_signature@ == b.subrange(0, 4),
            self.reserved1@ == b.subrange(4, 484),
            self.struct_signature@ == b.subrange(484, 488),
            self.reserved2@ == b.subrange(496, 508),
            self.tail_signature@ == b.subrange(508, 512),
        ensures
            self.lead_signature == array_of::<4>(b.subrange(0, 4)),
            self.reserved1 == array_of::<480>(b.subrange(4, 484)),
            self.struct_signature == array_of::<4>(b.subrange(484, 488)),
            self.reserved2 == array_of::<12>(b.subrange(496, 508)),
            self.tail_signature == array_of::<4>(b.subrange(508, 512)),
    {
        lemma_array_of_view::<4>(self.lead_signature);
        lemma_array_of_view::<480>(self.reserved1);
        lemma_array_of_view::<4>(self.struct_signature);
        lemma_array_of_view::<12>(self.reserved2);
        lemma_array_of_view::<4>(self.tail_signature);
    }
}

} // verus!
