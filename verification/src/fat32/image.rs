//! Opening a volume whose image is held in memory, and what opening any
//! volume comes to in terms of the bytes of its image.

use crate::define::{FsInfoSector, PartitionBootSector};
use crate::fat32::reader::{
    InitError, InitErrorKind, InitStep, ReadRequest, ReaderAction, ReaderView, SourceEvent,
    SourceEventView, VolumeReader,
};
use crate::fat32::{Fat32, Fat32View};
use vstd::pervasive::unreached;
use vstd::prelude::*;

verus! {

/// The request for the FS information sector of a volume with boot sector
/// `pbs`.
pub open spec fn fs_info_request(pbs: PartitionBootSector) -> ReadRequest {
    ReadRequest { offset: pbs.spec_fs_info_offset() as u64, len: pbs.sector_size as u64 }
}

/// The request for the first table copy of a volume with boot sector `pbs`.
pub open spec fn fat1_request(pbs: PartitionBootSector) -> ReadRequest {
    ReadRequest { offset: pbs.spec_fat1_offset() as u64, len: pbs.spec_fat_size_bytes() as u64 }
}

/// The request for the second table copy of a volume with boot sector `pbs`.
pub open spec fn fat2_request(pbs: PartitionBootSector) -> ReadRequest {
    ReadRequest { offset: pbs.spec_fat2_offset() as u64, len: pbs.spec_fat_size_bytes() as u64 }
}

/// What opening the volume with the bytes `image` gives.
///
/// The boot sector is the first 512 bytes. The FS information sector is the
/// first 512 bytes of the sector that the boot sector names, so a sector
/// size below 512 cannot hold it. The two table copies lie one behind the
/// other after the reserved sectors. An image that ends before one of these
/// does is a short read at that step.
pub open spec fn spec_init(image: Seq<u8>) -> Result<Fat32View, InitError> {
    if image.len() < 512 {
        Err(InitError { kind: InitErrorKind::ShortRead, step: InitStep::BootSector })
    } else {
        let pbs = PartitionBootSector::spec_new(image.subrange(0, 512));
        let sector = fs_info_request(pbs).spec_read(image);
        let fat1 = fat1_request(pbs).spec_read(image);
        let fat2 = fat2_request(pbs).spec_read(image);
        if sector.len() < pbs.sector_size {
            Err(InitError { kind: InitErrorKind::ShortRead, step: InitStep::FsInfo })
        } else if pbs.sector_size < 512 {
            Err(InitError { kind: InitErrorKind::DecodeFailure, step: InitStep::FsInfo })
        } else if fat1.len() < pbs.spec_fat_size_bytes() {
            Err(InitError { kind: InitErrorKind::ShortRead, step: InitStep::Fat1 })
        } else if fat2.len() < pbs.spec_fat_size_bytes() {
            Err(InitError { kind: InitErrorKind::ShortRead, step: InitStep::Fat2 })
        } else {
            Ok(
                Fat32View {
                    pbs,
                    fs_info: FsInfoSector::spec_new(sector.subrange(0, 512)),
                    fat1,
                    fat2,
                },
            )
        }
    }
}

/// The state of a reader that was told the source is open and then had
/// `reads` of its requests served from `image`.
pub open spec fn spec_after(image: Seq<u8>, reads: nat) -> ReaderView
    decreases reads,
{
    if reads == 0 {
        ReaderView::BootSector
    } else {
        let before = spec_after(image, (reads - 1) as nat);
        match before.spec_pending() {
            ReaderAction::Read(request) => before.spec_step(
                SourceEventView::Data(request.spec_read(image)),
            ),
            _ => before,
        }
    }
}

/// Four reads served from an image bring a reader to its end: to the opened
/// volume that `spec_init` names, or to the error that it names.
pub proof fn lemma_four_reads(image: Seq<u8>)
    ensures
        match spec_init(image) {
            Ok(volume) => spec_after(image, 4) == (ReaderView::Opened { volume }),
            Err(error) => spec_after(image, 4) == (ReaderView::Closed { error: Some(error) }),
        },
{
    reveal_with_fuel(spec_after, 5);
    let first = ReadRequest { offset: 0, len: 512 };
    first.lemma_read_short(image);
    if image.len() >= 512 {
        first.lemma_read_within(image);
        let pbs = PartitionBootSector::spec_new(image.subrange(0, 512));
        pbs.lemma_offsets_bounded();
        fs_info_request(pbs).lemma_read_short(image);
        fat1_request(pbs).lemma_read_short(image);
        fat2_request(pbs).lemma_read_short(image);
    }
}

impl Fat32 {
    /// Opens the volume whose image is `image`: reads the boot sector, the
    /// FS information sector and both table copies, each where the boot
    /// sector says it lies.
    pub fn init(image: &[u8]) -> (r: Result<Fat32, InitError>)
        ensures
            match r {
                Ok(volume) => spec_init(image@) == Ok::<Fat32View, InitError>(volume@)
                    && volume@.wf(),
                Err(error) => spec_init(image@) == Err::<Fat32View, InitError>(error),
            },
    {
        let mut reader: VolumeReader = VolumeReader::new().step(SourceEvent::Opened);
        let mut reads: usize = 0;
        while reads < 4
            invariant
                reads <= 4,
                reader@ == spec_after(image@, reads as nat),
            decreases 4 - reads,
        {
            proof {
                reveal_with_fuel(spec_after, 2);
            }
            match reader.pending() {
                ReaderAction::Read(request) => {
                    let bytes: Vec<u8> = request.read(image);
                    reader = reader.step(SourceEvent::Data(bytes));
                },
                _ => {},
            }
            reads += 1;
        }
        proof {
            lemma_four_reads(image@);
        }
        let error: Option<InitError> = reader.error();
        match reader.into_volume() {
            Some(volume) => Ok(volume),
            None => match error {
                Some(e) => Err(e),
                None => unreached(),
            },
        }
    }
}

/// A volume whose backup boot sector holds the bytes of its boot sector
/// gives the same boot sector when the backup is decoded, and the decoded
/// backup lays down as the first 512 bytes of the image.
pub proof fn lemma_backup_boot_sector(image: Seq<u8>, volume: Fat32View)
    requires
        spec_init(image) == Ok::<Fat32View, InitError>(volume),
        volume.pbs.spec_backup_boot_sector_offset() + 512 <= image.len(),
        image.subrange(
            volume.pbs.spec_backup_boot_sector_offset(),
            volume.pbs.spec_backup_boot_sector_offset() + 512,
        ) == image.subrange(0, 512),
    ensures
        PartitionBootSector::spec_new(
            image.subrange(
                volume.pbs.spec_backup_boot_sector_offset(),
                volume.pbs.spec_backup_boot_sector_offset() + 512,
            ),
        ) == volume.pbs,
        volume.pbs.disk_bytes() == image.subrange(0, 512),
{
    PartitionBootSector::lemma_spec_new(image.subrange(0, 512));
}

/// Opening a volume reads each table copy from its own place: the first at
/// the end of the reserved sectors, the second right behind the first.
pub proof fn lemma_tables_read(image: Seq<u8>, volume: Fat32View)
    requires
        spec_init(image) == Ok::<Fat32View, InitError>(volume),
    ensures
        volume.wf(),
        volume.pbs == PartitionBootSector::spec_new(image.subrange(0, 512)),
        volume.pbs.spec_fat2_offset() + volume.pbs.spec_fat_size_bytes() <= image.len()
            || volume.pbs.spec_fat_size_bytes() == 0,
        volume.pbs.spec_fat_size_bytes() > 0 ==> volume.fat1 == image.subrange(
            volume.pbs.spec_fat1_offset(),
            volume.pbs.spec_fat2_offset(),
        ) && volume.fat2 == image.subrange(
            volume.pbs.spec_fat2_offset(),
            volume.pbs.spec_fat2_offset() + volume.pbs.spec_fat_size_bytes(),
        ),
{
    let pbs = volume.pbs;
    pbs.lemma_offsets_bounded();
    fat1_request(pbs).lemma_read_short(image);
    fat2_request(pbs).lemma_read_short(image);
    if pbs.spec_fat_size_bytes() > 0 {
        fat1_request(pbs).lemma_read_within(image);
        fat2_request(pbs).lemma_read_within(image);
    }
}

/// On an image whose two table copies hold the same bytes, as on a freshly
/// formatted volume, opening gives two equal tables.
pub proof fn lemma_identical_tables(image: Seq<u8>, volume: Fat32View)
    requires
        spec_init(image) == Ok::<Fat32View, InitError>(volume),
        image.subrange(volume.pbs.spec_fat1_offset(), volume.pbs.spec_fat2_offset())
            == image.subrange(
            volume.pbs.spec_fat2_offset(),
            volume.pbs.spec_fat2_offset() + volume.pbs.spec_fat_size_bytes(),
        ),
    ensures
        volume.fat1 == volume.fat2,
{
    lemma_tables_read(image, volume);
    if volume.pbs.spec_fat_size_bytes() == 0 {
        assert(volume.fat1 =~= volume.fat2);
    }
}

} // verus!
