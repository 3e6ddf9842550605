use rat::fat32::{
    InitError, InitErrorKind, InitStep, ReadRequest, ReaderAction, SourceEvent, VolumeReader,
    VolumeState,
};
use rat::{Fat32, FatEntryValue, FsInfoSector, PartitionBootSector, DEFAULT_SECTOR_SIZE};

fn put_u16(image: &mut [u8], at: usize, value: u16) {
    image[at..at + 2].copy_from_slice(&value.to_le_bytes());
}

fn put_u32(image: &mut [u8], at: usize, value: u32) {
    image[at..at + 4].copy_from_slice(&value.to_le_bytes());
}

/// A freshly formatted volume of 16 sectors of 512 bytes: 8 reserved
/// sectors with the FS information sector in sector 1 and the backup boot
/// sector in sector 6, two tables of 2 sectors each, 4 data clusters.
fn sample_image() -> Vec<u8> {
    let mut image = vec![0u8; 16 * 512];
    image[0..3].copy_from_slice(&[0xeb, 0x58, 0x90]);
    image[3..11].copy_from_slice(b"mkfs.fat");
    put_u16(&mut image, 11, 512);
    image[13] = 1;
    put_u16(&mut image, 14, 8);
    image[16] = 2;
    image[21] = 0xf8;
    put_u32(&mut image, 32, 16);
    put_u32(&mut image, 36, 2);
    put_u32(&mut image, 44, 2);
    put_u16(&mut image, 48, 1);
    put_u16(&mut image, 50, 6);
    image[64] = 0x80;
    image[66] = 0x29;
    image[82..90].copy_from_slice(b"FAT32   ");
    image[510] = 0x55;
    image[511] = 0xaa;
    image[512..516].copy_from_slice(&[0x52, 0x52, 0x61, 0x41]);
    image[512 + 484..512 + 488].copy_from_slice(&[0x72, 0x72, 0x41, 0x61]);
    put_u32(&mut image, 512 + 488, 3);
    put_u32(&mut image, 512 + 492, 5);
    image[512 + 508..1024].copy_from_slice(&[0x00, 0x00, 0x55, 0xaa]);
    let boot: Vec<u8> = image[0..512].to_vec();
    image[6 * 512..7 * 512].copy_from_slice(&boot);
    for table in [8 * 512, 10 * 512] {
        put_u32(&mut image, table, 0x0fff_fff8);
        put_u32(&mut image, table + 4, 0xffff_ffff);
        put_u32(&mut image, table + 8, 0x0fff_fff8);
        put_u32(&mut image, table + 12, 4);
        put_u32(&mut image, table + 16, 0x0fff_ffff);
        put_u32(&mut image, table + 24, 0x0fff_fff7);
    }
    image
}

fn error(kind: InitErrorKind, step: InitStep) -> InitError {
    InitError { kind, step }
}

/// Drives a reader the way a file-backed caller would, with reads served
/// from `image`.
fn drive(image: &[u8]) -> VolumeReader {
    let mut reader = VolumeReader::new();
    loop {
        let event = match reader.pending() {
            ReaderAction::Open => SourceEvent::Opened,
            ReaderAction::Read(request) => SourceEvent::Data(request.read(image)),
            ReaderAction::Idle | ReaderAction::Fail(_) => return reader,
        };
        reader = reader.step(event);
    }
}

#[test]
fn init_test() {
    let image = sample_image();
    let fat32 = Fat32::init(&image).unwrap();
    assert_eq!(DEFAULT_SECTOR_SIZE, fat32.sector_size().into());
}

#[test]
fn init_reads_everything_from_its_place() {
    let image = sample_image();
    let fat32 = Fat32::init(&image).unwrap();
    assert_eq!(*fat32.pbs(), PartitionBootSector::deserialize(&image[0..512]).unwrap());
    assert_eq!(
        *fat32.fs_info_sector(),
        FsInfoSector::deserialize(&image[512..1024]).unwrap()
    );
    assert_eq!(fat32.fat1().as_bytes(), &image[8 * 512..10 * 512]);
    assert_eq!(fat32.fat2().as_bytes(), &image[10 * 512..12 * 512]);
    assert_eq!(fat32.sector_size(), 512);
    assert_eq!(fat32.total_sectors(), 16);
    assert_eq!(fat32.sectors_per_cluster(), 1);
    assert_eq!(fat32.cluster_size(), 512);
    assert_eq!(fat32.root_cluster(), 2);
    assert_eq!(fat32.fs_info(), 1);
}

#[test]
fn init_cluster_size_is_sectors_per_cluster_times_sector_size() {
    let mut image = sample_image();
    image[13] = 8;
    let fat32 = Fat32::init(&image).unwrap();
    assert_eq!(fat32.sectors_per_cluster(), 8);
    assert_eq!(fat32.cluster_size(), 4096);
}

#[test]
fn init_fresh_volume_has_identical_tables() {
    let image = sample_image();
    let fat32 = Fat32::init(&image).unwrap();
    assert_eq!(fat32.fat1(), fat32.fat2());
    assert_eq!(fat32.fat1().len(), 1024);
}

#[test]
fn init_keeps_differing_tables_apart() {
    let mut image = sample_image();
    put_u32(&mut image, 10 * 512 + 12, 0x0fff_ffff);
    let fat32 = Fat32::init(&image).unwrap();
    assert_ne!(fat32.fat1(), fat32.fat2());
    assert_eq!(fat32.fat1().entry(3).unwrap().data(), 4);
    assert_eq!(fat32.fat2().entry(3).unwrap().data(), 0x0fff_ffff);
}

#[test]
fn init_backup_boot_sector_matches() {
    let image = sample_image();
    let fat32 = Fat32::init(&image).unwrap();
    let at = fat32.pbs().backup_boot_sector_offset() as usize;
    assert_eq!(at, 6 * 512);
    assert_eq!(&image[at..at + 512], &image[0..512]);
    assert_eq!(
        PartitionBootSector::deserialize(&image[at..at + 512]).unwrap(),
        *fat32.pbs()
    );
}

#[test]
fn init_classifies_table_slots() {
    let image = sample_image();
    let fat32 = Fat32::init(&image).unwrap();
    assert_eq!(fat32.fat_entry_value(0), Some(FatEntryValue::EndOfChain));
    assert_eq!(fat32.fat_entry_value(1), Some(FatEntryValue::EndOfChain));
    assert_eq!(fat32.fat_entry_value(2), Some(FatEntryValue::EndOfChain));
    assert_eq!(fat32.fat_entry_value(3), Some(FatEntryValue::Allocated(4)));
    assert_eq!(fat32.fat_entry_value(4), Some(FatEntryValue::EndOfChain));
    assert_eq!(fat32.fat_entry_value(5), Some(FatEntryValue::NotUsed));
    assert_eq!(fat32.fat_entry_value(6), Some(FatEntryValue::Defective));
    assert_eq!(fat32.fat_entry_value(255), Some(FatEntryValue::NotUsed));
    assert_eq!(fat32.fat_entry_value(256), None);
}

#[test]
fn init_short_boot_sector() {
    let image = sample_image();
    let expected = error(InitErrorKind::ShortRead, InitStep::BootSector);
    assert_eq!(Fat32::init(&image[..511]), Err(expected));
    assert_eq!(Fat32::init(&[]), Err(expected));
}

#[test]
fn init_short_fs_info() {
    let image = sample_image();
    let expected = error(InitErrorKind::ShortRead, InitStep::FsInfo);
    assert_eq!(Fat32::init(&image[..512]), Err(expected));
    assert_eq!(Fat32::init(&image[..1023]), Err(expected));
}

#[test]
fn init_sector_too_small_for_fs_info() {
    let mut image = sample_image();
    put_u16(&mut image, 11, 256);
    assert_eq!(
        Fat32::init(&image),
        Err(error(InitErrorKind::DecodeFailure, InitStep::FsInfo))
    );
    put_u16(&mut image, 11, 0);
    assert_eq!(
        Fat32::init(&image),
        Err(error(InitErrorKind::DecodeFailure, InitStep::FsInfo))
    );
}

#[test]
fn init_short_tables() {
    let image = sample_image();
    assert_eq!(
        Fat32::init(&image[..1024]),
        Err(error(InitErrorKind::ShortRead, InitStep::Fat1))
    );
    assert_eq!(
        Fat32::init(&image[..10 * 512 - 1]),
        Err(error(InitErrorKind::ShortRead, InitStep::Fat1))
    );
    assert_eq!(
        Fat32::init(&image[..10 * 512]),
        Err(error(InitErrorKind::ShortRead, InitStep::Fat2))
    );
    assert_eq!(
        Fat32::init(&image[..12 * 512 - 1]),
        Err(error(InitErrorKind::ShortRead, InitStep::Fat2))
    );
    assert!(Fat32::init(&image[..12 * 512]).is_ok());
}

#[test]
fn init_large_sectors_use_the_head_of_the_fs_info_sector() {
    let mut image = vec![0u8; 8 * 1024];
    let small = sample_image();
    image[0..512].copy_from_slice(&small[0..512]);
    put_u16(&mut image, 11, 1024);
    put_u16(&mut image, 14, 2);
    put_u32(&mut image, 36, 1);
    image[1024..1536].copy_from_slice(&small[512..1024]);
    image[1536] = 0xee;
    put_u32(&mut image, 2048, 0x0fff_fff8);
    let fat32 = Fat32::init(&image).unwrap();
    assert_eq!(fat32.sector_size(), 1024);
    assert_eq!(
        *fat32.fs_info_sector(),
        FsInfoSector::deserialize(&small[512..1024]).unwrap()
    );
    assert_eq!(fat32.fat1().as_bytes(), &image[2048..3072]);
    assert_eq!(fat32.fat2().as_bytes(), &image[3072..4096]);
}

#[test]
fn reader_asks_for_each_read_in_turn() {
    let image = sample_image();
    let reader = VolumeReader::new();
    assert_eq!(reader.state(), VolumeState::Unopened);
    assert_eq!(reader.pending(), ReaderAction::Open);

    let reader = reader.step(SourceEvent::Opened);
    let boot = ReadRequest { offset: 0, len: 512 };
    assert_eq!(reader.pending(), ReaderAction::Read(boot));
    assert_eq!(reader.state(), VolumeState::Unopened);

    let reader = reader.step(SourceEvent::Data(boot.read(&image)));
    let info = ReadRequest { offset: 512, len: 512 };
    assert_eq!(reader.pending(), ReaderAction::Read(info));

    let reader = reader.step(SourceEvent::Data(info.read(&image)));
    let fat1 = ReadRequest { offset: 8 * 512, len: 1024 };
    assert_eq!(reader.pending(), ReaderAction::Read(fat1));

    let reader = reader.step(SourceEvent::Data(fat1.read(&image)));
    let fat2 = ReadRequest { offset: 10 * 512, len: 1024 };
    assert_eq!(reader.pending(), ReaderAction::Read(fat2));
    assert_eq!(reader.state(), VolumeState::Unopened);
    assert_eq!(reader.error(), None);

    let reader = reader.step(SourceEvent::Data(fat2.read(&image)));
    assert_eq!(reader.pending(), ReaderAction::Idle);
    assert_eq!(reader.state(), VolumeState::Opened);
    assert_eq!(reader.error(), None);
    assert_eq!(reader.into_volume(), Some(Fat32::init(&image).unwrap()));
}

#[test]
fn reader_driven_like_a_file_agrees_with_init() {
    let image = sample_image();
    assert_eq!(drive(&image).into_volume(), Fat32::init(&image).ok());
    for cut in [0usize, 100, 512, 1000, 1024, 5000, 5120, 6000] {
        let reader = drive(&image[..cut]);
        assert_eq!(reader.state(), VolumeState::Closed);
        assert_eq!(reader.error(), Fat32::init(&image[..cut]).err());
        assert_eq!(reader.into_volume(), None);
    }
}

#[test]
fn reader_open_failure() {
    let reader = VolumeReader::new().step(SourceEvent::OpenFailed);
    let expected = error(InitErrorKind::OpenFailure, InitStep::Open);
    assert_eq!(reader.state(), VolumeState::Closed);
    assert_eq!(reader.pending(), ReaderAction::Fail(expected));
    assert_eq!(reader.error(), Some(expected));
    assert_eq!(reader.into_volume(), None);
}

#[test]
fn reader_rejects_more_bytes_than_asked_for() {
    let image = sample_image();
    let reader = VolumeReader::new()
        .step(SourceEvent::Opened)
        .step(SourceEvent::Data(image[..513].to_vec()));
    assert_eq!(
        reader.error(),
        Some(error(InitErrorKind::DecodeFailure, InitStep::BootSector))
    );

    let reader = VolumeReader::new()
        .step(SourceEvent::Opened)
        .step(SourceEvent::Data(image[..512].to_vec()))
        .step(SourceEvent::Data(image[512..1025].to_vec()));
    assert_eq!(
        reader.error(),
        Some(error(InitErrorKind::DecodeFailure, InitStep::FsInfo))
    );

    let reader = VolumeReader::new()
        .step(SourceEvent::Opened)
        .step(SourceEvent::Data(image[..512].to_vec()))
        .step(SourceEvent::Data(image[512..1024].to_vec()))
        .step(SourceEvent::Data(image[4096..5121].to_vec()));
    assert_eq!(
        reader.error(),
        Some(error(InitErrorKind::DecodeFailure, InitStep::Fat1))
    );

    let reader = VolumeReader::new()
        .step(SourceEvent::Opened)
        .step(SourceEvent::Data(image[..512].to_vec()))
        .step(SourceEvent::Data(image[512..1024].to_vec()))
        .step(SourceEvent::Data(image[4096..5120].to_vec()))
        .step(SourceEvent::Data(image[5120..6145].to_vec()));
    assert_eq!(
        reader.error(),
        Some(error(InitErrorKind::DecodeFailure, InitStep::Fat2))
    );
    assert_eq!(reader.state(), VolumeState::Closed);
}

#[test]
fn reader_ignores_events_that_answer_nothing() {
    let image = sample_image();
    let reader = VolumeReader::new().step(SourceEvent::Data(image[..512].to_vec()));
    assert_eq!(reader.pending(), ReaderAction::Open);

    let reader = reader.step(SourceEvent::Opened).step(SourceEvent::Opened);
    assert_eq!(
        reader.pending(),
        ReaderAction::Read(ReadRequest { offset: 0, len: 512 })
    );
    let reader = reader.step(SourceEvent::OpenFailed);
    assert_eq!(
        reader.pending(),
        ReaderAction::Read(ReadRequest { offset: 0, len: 512 })
    );

    let opened = drive(&image)
        .step(SourceEvent::Data(vec![1, 2, 3]))
        .step(SourceEvent::OpenFailed);
    assert_eq!(opened.state(), VolumeState::Opened);
    assert_eq!(opened.into_volume(), Fat32::init(&image).ok());

    let failed = VolumeReader::new()
        .step(SourceEvent::OpenFailed)
        .step(SourceEvent::Opened)
        .step(SourceEvent::Data(image[..512].to_vec()));
    assert_eq!(
        failed.error(),
        Some(error(InitErrorKind::OpenFailure, InitStep::Open))
    );
}

#[test]
fn reader_close() {
    let image = sample_image();
    let closed = drive(&image).close();
    assert_eq!(closed.state(), VolumeState::Closed);
    assert_eq!(closed.pending(), ReaderAction::Idle);
    assert_eq!(closed.error(), None);
    assert_eq!(closed.into_volume(), None);

    let closed = VolumeReader::new().close();
    assert_eq!(closed.state(), VolumeState::Closed);
    assert_eq!(closed.step(SourceEvent::Opened).state(), VolumeState::Closed);

    let failed = drive(&image[..100]).close();
    assert_eq!(
        failed.error(),
        Some(error(InitErrorKind::ShortRead, InitStep::BootSector))
    );
}

#[test]
fn read_request_is_clipped_to_the_image() {
    let image: Vec<u8> = (0u8..10).collect();
    let read = |offset: u64, len: u64| ReadRequest { offset, len }.read(&image);
    assert_eq!(read(0, 10), image);
    assert_eq!(read(2, 3), vec![2, 3, 4]);
    assert_eq!(read(8, 5), vec![8, 9]);
    assert_eq!(read(10, 1), Vec::<u8>::new());
    assert_eq!(read(11, 4), Vec::<u8>::new());
    assert_eq!(read(3, 0), Vec::<u8>::new());
    assert_eq!(read(u64::MAX, u64::MAX), Vec::<u8>::new());
    assert_eq!(read(1, u64::MAX), image[1..].to_vec());
}
