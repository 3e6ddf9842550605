use rat::{FatEntryValue, FileAllocationTable, FsInfoSector, PartitionBootSector};

fn put_u16(image: &mut [u8], at: usize, value: u16) {
    image[at..at + 2].copy_from_slice(&value.to_le_bytes());
}

fn put_u32(image: &mut [u8], at: usize, value: u32) {
    image[at..at + 4].copy_from_slice(&value.to_le_bytes());
}

/// The boot sector of a small volume: 512-byte sectors, one sector per
/// cluster, 8 reserved sectors, two tables of 2 sectors each.
fn sample_boot_sector() -> [u8; 512] {
    let mut s = [0u8; 512];
    s[0..3].copy_from_slice(&[0xeb, 0x58, 0x90]);
    s[3..11].copy_from_slice(b"mkfs.fat");
    put_u16(&mut s, 11, 512);
    s[13] = 1;
    put_u16(&mut s, 14, 8);
    s[16] = 2;
    s[21] = 0xf8;
    put_u16(&mut s, 24, 32);
    put_u16(&mut s, 26, 64);
    put_u32(&mut s, 32, 16);
    put_u32(&mut s, 36, 2);
    put_u32(&mut s, 44, 2);
    put_u16(&mut s, 48, 1);
    put_u16(&mut s, 50, 6);
    s[64] = 0x80;
    s[66] = 0x29;
    put_u32(&mut s, 67, 0x1234_5678);
    s[71..82].copy_from_slice(b"NO NAME    ");
    s[82..90].copy_from_slice(b"FAT32   ");
    s[510] = 0x55;
    s[511] = 0xaa;
    s
}

fn sample_fs_info() -> [u8; 512] {
    let mut s = [0u8; 512];
    s[0..4].copy_from_slice(&[0x52, 0x52, 0x61, 0x41]);
    s[484..488].copy_from_slice(&[0x72, 0x72, 0x41, 0x61]);
    put_u32(&mut s, 488, 3);
    put_u32(&mut s, 492, 5);
    s[508..512].copy_from_slice(&[0x00, 0x00, 0x55, 0xaa]);
    s
}

fn sample_fat() -> Vec<u8> {
    let mut fat = vec![0u8; 1024];
    put_u32(&mut fat, 0, 0x0fff_fff8);
    put_u32(&mut fat, 4, 0xffff_ffff);
    put_u32(&mut fat, 8, 0x0fff_fff8);
    put_u32(&mut fat, 12, 4);
    put_u32(&mut fat, 16, 0x0fff_ffff);
    put_u32(&mut fat, 24, 0x0fff_fff7);
    fat
}

/// A freshly formatted volume of 16 sectors.
fn sample_image() -> Vec<u8> {
    let mut image = vec![0u8; 16 * 512];
    image[0..512].copy_from_slice(&sample_boot_sector());
    image[512..1024].copy_from_slice(&sample_fs_info());
    image[6 * 512..7 * 512].copy_from_slice(&sample_boot_sector());
    image[7 * 512..8 * 512].copy_from_slice(&sample_fs_info());
    image[8 * 512..10 * 512].copy_from_slice(&sample_fat());
    image[10 * 512..12 * 512].copy_from_slice(&sample_fat());
    image
}

#[test]
fn partition_boot_sector() {
    let image = sample_image();
    let mut data = [0; 512];
    data.copy_from_slice(&image[0..512]);
    let pbs = PartitionBootSector::deserialize(&data[..]).unwrap();
    println!(
        "Creating System Identifier: {:?}",
        String::from_utf8(pbs.creating_system_identifier.to_vec()).unwrap()
    );
    println!("Sector Size: 0x{:x}", pbs.sector_size);
    println!("Sectors per Cluster: {}", pbs.sectors_per_cluster);
    println!("Reserved Sector Count: {}", pbs.reserved_sector_count);
    println!("Number of FATs: {}", pbs.number_of_fats);
    println!(
        "Number of Root-directory Entries: {}",
        pbs.number_of_root_directory_entries
    );
    println!("Total Sectors: {}", pbs.total_sectors);
    assert_eq!(0xf8, pbs.medium_identifier);
    println!("Sectors per FAT: {}", pbs.sectors_per_fat);
    println!("Sectors per Track: {}", pbs.sectors_per_track);
    println!("Number of Sides: {}", pbs.number_of_sides);
    println!("Number of Hidden Sectors: {}", pbs.number_of_hidden_sectors);
    println!("Total Sectors: {}", pbs.total_sectors2);
    println!(
        "Sectors per FAT for FAT32: {}",
        pbs.sectors_per_fat_for_fat32
    );
    println!("Extension Flag: {}", pbs.extension_flag);
    assert_eq!(0x0000, pbs.fs_version);
    println!("Root Cluster: {}", pbs.root_cluster);
    println!("FS Info: {}", pbs.fs_info);
    println!("Backup Boot Sector: {}", pbs.backup_boot_sector);
    assert_eq!(0x80, pbs.physical_disk_number);
    assert_eq!(0x29, pbs.extended_boot_record_signature);
    println!("Volume ID Number: {}", pbs.volume_id_number);
    println!(
        "Volume Label: {:?}",
        String::from_utf8(pbs.volume_label.to_vec()).unwrap()
    );
    println!(
        "File System Type: {:?}",
        String::from_utf8(pbs.file_system_type.to_vec()).unwrap()
    );
    assert_eq!([0x55, 0xaa], pbs.signature_word);
}

#[test]
fn back_partition_boot_sector() {
    let image = sample_image();
    let mut pbs_data = [0; 512];
    pbs_data.copy_from_slice(&image[0..512]);
    let pbs = PartitionBootSector::deserialize(&pbs_data[..]).unwrap();
    let sector_size = pbs.sector_size;
    let backup_boot_sector = pbs.backup_boot_sector;
    let start = (backup_boot_sector * sector_size) as usize;
    assert_eq!(start as u64, pbs.backup_boot_sector_offset());
    let backup_pbs_data = image[start..start + sector_size as usize].to_vec();
    assert_eq!(backup_pbs_data, pbs_data);
    let mut backup = [0u8; 512];
    backup.copy_from_slice(&backup_pbs_data);
    assert_eq!(PartitionBootSector::new(backup), pbs);
}

#[test]
fn fs_info_sector() {
    let image = sample_image();
    let pbs = PartitionBootSector::deserialize(&image[0..512]).unwrap();
    let sector_size = pbs.sector_size;
    let fs_info = pbs.fs_info;
    let start = (fs_info * sector_size) as usize;
    assert_eq!(start as u64, pbs.fs_info_offset());
    let fs_info_data = image[start..start + sector_size as usize].to_vec();
    let fis = FsInfoSector::deserialize(&fs_info_data[..]).unwrap();

    assert_eq!([0x52, 0x52, 0x61, 0x41], fis.lead_signature);
    println!("free cluster count: {}", fis.free_cluster_count);
    assert_eq!([0x72, 0x72, 0x41, 0x61], fis.struct_signature);
    println!("next free cluster: {}", fis.next_free_cluster);
    assert_eq!([0x00, 0x00, 0x55, 0xaa], fis.tail_signature);
    assert_eq!(fis.free_cluster_count, 3);
    assert_eq!(fis.next_free_cluster, 5);
    assert!(fis.is_valid());
}

#[test]
fn back_fs_info_sector() {
    let image = sample_image();
    let pbs = PartitionBootSector::deserialize(&image[0..512]).unwrap();
    let sector_size = pbs.sector_size;
    println!("Backup Boot Sector: {}", pbs.backup_boot_sector);
    let backup_boot_sector = pbs.backup_boot_sector;
    let backup_fs_info = backup_boot_sector + 1;
    let start = (backup_fs_info * sector_size) as usize;
    let backup_fs_info_data = image[start..start + sector_size as usize].to_vec();

    let fis = FsInfoSector::deserialize(&backup_fs_info_data[..]).unwrap();
    if [0x52, 0x52, 0x61, 0x41] != fis.lead_signature {
        println!("No Backup FS Info Sector");
    }
    assert_eq!(fis, FsInfoSector::deserialize(&image[512..1024]).unwrap());
}

#[test]
fn file_allocation_table_compare() {
    let image = sample_image();
    let pbs = PartitionBootSector::deserialize(&image[0..512]).unwrap();

    println!("Reserved Sector Count: {}", pbs.reserved_sector_count);
    println!(
        "Sectors per FAT for FAT32: {}",
        pbs.sectors_per_fat_for_fat32
    );

    let sector_size = pbs.sector_size;
    let f1 = pbs.reserved_sector_count;
    let fat_size = (pbs.sectors_per_fat_for_fat32 as usize) * (sector_size as usize);
    let start = (f1 * sector_size) as usize;
    assert_eq!(start as u64, pbs.fat1_offset());
    assert_eq!(fat_size as u64, pbs.fat_size_bytes());
    assert_eq!((start + fat_size) as u64, pbs.fat2_offset());
    let fat1_data = image[start..start + fat_size].to_vec();
    let fat2_data = image[start + fat_size..start + 2 * fat_size].to_vec();
    assert_eq!(fat1_data, fat2_data);
}

#[test]
fn file_allocation_table() {
    let image = sample_image();
    let pbs = PartitionBootSector::deserialize(&image[0..512]).unwrap();

    println!("Reserved Sector Count: {}", pbs.reserved_sector_count);
    println!(
        "Sectors per FAT for FAT32: {}",
        pbs.sectors_per_fat_for_fat32
    );

    let start = pbs.fat1_offset() as usize;
    let fat_size = pbs.fat_size_bytes() as usize;
    let fat1_data = image[start..start + fat_size].to_vec();

    let cluster = bincode::deserialize::<u32>(&fat1_data[0..4]).unwrap();
    let table = FileAllocationTable::new(fat1_data);
    assert_eq!(table.entry(0).unwrap().data(), cluster);

    let value = FatEntryValue::from_raw(cluster);
    println!("cluster: 0x{:x}, value : {:?}", cluster, value);
    assert_eq!(value, FatEntryValue::EndOfChain);
    assert_eq!(table.fat_entry_value(0), Some(value));
}

#[test]
fn boot_sector_fields_lie_at_their_offsets() {
    let mut data = [0u8; 512];
    for i in 0..512 {
        data[i] = ((i * 13 + 5) % 256) as u8;
    }
    let le16 = |at: usize| u16::from_le_bytes([data[at], data[at + 1]]);
    let le32 =
        |at: usize| u32::from_le_bytes([data[at], data[at + 1], data[at + 2], data[at + 3]]);
    let pbs = PartitionBootSector::new(data);
    assert_eq!(&pbs.jump_command[..], &data[0..3]);
    assert_eq!(&pbs.creating_system_identifier[..], &data[3..11]);
    assert_eq!(pbs.sector_size, le16(11));
    assert_eq!(pbs.sectors_per_cluster, data[13]);
    assert_eq!(pbs.reserved_sector_count, le16(14));
    assert_eq!(pbs.number_of_fats, data[16]);
    assert_eq!(pbs.number_of_root_directory_entries, le16(17));
    assert_eq!(pbs.total_sectors, le16(19));
    assert_eq!(pbs.medium_identifier, data[21]);
    assert_eq!(pbs.sectors_per_fat, le16(22));
    assert_eq!(pbs.sectors_per_track, le16(24));
    assert_eq!(pbs.number_of_sides, le16(26));
    assert_eq!(pbs.number_of_hidden_sectors, le32(28));
    assert_eq!(pbs.total_sectors2, le32(32));
    assert_eq!(pbs.sectors_per_fat_for_fat32, le32(36));
    assert_eq!(pbs.extension_flag, le16(40));
    assert_eq!(pbs.fs_version, le16(42));
    assert_eq!(pbs.root_cluster, le32(44));
    assert_eq!(pbs.fs_info, le16(48));
    assert_eq!(pbs.backup_boot_sector, le16(50));
    assert_eq!(&pbs.reserved1[..], &data[52..64]);
    assert_eq!(pbs.physical_disk_number, data[64]);
    assert_eq!(&pbs.reserved2[..], &data[65..66]);
    assert_eq!(pbs.extended_boot_record_signature, data[66]);
    assert_eq!(pbs.volume_id_number, le32(67));
    assert_eq!(&pbs.volume_label[..], &data[71..82]);
    assert_eq!(&pbs.file_system_type[..], &data[82..90]);
    assert_eq!(&pbs.reserved3[..], &data[90..510]);
    assert_eq!(&pbs.signature_word[..], &data[510..512]);
    assert_eq!(pbs.sector_size, 0xa194);
    assert_eq!(pbs.total_sectors2, 0xccbf_b2a5);
}

#[test]
fn boot_sector_decoders_agree() {
    let sample = sample_boot_sector();
    assert_eq!(
        PartitionBootSector::new(sample),
        PartitionBootSector::new_with_bincode(sample)
    );
    let mut data = [0u8; 512];
    for i in 0..512 {
        data[i] = ((i * 31 + 17) % 256) as u8;
    }
    assert_eq!(
        PartitionBootSector::new(data),
        PartitionBootSector::new_with_bincode(data)
    );
    assert_eq!(
        PartitionBootSector::deserialize(&data[..]).unwrap(),
        PartitionBootSector::new(data)
    );
}

#[test]
fn boot_sector_marks_are_exposed() {
    let mut data = [0u8; 512];
    data[21] = 0xf8;
    data[42] = 0x00;
    data[43] = 0x00;
    data[64] = 0x80;
    data[66] = 0x29;
    data[510] = 0x55;
    data[511] = 0xaa;
    let pbs = PartitionBootSector::deserialize(&data[..]).unwrap();
    assert_eq!(pbs.medium_identifier, 0xf8);
    assert_eq!(pbs.fs_version, 0);
    assert_eq!(pbs.extended_boot_record_signature, 0x29);
    assert_eq!(pbs.physical_disk_number, 0x80);
    assert_eq!(pbs.signature_word, [0x55, 0xaa]);
    assert!(pbs.is_valid());
    assert!(!pbs.has_fat32_geometry());
}

#[test]
fn boot_sector_validity_checks_each_mark() {
    let good = sample_boot_sector();
    assert!(PartitionBootSector::new(good).is_valid());
    assert!(PartitionBootSector::new(good).has_fat32_geometry());
    for (at, value) in [(21usize, 0xf7u8), (42, 1), (43, 1), (64, 0x00), (66, 0x28), (510, 0), (511, 0)]
    {
        let mut bad = good;
        bad[at] = value;
        assert!(!PartitionBootSector::new(bad).is_valid());
    }
    let mut removable = good;
    removable[21] = 0xf0;
    assert!(PartitionBootSector::new(removable).is_valid());
    for at in [11usize, 13, 14, 16, 32, 36] {
        let mut bad = good;
        bad[at] = 0;
        bad[at + 1] = if at == 13 || at == 16 { bad[at + 1] } else { 0 };
        assert!(!PartitionBootSector::new(bad).has_fat32_geometry());
    }
    for at in [17usize, 19] {
        let mut bad = good;
        bad[at] = 1;
        assert!(!PartitionBootSector::new(bad).has_fat32_geometry());
    }
}

#[test]
fn sector_deserialize_wants_512_bytes() {
    let sample = sample_boot_sector();
    assert!(PartitionBootSector::deserialize(&sample[..511]).is_err());
    assert!(PartitionBootSector::deserialize(&[]).is_err());
    assert!(FsInfoSector::deserialize(&sample[..511]).is_err());
    let mut long = sample.to_vec();
    long.extend_from_slice(&[0xee; 100]);
    assert_eq!(
        PartitionBootSector::deserialize(&long).unwrap(),
        PartitionBootSector::new(sample)
    );
    let mut long_info = sample_fs_info().to_vec();
    long_info.extend_from_slice(&[0xee; 512]);
    assert_eq!(
        FsInfoSector::deserialize(&long_info).unwrap(),
        FsInfoSector::new(sample_fs_info())
    );
}

#[test]
fn fs_info_fields_lie_at_their_offsets() {
    let mut data = [0u8; 512];
    for i in 0..512 {
        data[i] = ((i * 3 + 1) % 256) as u8;
    }
    let info = FsInfoSector::new(data);
    assert_eq!(&info.lead_signature[..], &data[0..4]);
    assert_eq!(&info.reserved1[..], &data[4..484]);
    assert_eq!(&info.struct_signature[..], &data[484..488]);
    assert_eq!(
        info.free_cluster_count,
        u32::from_le_bytes([data[488], data[489], data[490], data[491]])
    );
    assert_eq!(
        info.next_free_cluster,
        u32::from_le_bytes([data[492], data[493], data[494], data[495]])
    );
    assert_eq!(&info.reserved2[..], &data[496..508]);
    assert_eq!(&info.tail_signature[..], &data[508..512]);
    assert_eq!(info, FsInfoSector::new_with_bincode(data));
    assert!(!info.is_valid());
}

#[test]
fn fs_info_validity_checks_each_signature() {
    let good = sample_fs_info();
    assert!(FsInfoSector::new(good).is_valid());
    for at in [0usize, 3, 484, 487, 508, 510, 511] {
        let mut bad = good;
        bad[at] ^= 0x01;
        assert!(!FsInfoSector::new(bad).is_valid());
    }
}

#[test]
fn locator_offsets() {
    let pbs = PartitionBootSector::new(sample_boot_sector());
    assert_eq!(pbs.fs_info_offset(), 512);
    assert_eq!(pbs.fat1_offset(), 8 * 512);
    assert_eq!(pbs.fat_size_bytes(), 2 * 512);
    assert_eq!(pbs.fat2_offset(), 8 * 512 + 2 * 512);
    assert_eq!(pbs.backup_boot_sector_offset(), 6 * 512);
    assert_eq!(pbs.cluster_size(), 512);
    assert_eq!(pbs.data_area_start(), 12 * 512);
    assert_eq!(pbs.cluster_to_byte_offset(2), 12 * 512);
    assert_eq!(pbs.cluster_to_byte_offset(3), 13 * 512);
    assert_eq!(pbs.cluster_to_byte_offset(5), 15 * 512);
}

#[test]
fn locator_fat_offsets_for_512_byte_sectors() {
    for (reserved, per_fat) in [(0u16, 0u32), (32, 1009), (6162, 1015), (65535, 0xffff_ffff)] {
        let mut sector = sample_boot_sector();
        put_u16(&mut sector, 14, reserved);
        put_u32(&mut sector, 36, per_fat);
        let pbs = PartitionBootSector::new(sector);
        assert_eq!(pbs.sector_size, 512);
        assert_eq!(pbs.fat1_offset(), reserved as u64 * 512);
        assert_eq!(pbs.fat2_offset(), reserved as u64 * 512 + per_fat as u64 * 512);
    }
}

#[test]
fn locator_largest_values_do_not_overflow() {
    let mut sector = sample_boot_sector();
    put_u16(&mut sector, 11, 0xffff);
    sector[13] = 0xff;
    put_u16(&mut sector, 14, 0xffff);
    sector[16] = 0xff;
    put_u32(&mut sector, 36, 0xffff_ffff);
    put_u16(&mut sector, 48, 0xffff);
    put_u16(&mut sector, 50, 0xffff);
    let pbs = PartitionBootSector::new(sector);
    let fat = 0xffff_ffffu64 * 0xffff;
    assert_eq!(pbs.fs_info_offset(), 0xffff * 0xffff);
    assert_eq!(pbs.backup_boot_sector_offset(), 0xffff * 0xffff);
    assert_eq!(pbs.fat1_offset(), 0xffff * 0xffff);
    assert_eq!(pbs.fat_size_bytes(), fat);
    assert_eq!(pbs.fat2_offset(), 0xffff * 0xffff + fat);
    assert_eq!(pbs.cluster_size(), 0xff * 0xffff);
    assert_eq!(pbs.data_area_start(), 0xffff * 0xffff + 0xff * fat);
    assert_eq!(
        pbs.cluster_to_byte_offset(0xffff_ffff),
        0xffff * 0xffff + 0xff * fat + 0xffff_fffd * (0xff * 0xffff)
    );
}
