use fat32::bpb::common::{CommonBootSectorBuffer, CommonBootSectorReadable};
use fat32::bpb::fat32::{Fat32BootSector, Fat32BootSectorBuffer, Fat32BootSectorReadable};
use fat32::bpb::general::{GeneralBootSector, GeneralBootSectorReadable};
use fat32::bpb::{check_sectors_per_cluster, Bpb, BpbFat32, BpbReadable};
use fat32::device::MemoryDevice;
use fat32::dir::buffer::DirEntryBuffer;
use fat32::dir::entry::base::BaseDirEntry;
use fat32::dir::{Attribute, DirEntryReadable};
use fat32::error::FatError;
use fat32::Fat;
use fat32::FatDeviceAccessible;
use fat32::dir::EntryStatus;
use fat32::dir::data::dir::DirEntries;
use fat32::dir::decode_short_name;
use fat32::dir::entry::DirEntry;
use fat32::dir::entry::short::ShortDirEntry;
use fat32::error::FatDeviceError;

const ROOT: usize = 0x102000;

fn put16(d: &mut [u8], at: usize, v: u16) {
    d[at..at + 2].copy_from_slice(&v.to_le_bytes());
}

fn put32(d: &mut [u8], at: usize, v: u32) {
    d[at..at + 4].copy_from_slice(&v.to_le_bytes());
}

fn put_entry(d: &mut [u8], at: usize, name: &[u8; 11], attr: u8, cluster: u32, size: u32) {
    d[at..at + 11].copy_from_slice(name);
    d[at + 11] = attr;
    put16(d, at + 20, (cluster >> 16) as u16);
    put16(d, at + 26, (cluster & 0xffff) as u16);
    put32(d, at + 28, size);
}

/// A small FAT32 volume: 512-byte sectors, 2 sectors per cluster, 0x20 reserved
/// sectors and two FATs of 0x3F8 sectors, so the data region starts at 0x102000.
/// The root holds a volume label, a long-name slot, HELLO.TXT, the directory TEST
/// (with NESTED.TXT inside) and a deleted slot.
fn image() -> Vec<u8> {
    let mut d = vec![0u8; 0x103000];
    d[0..3].copy_from_slice(&[0xeb, 0x58, 0x90]);
    d[3..11].copy_from_slice(b"mkfs.fat");
    put16(&mut d, 11, 512);
    d[13] = 2;
    put16(&mut d, 14, 0x20);
    d[16] = 2;
    put16(&mut d, 19, 0);
    put32(&mut d, 32, 4 << 16);
    put32(&mut d, 36, 0x3f8);
    put32(&mut d, 44, 2);
    d[510] = 0x55;
    d[511] = 0xaa;

    put_entry(&mut d, ROOT, b"MIKAN OS   ", 0x08, 0, 0);
    d[ROOT + 0x20] = 0x41;
    d[ROOT + 0x20 + 11] = 0x0f;
    put32(&mut d, ROOT + 0x20 + 28, 6);
    put_entry(&mut d, ROOT + 0x40, b"HELLO   TXT", 0x20, 3, 6);
    put_entry(&mut d, ROOT + 0x60, b"TEST       ", 0x10, 4, 0);
    put_entry(&mut d, ROOT + 0x80, b"OLD     TXT", 0x20, 6, 3);
    d[ROOT + 0x80] = 0xe5;

    d[0x102400..0x102406].copy_from_slice(b"hello\n");

    put_entry(&mut d, 0x102800, b".          ", 0x10, 4, 0);
    put_entry(&mut d, 0x102820, b"..         ", 0x10, 0, 0);
    put_entry(&mut d, 0x102840, b"NESTED  TXT", 0x20, 5, 5);
    d[0x102c00..0x102c05].copy_from_slice(b"deep\n");
    d
}

fn file_device() -> MemoryDevice {
    MemoryDevice::new(image())
}

#[test]
fn bpb_it_data_region_offset_fat32() {
    let bpb = BpbFat32::new(file_device());
    assert_eq!(bpb.data_region_offset_fat32().unwrap(), 0x102000);
}

#[test]
fn buffer_it_oem_name() {
    let buff = image();
    let common = CommonBootSectorBuffer::new(buff.as_slice());
    assert_eq!(common.oem_name_buff(), b"mkfs.fat".to_vec());
}

#[test]
fn buffer_it_sectors_per_cluster() {
    let buff = image();
    let common = CommonBootSectorBuffer::new(buff.as_slice());
    assert_eq!(common.sectors_per_cluster(), 2);
}

#[test]
fn buffer_it_reserved_sectors() {
    let buff = image();
    let common = CommonBootSectorBuffer::new(buff.as_slice());
    assert_eq!(common.reserved_sectors(), 0x20);
}

#[test]
fn buffer_it_total_sectors16_is_zero_if_fat32() {
    let buff = image();
    let common = CommonBootSectorBuffer::new(&buff);
    assert_eq!(common.total_sector16(), 0);
}

#[test]
fn buffer_it_total_sectors32_is_non_zero_if_fat32() {
    let buff = image();
    let common = CommonBootSectorBuffer::new(buff.as_slice());
    assert_eq!(common.total_sector32(), 4 << 16);
}

#[test]
fn buffer_it_num_fats() {
    let buff = image();
    let common = CommonBootSectorBuffer::new(buff.as_slice());
    assert_eq!(common.num_fats(), 2);
}

#[test]
fn buffer_it_root_clusters() {
    let buff = image();
    let fat32 = Fat32BootSectorBuffer::new(buff.as_slice());
    assert_eq!(fat32.root_cluster_no(), 2);
}

#[test]
fn fat32_it_root_clusters() {
    let fat32 = Fat32BootSector::new(file_device());
    assert_eq!(fat32.root_cluster_no().unwrap(), 2);
}

#[test]
fn buffer_it_dir_name() {
    let buff = image();
    let dir = DirEntryBuffer::new(buff[0x102000..].to_vec());
    println!("{:?}", dir.name_buff());
}

#[test]
fn buffer_it_dir_attribute() {
    let buff = image();
    let dir = DirEntryBuffer::new(buff[0x102000..].to_vec());
    assert_eq!(dir.attribute(), Ok(Attribute::VolumeLabel));
}

#[test]
fn it_dir_attribute_lfn_entry() {
    let buff = image();
    let dir = DirEntryBuffer::new(buff[0x102020..].to_vec());
    assert_eq!(dir.attribute(), Ok(Attribute::LongName));
}

#[test]
fn buffer_it_dir_fist_cluster_is_zero_if_volume_label() {
    let buff = image();
    let dir = DirEntryBuffer::new(buff[0x102000..].to_vec());
    assert_eq!(dir.first_cluster_no(), 0);
}

#[test]
fn it_file_size_is_zero_if_volume_label() {
    let buff = image();
    let dir = DirEntryBuffer::new(buff[0x102000..].to_vec());
    assert_eq!(dir.file_size(), 0);
}

#[test]
fn it_file_size_if_text_file() {
    let buff = image();
    let dir = DirEntryBuffer::new(buff[0x102020..].to_vec());
    assert_eq!(dir.file_size(), 6);
}

#[test]
fn it_volume_label_name() {
    let bpb = BpbFat32::new(file_device());
    let mut root = bpb.root_dir().unwrap();
    let volume_label = root
        .next()
        .unwrap()
        .unwrap()
        .into_regular_file()
        .unwrap()
        .name()
        .unwrap();
    assert_eq!(volume_label, b"MIKAN OS".to_vec());
}

#[test]
fn short_it_hello_txt_file_name() {
    let bpb = BpbFat32::new(file_device());
    let file_name = bpb
        .root_dir()
        .unwrap()
        .find("HELLO.TXT")
        .unwrap()
        .unwrap()
        .name()
        .unwrap();
    assert_eq!(file_name, b"HELLO.TXT".to_vec());
}

#[test]
fn it_volume_label_attribute() {
    let bpb = BpbFat32::new(file_device());
    let volume_label = bpb
        .root_dir()
        .unwrap()
        .next()
        .unwrap()
        .unwrap()
        .into_regular_file()
        .unwrap();
    assert_eq!(volume_label.attribute(), Ok(Attribute::VolumeLabel));
}

#[test]
fn short_it_dir_fist_cluster_is_zero_if_volume_label() {
    let bpb = BpbFat32::new(file_device());
    let mut root = bpb.root_dir().unwrap();
    assert_eq!(
        root.next().unwrap().unwrap().into_regular_file().unwrap().first_cluster_no(),
        Ok(0x00)
    );
}

#[test]
fn it_exists_hello_txt() {
    let fat = Fat::new(file_device());
    let hello_txt = fat.open("HELLO.TXT");
    assert!(hello_txt.is_ok());
}

#[test]
fn it_read_hello_txt_buffer() {
    let fat = Fat::new(file_device());
    let buff = fat.open_file("HELLO.TXT").unwrap().read_boxed().unwrap();
    assert_eq!(&buff, &[0x68, 0x65, 0x6C, 0x6C, 0x6F, 0x0A]);
}

#[test]
fn short_it_dir_name() {
    let bpb = BpbFat32::new(file_device());
    let dir = bpb.root_dir().unwrap();
    println!("{:?}", dir.dir_entries.entry.name());
}

#[test]
fn short_it_dir_attribute() {
    let bpb = BpbFat32::new(file_device());
    let dir = bpb.root_dir().unwrap();
    assert_eq!(dir.dir_entries.entry.attribute(), Ok(Attribute::VolumeLabel));
}

#[test]
fn it_fist_regular_file() {
    let bpb = BpbFat32::new(file_device());
    let mut root = bpb.root_dir().unwrap();
    assert!(root.next().unwrap().unwrap().is_regular_file())
}

#[test]
fn general_boot_sector_reads_every_field() {
    let general = GeneralBootSector::new(file_device());
    assert_eq!(general.oem_name_buff().unwrap(), b"mkfs.fat".to_vec());
    assert_eq!(general.bytes_per_sector().unwrap(), 512);
    assert_eq!(general.sectors_per_cluster().unwrap(), 2);
    assert_eq!(general.reserved_sectors().unwrap(), 0x20);
    assert_eq!(general.total_sector16().unwrap(), 0);
    assert_eq!(general.total_sector32().unwrap(), 4 << 16);
    assert_eq!(general.num_fats().unwrap(), 2);
    assert_eq!(general.checked_sectors_per_cluster(), Ok(2));
    let fat32 = Fat32BootSector::new(file_device());
    assert_eq!(fat32.sectors_per_fat().unwrap(), 0x3f8);
}

#[test]
fn bpb_reads_the_whole_geometry() {
    let bpb = BpbFat32::new(file_device());
    let geometry = bpb.bpb().unwrap();
    assert_eq!(
        geometry,
        Bpb {
            bytes_per_sector: 512,
            sectors_per_cluster: 2,
            reserved_sectors: 0x20,
            num_fats: 2,
            sectors_per_fat: 0x3f8,
            root_cluster_no: 2,
        }
    );
    assert_eq!(bpb.sectors_per_fat().unwrap(), 0x3f8);
    assert_eq!(bpb.root_cluster_no().unwrap(), 2);
}

#[test]
fn checked_sectors_per_cluster_keeps_powers_of_two_and_refuses_the_rest() {
    for v in 0..=255u8 {
        let valid = [1u8, 2, 4, 8, 16, 32, 64, 128].contains(&v);
        let expected = if valid { Ok(v) } else { Err(FatError::InvalidSecPerClus(v)) };
        assert_eq!(check_sectors_per_cluster(v), expected);
    }
}

#[test]
fn checked_sectors_per_cluster_of_a_bad_boot_sector() {
    let mut buff = image();
    buff[13] = 3;
    let common = CommonBootSectorBuffer::new(buff.as_slice());
    assert_eq!(common.checked_sectors_per_cluster(), Err(FatError::InvalidSecPerClus(3)));
}

#[test]
fn data_region_offset_follows_the_formula() {
    let bpb = Bpb {
        bytes_per_sector: 4096,
        sectors_per_cluster: 8,
        reserved_sectors: 32,
        num_fats: 2,
        sectors_per_fat: 0x1000,
        root_cluster_no: 2,
    };
    assert_eq!(bpb.data_region_offset_fat32(), 32 * 4096 + 2 * 0x1000 * 4096);
    let largest = Bpb {
        bytes_per_sector: u16::MAX,
        sectors_per_cluster: u8::MAX,
        reserved_sectors: u16::MAX,
        num_fats: u8::MAX,
        sectors_per_fat: u32::MAX,
        root_cluster_no: 2,
    };
    let expected = 0xffffu64 * 0xffff + 0xff * 0xffff_ffff * 0xffff;
    assert_eq!(largest.data_region_offset_fat32(), expected);
}

#[test]
fn cluster_two_starts_the_data_region() {
    let bpb = BpbFat32::new(file_device());
    assert_eq!(bpb.data_cluster_at(2).unwrap(), bpb.data_region_offset_fat32().unwrap());
    assert_eq!(bpb.data_cluster_offset_at(2).unwrap(), 0x102000);
    let geometry = bpb.bpb().unwrap();
    assert_eq!(geometry.data_cluster_offset_at(2), geometry.data_region_offset_fat32());
}

#[test]
fn cluster_offset_follows_the_formula() {
    let bpb = BpbFat32::new(file_device());
    assert_eq!(bpb.data_cluster_at(5).unwrap(), 0x102000 + 3 * 512 * 2);
    let geometry = Bpb {
        bytes_per_sector: 512,
        sectors_per_cluster: 128,
        reserved_sectors: 1,
        num_fats: 1,
        sectors_per_fat: 1,
        root_cluster_no: 2,
    };
    assert_eq!(geometry.data_cluster_offset_at(u32::MAX), (u32::MAX as u64 - 2) * 512 * 128 + 1024);
}

#[test]
fn base_entry_reads_status_and_attribute() {
    let bpb = BpbFat32::new(file_device());
    let label = BaseDirEntry::new(&bpb, ROOT);
    assert_eq!(label.status_raw(), Ok(b'M'));
    assert_eq!(label.status(), Ok(None));
    assert_eq!(label.attribute_raw(), Ok(0x08));
    let deleted = BaseDirEntry::new(&bpb, ROOT + 0x80);
    assert_eq!(deleted.status(), Ok(Some(fat32::dir::EntryStatus::Deleted)));
    let end = BaseDirEntry::new(&bpb, ROOT + 0xa0);
    assert_eq!(end.status(), Ok(Some(fat32::dir::EntryStatus::End)));
    let long_name = BaseDirEntry::new(&bpb, ROOT + 0x20);
    assert!(matches!(long_name.into_detail(), Err(FatError::InvalidDirEntryType)));
}

fn fat_of(image: Vec<u8>) -> Fat<MemoryDevice> {
    Fat::new(MemoryDevice::new(image))
}

fn names_in_root(image: Vec<u8>) -> Vec<Vec<u8>> {
    let bpb = BpbFat32::new(MemoryDevice::new(image));
    let mut root = bpb.root_dir().unwrap();
    let mut names = Vec::new();
    while let Some(data) = root.next().unwrap() {
        names.push(data.name().unwrap());
    }
    names
}

#[test]
fn short_names_join_primary_and_extension_with_a_dot() {
    assert_eq!(decode_short_name(b"HELLO   TXT"), b"HELLO.TXT".to_vec());
    assert_eq!(decode_short_name(b"MIKAN OS   "), b"MIKAN OS".to_vec());
    assert_eq!(decode_short_name(b"README     "), b"README".to_vec());
    assert_eq!(decode_short_name(b"A       B  "), b"A.B".to_vec());
    assert_eq!(decode_short_name(b"ABCDEFGHIJK"), b"ABCDEFGH.IJK".to_vec());
    assert_eq!(decode_short_name(b"           "), Vec::<u8>::new());
    assert_eq!(decode_short_name(b"hello   txt"), b"hello.txt".to_vec());
}

#[test]
fn walk_skips_long_name_and_deleted_slots() {
    assert_eq!(
        names_in_root(image()),
        vec![b"MIKAN OS".to_vec(), b"HELLO.TXT".to_vec(), b"TEST".to_vec()]
    );
}

#[test]
fn long_name_slot_is_skipped_whatever_its_other_bytes() {
    let mut d = image();
    put_entry(&mut d, ROOT + 0x20, b"HELLO   TXT", 0x0f, 3, 6);
    assert_eq!(
        names_in_root(d),
        vec![b"MIKAN OS".to_vec(), b"HELLO.TXT".to_vec(), b"TEST".to_vec()]
    );
    let mut d = image();
    put_entry(&mut d, ROOT + 0x40, b"HELLO   TXT", 0x0f, 3, 6);
    assert_eq!(names_in_root(d.clone()), vec![b"MIKAN OS".to_vec(), b"TEST".to_vec()]);
    assert!(matches!(fat_of(d).open("HELLO.TXT"), Err(FatError::NotfoundFile(_))));
}

#[test]
fn end_marker_stops_the_walk_for_good() {
    let mut d = image();
    d[ROOT + 0x40] = 0x00;
    let bpb = BpbFat32::new(MemoryDevice::new(d));
    let mut root = bpb.root_dir().unwrap();
    assert!(root.next().unwrap().is_some());
    assert!(root.next().unwrap().is_none());
    assert!(root.next().unwrap().is_none());
    assert_eq!(root.dir_entries.offset, ROOT + 0x40);
}

#[test]
fn deleted_slot_is_skipped_and_not_found() {
    let fat = fat_of(image());
    assert_eq!(fat.open("OLD.TXT").err(), Some(FatError::NotfoundFile("OLD.TXT".to_string())));
    let mut d = image();
    d[ROOT] = 0xe5;
    assert_eq!(names_in_root(d), vec![b"HELLO.TXT".to_vec(), b"TEST".to_vec()]);
}

#[test]
fn japanese_escape_entry_is_not_skipped() {
    let mut d = image();
    d[ROOT + 0x40] = 0x05;
    let names = names_in_root(d);
    assert_eq!(names.len(), 3);
    assert_eq!(names[1][0], 0x05);
}

#[test]
fn nested_name_is_found_by_descending() {
    let fat = fat_of(image());
    let nested = fat.open_file("NESTED.TXT").unwrap();
    assert_eq!(nested.read_boxed().unwrap(), b"deep\n".to_vec());
    assert_eq!(nested.entry.base.offset, 0x102840);
}

#[test]
fn missing_name_is_not_found() {
    let fat = fat_of(image());
    assert_eq!(
        fat.open("NOPE.TXT").err(),
        Some(FatError::NotfoundFile("NOPE.TXT".to_string()))
    );
    let bpb = BpbFat32::new(file_device());
    assert!(bpb.root_dir().unwrap().find("NOPE.TXT").unwrap().is_none());
}

#[test]
fn subtree_comes_before_later_siblings() {
    let mut d = image();
    put_entry(&mut d, 0x102860, b"TWIN       ", 0x20, 5, 1);
    put_entry(&mut d, ROOT + 0xa0, b"TWIN       ", 0x20, 3, 2);
    let fat = fat_of(d);
    let twin = fat.open_file("TWIN").unwrap();
    assert_eq!(twin.entry.base.offset, 0x102860);
    assert_eq!(twin.read_boxed().unwrap(), b"d".to_vec());
}

#[test]
fn directory_that_holds_itself_does_not_loop() {
    let mut d = image();
    put_entry(&mut d, 0x102860, b"LOOP       ", 0x10, 4, 0);
    put_entry(&mut d, 0x102880, b"AGAIN      ", 0x10, 0, 0);
    let fat = fat_of(d);
    assert!(matches!(fat.open("NOPE"), Err(FatError::NotfoundFile(_))));
    assert!(fat.open("NESTED.TXT").is_ok());
}

#[test]
fn small_buffer_is_refused_before_reading() {
    let fat = fat_of(image());
    let file = fat.open_file("HELLO.TXT").unwrap();
    let mut buff = [0xaau8; 5];
    assert_eq!(file.read_buff(&mut buff), Err(FatError::BufferToSmall(6, 5)));
    assert_eq!(buff, [0xaa; 5]);
}

#[test]
fn read_fills_the_front_of_a_larger_buffer() {
    let fat = fat_of(image());
    let file = fat.open_file("HELLO.TXT").unwrap();
    let mut buff = [0xaau8; 8];
    assert_eq!(file.read_buff(&mut buff), Ok(()));
    assert_eq!(&buff, b"hello\n\xaa\xaa");
    assert_eq!(file.file_size(), Ok(6));
    assert_eq!(file.first_cluster_no(), Ok(3));
    assert_eq!(file.name(), Ok(b"HELLO.TXT".to_vec()));
}

#[test]
fn invalid_attribute_is_reported_and_passed() {
    let mut d = image();
    d[ROOT + 0x40 + 11] = 0x33;
    let bpb = BpbFat32::new(MemoryDevice::new(d.clone()));
    let mut root = bpb.root_dir().unwrap();
    assert!(root.next().unwrap().is_some());
    assert!(matches!(root.next(), Err(FatError::InvalidAttribute(0x33))));
    assert_eq!(root.next().unwrap().unwrap().name(), Ok(b"TEST".to_vec()));
    assert!(matches!(fat_of(d).open("TEST"), Err(FatError::InvalidAttribute(0x33))));
}

#[test]
fn kind_mismatch_is_invalid_dir_entry_type() {
    let fat = fat_of(image());
    assert!(matches!(fat.open_file("TEST"), Err(FatError::InvalidDirEntryType)));
    assert!(matches!(fat.open("HELLO.TXT").unwrap().into_dir(), Err(FatError::InvalidDirEntryType)));
    let test = fat.open("TEST").unwrap();
    assert!(!test.is_regular_file());
    let dir = test.into_dir().unwrap();
    assert_eq!(dir.base_offset, 0x102800);
    assert_eq!(dir.offset, 0x102800);
    let mut entries = dir.into_data_entries();
    assert_eq!(entries.next().unwrap().unwrap().name(), Ok(b".".to_vec()));
}

#[test]
fn data_reads_the_fields_of_its_entry() {
    let fat = fat_of(image());
    let hello = fat.open("HELLO.TXT").unwrap();
    assert_eq!(hello.name_buff(), Ok(b"HELLO   TXT".to_vec()));
    assert_eq!(hello.first_cluster_no_hi(), Ok(0));
    assert_eq!(hello.first_cluster_no_lo(), Ok(3));
    assert_eq!(hello.file_size(), Ok(6));
    let file = hello.into_regular_file().unwrap();
    assert_eq!(file.entry.file_size_usize(), Ok(6));
    assert_eq!(file.entry.data_offset(), Ok(0x102400));
}

#[test]
fn entries_are_built_from_their_parts() {
    let bpb = BpbFat32::new(file_device());
    let short = ShortDirEntry::new(BaseDirEntry::new(&bpb, ROOT + 0x40));
    let entry = DirEntry::short(short);
    let short = entry.into_short().unwrap();
    assert_eq!(short.name(), Ok(b"HELLO.TXT".to_vec()));
    let label = ShortDirEntry::new(BaseDirEntry::new(&bpb, ROOT));
    let mut walk = DirEntries::from_entry(label, ROOT).into_data_entries();
    assert_eq!(walk.next().unwrap().unwrap().name(), Ok(b"MIKAN OS".to_vec()));
    let mut root = DirEntries::root(&bpb, ROOT);
    let first = root.find_next().unwrap().unwrap();
    assert_eq!(first.offset, ROOT);
    let second = root.find_next().unwrap().unwrap();
    assert_eq!(second.offset, ROOT + 0x40);
}

#[test]
fn device_fault_is_passed_on() {
    let fat = fat_of(vec![0u8; 10]);
    assert_eq!(
        fat.open("HELLO.TXT").err(),
        Some(FatError::FailedDeviceAccess(FatDeviceError::OutOfRange))
    );
    let bpb = BpbFat32::new(MemoryDevice::new(vec![0u8; 12]));
    assert_eq!(
        bpb.data_region_offset_fat32(),
        Err(FatError::FailedDeviceAccess(FatDeviceError::OutOfRange))
    );
    assert_eq!(
        FatError::from(FatDeviceError::StatusCode(3)),
        FatError::FailedDeviceAccess(FatDeviceError::StatusCode(3))
    );
}

#[test]
fn reads_past_the_end_of_memory_fail() {
    let mut d = image();
    d.truncate(0x102010);
    let bpb = BpbFat32::new(MemoryDevice::new(d));
    let mut root = bpb.root_dir().unwrap();
    assert!(matches!(root.next(), Err(FatError::FailedDeviceAccess(FatDeviceError::OutOfRange))));
}

#[test]
fn memory_device_reads_and_writes_little_endian() {
    let mut dev = MemoryDevice::new(vec![0u8; 16]);
    assert_eq!(dev.len(), 16);
    assert_eq!(dev.write(&[0x78, 0x56, 0x34, 0x12], 4), Ok(()));
    assert_eq!(dev.read_u32(4), Ok(0x1234_5678));
    assert_eq!(dev.read_u16(5), Ok(0x3456));
    assert_eq!(dev.read_u8(7), Ok(0x12));
    let mut buff = [0u8; 3];
    assert_eq!(dev.read(&mut buff, 3, 3), Ok(()));
    assert_eq!(buff, [0, 0x78, 0x56]);
    assert!(dev.write(&[1, 2], 15).is_err());
    assert!(dev.read_u32(13).is_err());
    assert_eq!(fat32::device::buff_read_u16(&[0xcd, 0xab], 0), 0xabcd);
    assert_eq!(fat32::device::buff_read_u32(&[0, 0xef, 0xbe, 0xad, 0xde], 1), 0xdead_beef);
}

#[test]
fn attribute_and_status_bytes_decode() {
    let table = [
        (0x01, Attribute::Readonly),
        (0x02, Attribute::Hidden),
        (0x04, Attribute::System),
        (0x08, Attribute::VolumeLabel),
        (0x10, Attribute::Dir),
        (0x20, Attribute::Archive),
        (0x0f, Attribute::LongName),
    ];
    for v in 0..=255u8 {
        let expected = match table.iter().find(|(b, _)| *b == v) {
            Some((_, a)) => Ok(*a),
            None => Err(FatError::InvalidAttribute(v)),
        };
        assert_eq!(Attribute::from_byte(v), expected);
    }
    assert_eq!(EntryStatus::from_byte(0x00), Some(EntryStatus::End));
    assert_eq!(EntryStatus::from_byte(0xe5), Some(EntryStatus::Deleted));
    assert_eq!(EntryStatus::from_byte(0x05), Some(EntryStatus::JapaneseName));
    assert_eq!(EntryStatus::from_byte(b'A'), None);
}

#[test]
fn fat_root_dir_walks_the_root() {
    let fat = fat_of(image());
    let root = fat.root_dir().unwrap();
    assert_eq!(root.dir_entries.base_offset, ROOT);
}

#[test]
fn cloned_walker_keeps_its_own_cursor() {
    let bpb = BpbFat32::new(file_device());
    let mut root = bpb.root_dir().unwrap();
    let mut copy = root.clone();
    assert_eq!(root.next().unwrap().unwrap().name(), Ok(b"MIKAN OS".to_vec()));
    assert_eq!(root.next().unwrap().unwrap().name(), Ok(b"HELLO.TXT".to_vec()));
    assert_eq!(copy.next().unwrap().unwrap().name(), Ok(b"MIKAN OS".to_vec()));
    assert_eq!(root.next().unwrap().unwrap().name(), Ok(b"TEST".to_vec()));
}

#[test]
fn writes_reach_the_volume() {
    let mut bpb = BpbFat32::new(file_device());
    assert_eq!(bpb.write(&[4], 13), Ok(()));
    assert_eq!(bpb.bpb().unwrap().sectors_per_cluster, 4);
    assert_eq!(bpb.data_cluster_at(3).unwrap(), 0x102000 + 512 * 4);
}

#[test]
fn empty_file_reads_as_nothing() {
    let mut d = image();
    put_entry(&mut d, ROOT + 0xa0, b"EMPTY      ", 0x20, 0, 0);
    let fat = fat_of(d);
    let file = fat.open_file("EMPTY").unwrap();
    assert_eq!(file.read_boxed().unwrap(), Vec::<u8>::new());
    let mut buff: [u8; 0] = [];
    assert_eq!(file.read_buff(&mut buff), Ok(()));
}

#[test]
fn entry_buffer_decodes_name_and_both_cluster_halves() {
    let mut slot = vec![0u8; 32];
    put_entry(&mut slot, 0, b"KERNEL  ELF", 0x01, 0x0001_0003, 0x1234);
    let entry = DirEntryBuffer::new(slot);
    assert_eq!(entry.name(), b"KERNEL.ELF".to_vec());
    assert_eq!(entry.name_buff(), b"KERNEL  ELF".to_vec());
    assert_eq!(entry.first_cluster_no_hi(), 1);
    assert_eq!(entry.first_cluster_no_lo(), 3);
    assert_eq!(entry.first_cluster_no(), 0x0001_0003);
    assert_eq!(entry.attribute_raw(), 0x01);
    assert_eq!(entry.attribute(), Ok(Attribute::Readonly));
    assert_eq!(entry.file_size(), 0x1234);
    let mut bad = vec![0u8; 32];
    bad[11] = 0x30;
    assert_eq!(DirEntryBuffer::new(bad).attribute(), Err(FatError::InvalidAttribute(0x30)));
}

#[test]
fn cursor_rests_on_the_end_marker_after_skipped_slots() {
    let mut d = image();
    d[ROOT + 0x60] = 0xe5;
    d[ROOT + 0xa0] = 0x00;
    let bpb = BpbFat32::new(MemoryDevice::new(d));
    let mut root = bpb.root_dir().unwrap();
    root.next().unwrap();
    root.next().unwrap();
    assert!(root.next().unwrap().is_none());
    assert_eq!(root.dir_entries.offset, ROOT + 0xa0);
    let mut from_past = DirEntries::root(&bpb, ROOT + 0x80);
    assert!(from_past.find_next().unwrap().is_none());
    assert_eq!(from_past.offset, ROOT + 0xa0);
}

#[test]
fn small_buffer_is_refused_even_when_the_data_lies_off_the_device() {
    let mut d = image();
    put_entry(&mut d, ROOT + 0xa0, b"FAR        ", 0x20, 0x0fff_ffff, 100);
    let fat = fat_of(d);
    let file = fat.open_file("FAR").unwrap();
    let mut buff = [7u8; 10];
    assert_eq!(file.read_buff(&mut buff), Err(FatError::BufferToSmall(100, 10)));
    assert_eq!(buff, [7u8; 10]);
}
