use vstd::prelude::*;

use crate::bpb::{check_sectors_per_cluster, checked_sectors_per_cluster_of};
use crate::device::{le_u16_at, le_u32_at, FatDeviceAccessible};
use crate::error::{FatError, FatResult};

verus! {

/// The fields that every FAT boot sector has, read from a device.
///
/// Each read may fail with the device's fault; what a successful read
/// returns is the field as the device's bytes hold it.
pub trait GeneralBootSectorReadable {
    /// The bytes of the device, from offset zero; the boot sector comes first.
    spec fn boot_sector(&self) -> Seq<u8>;

    /// Whether every read of bytes the device holds succeeds.
    spec fn reads_faultless(&self) -> bool;

    /// The eight bytes of the OEM name, at offset 3.
    fn oem_name_buff(&self) -> (r: FatResult<Vec<u8>>)
        ensures
            self.reads_faultless() && self.boot_sector().len() >= 11 ==> r is Ok,
            r matches Ok(v) ==> self.boot_sector().len() >= 11 && v@ == self.boot_sector().subrange(
                3,
                11,
            ),
            r matches Err(e) ==> e is FailedDeviceAccess,
    ;

    /// Bytes per sector, at offset 11.
    fn bytes_per_sector(&self) -> (r: FatResult<u16>)
        ensures
            self.reads_faultless() && self.boot_sector().len() >= 13 ==> r is Ok,
            r matches Ok(v) ==> self.boot_sector().len() >= 13 && v == le_u16_at(
                self.boot_sector(),
                11,
            ),
            r matches Err(e) ==> e is FailedDeviceAccess,
    ;

    /// Sectors per cluster, at offset 13, as stored.
    fn sectors_per_cluster(&self) -> (r: FatResult<u8>)
        ensures
            self.reads_faultless() && self.boot_sector().len() >= 14 ==> r is Ok,
            r matches Ok(v) ==> self.boot_sector().len() >= 14 && v == self.boot_sector()[13],
            r matches Err(e) ==> e is FailedDeviceAccess,
    ;

    /// Reserved sectors before the first FAT, at offset 14.
    fn reserved_sectors(&self) -> (r: FatResult<u16>)
        ensures
            self.reads_faultless() && self.boot_sector().len() >= 16 ==> r is Ok,
            r matches Ok(v) ==> self.boot_sector().len() >= 16 && v == le_u16_at(
                self.boot_sector(),
                14,
            ),
            r matches Err(e) ==> e is FailedDeviceAccess,
    ;

    /// The 16-bit total sector count, at offset 19 (zero on FAT32).
    fn total_sector16(&self) -> (r: FatResult<u16>)
        ensures
            self.reads_faultless() && self.boot_sector().len() >= 21 ==> r is Ok,
            r matches Ok(v) ==> self.boot_sector().len() >= 21 && v == le_u16_at(
                self.boot_sector(),
                19,
            ),
            r matches Err(e) ==> e is FailedDeviceAccess,
    ;

    /// The 32-bit total sector count, at offset 32.
    fn total_sector32(&self) -> (r: FatResult<u32>)
        ensures
            self.reads_faultless() && self.boot_sector().len() >= 36 ==> r is Ok,
            r matches Ok(v) ==> self.boot_sector().len() >= 36 && v == le_u32_at(
                self.boot_sector(),
                32,
            ),
            r matches Err(e) ==> e is FailedDeviceAccess,
    ;

    /// The number of FAT copies, at offset 16.
    fn num_fats(&self) -> (r: FatResult<u8>)
        ensures
            self.reads_faultless() && self.boot_sector().len() >= 17 ==> r is Ok,
            r matches Ok(v) ==> self.boot_sector().len() >= 17 && v == self.boot_sector()[16],
            r matches Err(e) ==> e is FailedDeviceAccess,
    ;

    /// Sectors per cluster, refused unless it is a power of two up to 128.
    fn checked_sectors_per_cluster(&self) -> (r: FatResult<u8>)
        ensures
            self.reads_faultless() && self.boot_sector().len() >= 14 ==> !(r matches Err(
                FatError::FailedDeviceAccess(_),
            )),
            match r {
                Err(FatError::FailedDeviceAccess(_)) => true,
                _ => self.boot_sector().len() >= 14 && r == checked_sectors_per_cluster_of(
                    self.boot_sector()[13],
                ),
            },
    {
        let v = self.sectors_per_cluster()?;
        check_sectors_per_cluster(v)
    }
}

/// The eight bytes of the OEM name of the boot sector on `device`.
pub fn read_oem_name<D: FatDeviceAccessible>(device: &D) -> (r: FatResult<Vec<u8>>)
    ensures
        device.faultless() && device.content().len() >= 11 ==> r is Ok,
        r matches Ok(v) ==> device.content().len() >= 11 && v@ == device.content().subrange(3, 11),
        r matches Err(e) ==> e is FailedDeviceAccess,
{
    let mut buff: Vec<u8> = vec![0u8; 8];
    match device.read(buff.as_mut_slice(), 3, 8) {
        Ok(()) => {
            assert(buff@ =~= device.content().subrange(3, 11));
            Ok(buff)
        },
        Err(e) => Err(FatError::FailedDeviceAccess(e)),
    }
}

/// The general fields of the boot sector at the start of a device.
pub struct GeneralBootSector<D> {
    device: D,
}

impl<D: FatDeviceAccessible> GeneralBootSector<D> {
    /// A reader of the boot sector at the start of `device`.
    pub fn new(device: D) -> (r: GeneralBootSector<D>)
        ensures
            r.boot_sector() == device.content(),
            r.reads_faultless() == device.faultless(),
    {
        GeneralBootSector { device }
    }
}

impl<D: FatDeviceAccessible> GeneralBootSectorReadable for GeneralBootSector<D> {
    closed spec fn boot_sector(&self) -> Seq<u8> {
        self.device.content()
    }

    closed spec fn reads_faultless(&self) -> bool {
        self.device.faultless()
    }

    fn oem_name_buff(&self) -> (r: FatResult<Vec<u8>>) {
        read_oem_name(&self.device)
    }

    fn bytes_per_sector(&self) -> (r: FatResult<u16>) {
        self.device.read_u16(11)
    }

    fn sectors_per_cluster(&self) -> (r: FatResult<u8>) {
        self.device.read_u8(13)
    }

    fn reserved_sectors(&self) -> (r: FatResult<u16>) {
        self.device.read_u16(14)
    }

    fn total_sector16(&self) -> (r: FatResult<u16>) {
        self.device.read_u16(19)
    }

    fn total_sector32(&self) -> (r: FatResult<u32>) {
        self.device.read_u32(32)
    }

    fn num_fats(&self) -> (r: FatResult<u8>) {
        self.device.read_u8(16)
    }
}

} // verus!
