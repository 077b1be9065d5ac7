use vstd::prelude::*;

use crate::device::{buff_read_u32, le_u32_at, FatDeviceAccessible};
use crate::error::FatResult;

verus! {

/// The fields that only a FAT32 boot sector has, decoded from bytes held in memory.
pub trait Fat32BootSectorReadable {
    /// The boot-sector bytes this reader decodes, from offset zero.
    spec fn boot_sector(&self) -> Seq<u8>;

    /// Sectors per FAT copy, at offset 36.
    fn sectors_per_fat(&self) -> (r: u32)
        requires
            self.boot_sector().len() >= 40,
        ensures
            r == le_u32_at(self.boot_sector(), 36),
    ;

    /// The first cluster of the root directory, at offset 44.
    fn root_cluster_no(&self) -> (r: u32)
        requires
            self.boot_sector().len() >= 48,
        ensures
            r == le_u32_at(self.boot_sector(), 44),
    ;
}

/// The FAT32 fields of a boot sector read from a byte buffer.
pub struct Fat32BootSectorBuffer<'buff> {
    buff: &'buff [u8],
}

impl<'buff> Fat32BootSectorBuffer<'buff> {
    /// A reader of the boot sector at the start of `buff`.
    pub fn new(buff: &'buff [u8]) -> (r: Fat32BootSectorBuffer<'buff>)
        ensures
            r.boot_sector() == buff@,
    {
        Fat32BootSectorBuffer { buff }
    }
}

impl<'buff> Fat32BootSectorReadable for Fat32BootSectorBuffer<'buff> {
    closed spec fn boot_sector(&self) -> Seq<u8> {
        self.buff@
    }

    fn sectors_per_fat(&self) -> (r: u32) {
        buff_read_u32(self.buff, 36)
    }

    fn root_cluster_no(&self) -> (r: u32) {
        buff_read_u32(self.buff, 44)
    }
}

/// The FAT32 fields of the boot sector at the start of a device.
pub struct Fat32BootSector<D> {
    device: D,
}

impl<D: FatDeviceAccessible> Fat32BootSector<D> {
    /// The bytes of the device this reader reads.
    pub closed spec fn boot_sector(&self) -> Seq<u8> {
        self.device.content()
    }

    /// Whether every read of bytes the device holds succeeds.
    pub closed spec fn reads_faultless(&self) -> bool {
        self.device.faultless()
    }

    /// A reader of the boot sector at the start of `device`.
    pub fn new(device: D) -> (r: Fat32BootSector<D>)
        ensures
            r.boot_sector() == device.content(),
            r.reads_faultless() == device.faultless(),
    {
        Fat32BootSector { device }
    }

    /// Sectors per FAT copy, at offset 36.
    pub fn sectors_per_fat(&self) -> (r: FatResult<u32>)
        ensures
            self.reads_faultless() && self.boot_sector().len() >= 40 ==> r is Ok,
            r matches Ok(v) ==> self.boot_sector().len() >= 40 && v == le_u32_at(
                self.boot_sector(),
                36,
            ),
            r matches Err(e) ==> e is FailedDeviceAccess,
    {
        self.device.read_u32(36)
    }

    /// The first cluster of the root directory, at offset 44.
    pub fn root_cluster_no(&self) -> (r: FatResult<u32>)
        ensures
            self.reads_faultless() && self.boot_sector().len() >= 48 ==> r is Ok,
            r matches Ok(v) ==> self.boot_sector().len() >= 48 && v == le_u32_at(
                self.boot_sector(),
                44,
            ),
            r matches Err(e) ==> e is FailedDeviceAccess,
    {
        self.device.read_u32(44)
    }
}

} // verus!
