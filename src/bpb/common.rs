use vstd::prelude::*;

use crate::bpb::{check_sectors_per_cluster, checked_sectors_per_cluster_of};
use crate::device::{buff_read_u16, buff_read_u32, le_u16_at, le_u32_at};
use crate::error::FatResult;

verus! {

/// The fields that every FAT boot sector has, decoded from bytes held in memory.
pub trait CommonBootSectorReadable {
    /// The boot-sector bytes this reader decodes, from offset zero.
    spec fn boot_sector(&self) -> Seq<u8>;

    /// The eight bytes of the OEM name, at offset 3.
    fn oem_name_buff(&self) -> (r: Vec<u8>)
        requires
            self.boot_sector().len() >= 11,
        ensures
            r@ == self.boot_sector().subrange(3, 11),
    ;

    /// Bytes per sector, at offset 11.
    fn bytes_per_sector(&self) -> (r: u16)
        requires
            self.boot_sector().len() >= 13,
        ensures
            r == le_u16_at(self.boot_sector(), 11),
    ;

    /// Sectors per cluster, at offset 13, as stored.
    fn sectors_per_cluster(&self) -> (r: u8)
        requires
            self.boot_sector().len() >= 14,
        ensures
            r == self.boot_sector()[13],
    ;

    /// Reserved sectors before the first FAT, at offset 14.
    fn reserved_sectors(&self) -> (r: u16)
        requires
            self.boot_sector().len() >= 16,
        ensures
            r == le_u16_at(self.boot_sector(), 14),
    ;

    /// The 16-bit total sector count, at offset 19 (zero on FAT32).
    fn total_sector16(&self) -> (r: u16)
        requires
            self.boot_sector().len() >= 21,
        ensures
            r == le_u16_at(self.boot_sector(), 19),
    ;

    /// The 32-bit total sector count, at offset 32.
    fn total_sector32(&self) -> (r: u32)
        requires
            self.boot_sector().len() >= 36,
        ensures
            r == le_u32_at(self.boot_sector(), 32),
    ;

    /// The number of FAT copies, at offset 16.
    fn num_fats(&self) -> (r: u8)
        requires
            self.boot_sector().len() >= 17,
        ensures
            r == self.boot_sector()[16],
    ;

    /// Sectors per cluster, refused unless it is a power of two up to 128.
    fn checked_sectors_per_cluster(&self) -> (r: FatResult<u8>)
        requires
            self.boot_sector().len() >= 14,
        ensures
            r == checked_sectors_per_cluster_of(self.boot_sector()[13]),
    {
        check_sectors_per_cluster(self.sectors_per_cluster())
    }
}

/// The bytes `s[from..to]`, copied.
pub fn copy_range(s: &[u8], from: usize, to: usize) -> (r: Vec<u8>)
    requires
        from <= to <= s@.len(),
    ensures
        r@ == s@.subrange(from as int, to as int),
{
    let mut r: Vec<u8> = Vec::new();
    let mut i: usize = from;
    while i < to
        invariant
            from <= i <= to <= s@.len(),
            r@ == s@.subrange(from as int, i as int),
        decreases to - i,
    {
        r.push(s[i]);
        i = i + 1;
        assert(r@ =~= s@.subrange(from as int, i as int));
    }
    r
}

/// A boot sector read from a byte buffer.
pub struct CommonBootSectorBuffer<'buff> {
    buff: &'buff [u8],
}

impl<'buff> CommonBootSectorBuffer<'buff> {
    /// A reader of the boot sector at the start of `buff`.
    pub fn new(buff: &'buff [u8]) -> (r: CommonBootSectorBuffer<'buff>)
        ensures
            r.boot_sector() == buff@,
    {
        CommonBootSectorBuffer { buff }
    }
}

impl<'buff> CommonBootSectorReadable for CommonBootSectorBuffer<'buff> {
    closed spec fn boot_sector(&self) -> Seq<u8> {
        self.buff@
    }

    fn oem_name_buff(&self) -> (r: Vec<u8>) {
        copy_range(self.buff, 3, 11)
    }

    fn bytes_per_sector(&self) -> (r: u16) {
        buff_read_u16(self.buff, 11)
    }

    fn sectors_per_cluster(&self) -> (r: u8) {
        self.buff[13]
    }

    fn reserved_sectors(&self) -> (r: u16) {
        buff_read_u16(self.buff, 14)
    }

    fn total_sector16(&self) -> (r: u16) {
        buff_read_u16(self.buff, 19)
    }

    fn total_sector32(&self) -> (r: u32) {
        buff_read_u32(self.buff, 32)
    }

    fn num_fats(&self) -> (r: u8) {
        self.buff[16]
    }
}

} // verus!
