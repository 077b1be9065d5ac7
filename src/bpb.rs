use vstd::prelude::*;

use crate::device::{le_u16_at, le_u32_at, FatDeviceAccessible};
use crate::dir::data::dir::DirEntries;
use crate::dir::data::DataEntries;
use crate::error::{FatDeviceError, FatError, FatResult};

pub mod common;
pub mod fat32;
pub mod general;

verus! {

/// The geometry of a FAT32 volume, as its boot sector states it.
#[derive(Clone, Copy, Debug, PartialEq, Eq, Structural)]
pub struct Bpb {
    pub bytes_per_sector: u16,
    pub sectors_per_cluster: u8,
    pub reserved_sectors: u16,
    pub num_fats: u8,
    pub sectors_per_fat: u32,
    pub root_cluster_no: u32,
}

/// The number of boot-sector bytes that the geometry fields span.
pub const BOOT_FIELDS_LEN: usize = 48;

/// The geometry that the boot sector at the start of `s` states.
pub open spec fn bpb_of(s: Seq<u8>) -> Bpb {
    Bpb {
        bytes_per_sector: le_u16_at(s, 11) as u16,
        sectors_per_cluster: s[13],
        reserved_sectors: le_u16_at(s, 14) as u16,
        num_fats: s[16],
        sectors_per_fat: le_u32_at(s, 36) as u32,
        root_cluster_no: le_u32_at(s, 44) as u32,
    }
}

/// The cluster sizes, in sectors, that FAT allows.
pub open spec fn is_valid_sectors_per_cluster(v: u8) -> bool {
    v == 1 || v == 2 || v == 4 || v == 8 || v == 16 || v == 32 || v == 64 || v == 128
}

/// What checking a sectors-per-cluster byte gives.
pub open spec fn checked_sectors_per_cluster_of(v: u8) -> FatResult<u8> {
    if is_valid_sectors_per_cluster(v) {
        Ok(v)
    } else {
        Err(FatError::InvalidSecPerClus(v))
    }
}

/// `Ok(v)` where `v` is a cluster size FAT allows, else `InvalidSecPerClus(v)`.
pub fn check_sectors_per_cluster(v: u8) -> (r: FatResult<u8>)
    ensures
        r == checked_sectors_per_cluster_of(v),
        is_valid_sectors_per_cluster(v) ==> r == Ok::<u8, FatError>(v),
        !is_valid_sectors_per_cluster(v) ==> r == Err::<u8, FatError>(FatError::InvalidSecPerClus(v)),
{
    match v {
        1 | 2 | 4 | 8 | 16 | 32 | 64 | 128 => Ok(v),
        _ => Err(FatError::InvalidSecPerClus(v)),
    }
}

impl Bpb {
    /// Byte offset of the data region: the reserved sectors and the FAT copies come first.
    pub open spec fn spec_data_region_offset(self) -> int {
        self.reserved_sectors * self.bytes_per_sector + self.num_fats * self.sectors_per_fat
            * self.bytes_per_sector
    }

    /// Byte offset of cluster `n`; clusters are numbered from 2 at the data region's start.
    pub open spec fn spec_cluster_offset(self, n: int) -> int {
        (n - 2) * self.bytes_per_sector * self.sectors_per_cluster + self.spec_data_region_offset()
    }

    /// Byte offset of the data region.
    pub fn data_region_offset_fat32(&self) -> (r: u64)
        ensures
            r == self.spec_data_region_offset(),
    {
        let bps = self.bytes_per_sector as u64;
        let rsv = self.reserved_sectors as u64;
        let nf = self.num_fats as u64;
        let spf = self.sectors_per_fat as u64;
        assert(rsv * bps <= 0xffff * 0xffff) by (nonlinear_arith)
            requires
                rsv <= 0xffff,
                bps <= 0xffff,
        ;
        assert(nf * spf <= 0xff * 0xffff_ffff) by (nonlinear_arith)
            requires
                nf <= 0xff,
                spf <= 0xffff_ffff,
        ;
        assert((nf * spf) * bps <= (0xff * 0xffff_ffff) * 0xffff) by (nonlinear_arith)
            requires
                nf * spf <= 0xff * 0xffff_ffff,
                bps <= 0xffff,
        ;
        rsv * bps + nf * spf * bps
    }

    /// Byte offset of cluster `cluster_no`.
    pub fn data_cluster_offset_at(&self, cluster_no: u32) -> (r: u64)
        requires
            cluster_no >= 2,
        ensures
            r == self.spec_cluster_offset(cluster_no as int),
    {
        let n = (cluster_no - 2) as u64;
        let bps = self.bytes_per_sector as u64;
        let spc = self.sectors_per_cluster as u64;
        assert(n * bps <= 0xffff_ffff * 0xffff) by (nonlinear_arith)
            requires
                n <= 0xffff_ffff,
                bps <= 0xffff,
        ;
        assert((n * bps) * spc <= (0xffff_ffff * 0xffff) * 0xff) by (nonlinear_arith)
            requires
                n * bps <= 0xffff_ffff * 0xffff,
                spc <= 0xff,
        ;
        let data = self.data_region_offset_fat32();
        assert(data <= 0xffff * 0xffff + (0xff * 0xffff_ffff) * 0xffff) by (nonlinear_arith)
            requires
                data == self.reserved_sectors * self.bytes_per_sector + self.num_fats
                    * self.sectors_per_fat * self.bytes_per_sector,
                self.reserved_sectors <= 0xffff,
                self.bytes_per_sector <= 0xffff,
                self.num_fats <= 0xff,
                self.sectors_per_fat <= 0xffff_ffff,
        ;
        n * bps * spc + data
    }
}

/// Cluster 2 is the first cluster of the data region.
pub proof fn lemma_cluster_two_is_data_start(bpb: Bpb)
    ensures
        bpb.spec_cluster_offset(2) == bpb.spec_data_region_offset(),
{
    assert((2 - 2) * bpb.bytes_per_sector * bpb.sectors_per_cluster == 0) by (nonlinear_arith);
}

/// A `u64` offset as a device offset; one that `usize` cannot hold lies beyond every device.
pub fn device_offset(offset: u64) -> (r: FatResult<usize>)
    ensures
        offset <= usize::MAX ==> r == Ok::<usize, FatError>(offset as usize),
        offset > usize::MAX ==> r == Err::<usize, FatError>(
            FatError::FailedDeviceAccess(FatDeviceError::OutOfRange),
        ),
{
    if offset <= usize::MAX as u64 {
        Ok(offset as usize)
    } else {
        Err(FatError::FailedDeviceAccess(FatDeviceError::OutOfRange))
    }
}

/// A volume that can place clusters: where on the device each one starts.
pub trait BpbReadable: FatDeviceAccessible {
    /// Byte offset of cluster `cluster_no`, from the geometry the boot sector states.
    fn data_cluster_offset_at(&self, cluster_no: u32) -> (r: FatResult<usize>)
        requires
            cluster_no >= 2,
        ensures
            self.faultless() && self.content().len() >= 40 && bpb_of(self.content()).spec_cluster_offset(
                cluster_no as int,
            ) <= usize::MAX ==> r is Ok,
            r matches Ok(v) ==> self.content().len() >= 40 && v == bpb_of(
                self.content(),
            ).spec_cluster_offset(cluster_no as int),
            r matches Ok(v) ==> cluster_no == 2 ==> v == bpb_of(
                self.content(),
            ).spec_data_region_offset(),
            r matches Err(e) ==> e is FailedDeviceAccess,
    ;
}

impl<D: FatDeviceAccessible> BpbReadable for BpbFat32<D> {
    fn data_cluster_offset_at(&self, cluster_no: u32) -> (r: FatResult<usize>) {
        self.data_cluster_at(cluster_no)
    }
}

/// The boot parameter block of a FAT32 volume, read from its device.
pub struct BpbFat32<D> {
    device: D,
}

impl<D: FatDeviceAccessible> FatDeviceAccessible for BpbFat32<D> {
    closed spec fn content(&self) -> Seq<u8> {
        self.device.content()
    }

    closed spec fn faultless(&self) -> bool {
        self.device.faultless()
    }

    proof fn lemma_content_addressable(&self) {
        self.device.lemma_content_addressable();
    }

    fn read(&self, buff: &mut [u8], offset: usize, bytes: usize) -> (r: Result<(), FatDeviceError>) {
        self.device.read(buff, offset, bytes)
    }

    fn write(&mut self, buff: &[u8], offset: usize) -> (r: Result<(), FatDeviceError>) {
        self.device.write(buff, offset)
    }
}

impl<D: FatDeviceAccessible> BpbFat32<D> {
    /// The volume on `device`.
    pub fn new(device: D) -> (r: BpbFat32<D>)
        ensures
            r.content() == device.content(),
            r.faultless() == device.faultless(),
    {
        BpbFat32 { device }
    }

    /// The whole geometry, read field by field.
    pub fn bpb(&self) -> (r: FatResult<Bpb>)
        ensures
            self.faultless() && self.content().len() >= BOOT_FIELDS_LEN ==> r is Ok,
            r matches Ok(b) ==> self.content().len() >= BOOT_FIELDS_LEN && b == bpb_of(
                self.content(),
            ),
            r matches Err(e) ==> e is FailedDeviceAccess,
    {
        let bytes_per_sector = self.device.read_u16(11)?;
        let sectors_per_cluster = self.device.read_u8(13)?;
        let reserved_sectors = self.device.read_u16(14)?;
        let num_fats = self.device.read_u8(16)?;
        let sectors_per_fat = self.device.read_u32(36)?;
        let root_cluster_no = self.device.read_u32(44)?;
        Ok(
            Bpb {
                bytes_per_sector,
                sectors_per_cluster,
                reserved_sectors,
                num_fats,
                sectors_per_fat,
                root_cluster_no,
            },
        )
    }

    /// Sectors per FAT copy, at offset 36.
    pub fn sectors_per_fat(&self) -> (r: FatResult<u32>)
        ensures
            self.faultless() && self.content().len() >= 40 ==> r is Ok,
            r matches Ok(v) ==> self.content().len() >= 40 && v == le_u32_at(self.content(), 36),
            r matches Err(e) ==> e is FailedDeviceAccess,
    {
        self.device.read_u32(36)
    }

    /// The first cluster of the root directory, at offset 44.
    pub fn root_cluster_no(&self) -> (r: FatResult<u32>)
        ensures
            self.faultless() && self.content().len() >= 48 ==> r is Ok,
            r matches Ok(v) ==> self.content().len() >= 48 && v == le_u32_at(self.content(), 44),
            r matches Err(e) ==> e is FailedDeviceAccess,
    {
        self.device.read_u32(44)
    }

    /// Byte offset of the data region, from the four fields it depends on.
    pub fn data_region_offset_fat32(&self) -> (r: FatResult<usize>)
        ensures
            self.faultless() && self.content().len() >= 40 && bpb_of(
                self.content(),
            ).spec_data_region_offset() <= usize::MAX ==> r is Ok,
            r matches Ok(v) ==> self.content().len() >= 40 && v == bpb_of(
                self.content(),
            ).spec_data_region_offset(),
            r matches Err(e) ==> e is FailedDeviceAccess,
    {
        let bytes_per_sector = self.device.read_u16(11)?;
        let reserved_sectors = self.device.read_u16(14)?;
        let num_fats = self.device.read_u8(16)?;
        let sectors_per_fat = self.device.read_u32(36)?;
        let geometry = Bpb {
            bytes_per_sector,
            sectors_per_cluster: 0,
            reserved_sectors,
            num_fats,
            sectors_per_fat,
            root_cluster_no: 0,
        };
        device_offset(geometry.data_region_offset_fat32())
    }

    /// A walk over the root directory, whose table starts the data region.
    pub fn root_dir(&self) -> (r: FatResult<DataEntries<'_, D>>)
        ensures
            self.faultless() && self.content().len() >= 40 && bpb_of(
                self.content(),
            ).spec_data_region_offset() <= usize::MAX ==> r is Ok,
            r matches Ok(w) ==> self.content().len() >= 40 && w.dir_entries.volume() == self
                && w.dir_entries.base_offset == bpb_of(self.content()).spec_data_region_offset()
                && w.dir_entries.offset == w.dir_entries.base_offset
                && w.dir_entries.entry.base.offset == w.dir_entries.base_offset,
            r matches Err(e) ==> e is FailedDeviceAccess,
    {
        let offset = self.data_region_offset_fat32()?;
        Ok(DataEntries::new(DirEntries::root(self, offset)))
    }

    /// Byte offset of cluster `cluster_no`.
    pub fn data_cluster_at(&self, cluster_no: u32) -> (r: FatResult<usize>)
        requires
            cluster_no >= 2,
        ensures
            self.faultless() && self.content().len() >= 40 && bpb_of(self.content()).spec_cluster_offset(
                cluster_no as int,
            ) <= usize::MAX ==> r is Ok,
            r matches Ok(v) ==> self.content().len() >= 40 && v == bpb_of(
                self.content(),
            ).spec_cluster_offset(cluster_no as int),
            r matches Ok(v) ==> cluster_no == 2 ==> v == bpb_of(
                self.content(),
            ).spec_data_region_offset(),
            r matches Err(e) ==> e is FailedDeviceAccess,
    {
        proof {
            lemma_cluster_two_is_data_start(bpb_of(self.content()));
        }
        let bytes_per_sector = self.device.read_u16(11)?;
        let sectors_per_cluster = self.device.read_u8(13)?;
        let reserved_sectors = self.device.read_u16(14)?;
        let num_fats = self.device.read_u8(16)?;
        let sectors_per_fat = self.device.read_u32(36)?;
        let geometry = Bpb {
            bytes_per_sector,
            sectors_per_cluster,
            reserved_sectors,
            num_fats,
            sectors_per_fat,
            root_cluster_no: 0,
        };
        device_offset(geometry.data_cluster_offset_at(cluster_no))
    }
}

} // verus!
