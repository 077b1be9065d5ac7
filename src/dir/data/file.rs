use vstd::prelude::*;

use crate::device::FatDeviceAccessible;
use crate::dir::entry::short::ShortDirEntry;
use crate::dir::entry::{attribute_of, Attribute};
use crate::dir::{
    entry_data_offset, entry_file_size, entry_first_cluster, entry_name, table_reachable,
};
use crate::error::{FatError, FatResult};

verus! {

/// A regular file: the entry that describes it.
///
/// Its bytes are taken to lie in one run from its first cluster on; the FAT
/// is not consulted for a chain of clusters.
#[derive(Clone)]
pub struct RegularFile<'a, D> {
    pub entry: ShortDirEntry<'a, D>,
}

impl<'a, D: FatDeviceAccessible> RegularFile<'a, D> {
    /// The bytes of the volume the file lies on.
    pub open spec fn disk(&self) -> Seq<u8> {
        self.entry.disk()
    }

    /// Whether every read of the volume's bytes succeeds.
    pub open spec fn faultless(&self) -> bool {
        self.entry.faultless()
    }

    /// Whether the file can be read whole from a faultless device: its entry, the
    /// geometry and its bytes all lie on the device.
    pub open spec fn spec_readable(&self) -> bool {
        &&& self.entry.slot() + 32 <= self.disk().len()
        &&& table_reachable(self.disk(), self.entry.slot())
        &&& self.spec_data_offset() + self.spec_size() <= self.disk().len()
    }

    /// The size the file's entry states.
    pub open spec fn spec_size(&self) -> int {
        entry_file_size(self.disk(), self.entry.slot())
    }

    /// Where the file's bytes start.
    pub open spec fn spec_data_offset(&self) -> int {
        entry_data_offset(self.disk(), self.entry.slot())
    }

    /// The file's bytes, as the volume holds them.
    pub open spec fn spec_contents(&self) -> Seq<u8> {
        self.disk().subrange(self.spec_data_offset(), self.spec_data_offset() + self.spec_size())
    }

    /// The file that `entry` describes.
    pub fn new(entry: ShortDirEntry<'a, D>) -> (r: RegularFile<'a, D>)
        ensures
            r.entry == entry,
    {
        RegularFile { entry }
    }

    /// The display name of the file.
    pub fn name(&self) -> (r: FatResult<Vec<u8>>)
        ensures
            self.faultless() && self.entry.slot() + 11 <= self.disk().len() ==> r is Ok,
            r matches Ok(v) ==> v@ == entry_name(self.disk(), self.entry.slot()),
            r matches Err(e) ==> e is FailedDeviceAccess,
    {
        self.entry.name()
    }

    /// The attribute of the file's entry.
    pub fn attribute(&self) -> (r: FatResult<Attribute>)
        ensures
            self.faultless() && self.entry.slot() + 12 <= self.disk().len() ==> !(r matches Err(
                FatError::FailedDeviceAccess(_),
            )),
            r matches Ok(a) ==> attribute_of(self.disk()[self.entry.slot() + 11]) == Some(a),
            r matches Err(FatError::InvalidAttribute(b)) ==> b == self.disk()[self.entry.slot() + 11]
                && attribute_of(b) is None,
            r matches Err(e) ==> e is FailedDeviceAccess || e is InvalidAttribute,
    {
        self.entry.attribute()
    }

    /// The first cluster number of the file.
    pub fn first_cluster_no(&self) -> (r: FatResult<u32>)
        ensures
            self.faultless() && self.entry.slot() + 28 <= self.disk().len() ==> r is Ok,
            r matches Ok(v) ==> v == entry_first_cluster(self.disk(), self.entry.slot()),
            r matches Err(e) ==> e is FailedDeviceAccess,
    {
        self.entry.first_cluster_no()
    }

    /// The size of the file in bytes.
    pub fn file_size(&self) -> (r: FatResult<u32>)
        ensures
            self.faultless() && self.entry.slot() + 32 <= self.disk().len() ==> r is Ok,
            r matches Ok(v) ==> v == self.spec_size(),
            r matches Err(e) ==> e is FailedDeviceAccess,
    {
        self.entry.file_size()
    }

    /// Reads the whole file into the front of `buff`. A buffer shorter than the
    /// file is refused with `BufferToSmall(file size, buffer length)` before any
    /// of the file's bytes are read.
    pub fn read_buff(&self, buff: &mut [u8]) -> (r: FatResult)
        ensures
            self.faultless() && self.entry.slot() + 32 <= self.disk().len() && self.spec_size() > old(
                buff,
            )@.len() ==> r == Err::<(), FatError>(
                FatError::BufferToSmall(self.spec_size() as usize, old(buff)@.len() as usize),
            ),
            self.faultless() && self.spec_readable() ==> (r is Ok <==> self.spec_size() <= old(
                buff,
            )@.len()) && !(r matches Err(FatError::FailedDeviceAccess(_))),
            final(buff)@.len() == old(buff)@.len(),
            r is Ok ==> self.entry.slot() + 32 <= self.disk().len() && self.spec_size() <= old(
                buff,
            )@.len() && self.spec_data_offset() + self.spec_size() <= self.disk().len()
                && final(buff)@ == self.spec_contents() + old(buff)@.subrange(
                self.spec_size(),
                old(buff)@.len() as int,
            ),
            r matches Err(FatError::BufferToSmall(need, given)) ==> need == self.spec_size()
                && given == old(buff)@.len() && need > given && final(buff)@ == old(buff)@,
            r matches Err(e) ==> e is FailedDeviceAccess || e is BufferToSmall,
    {
        let file_size = self.entry.file_size_usize()?;
        if buff.len() < file_size {
            return Err(FatError::BufferToSmall(file_size, buff.len()));
        }
        let offset = self.entry.data_offset()?;
        match self.entry.base.bpb.read(buff, offset, file_size) {
            Ok(()) => Ok(()),
            Err(e) => Err(FatError::FailedDeviceAccess(e)),
        }
    }

    /// The whole file, in a buffer of its own.
    pub fn read_boxed(&self) -> (r: FatResult<Vec<u8>>)
        ensures
            self.faultless() && self.spec_readable() ==> r is Ok,
            r matches Ok(v) ==> self.entry.slot() + 32 <= self.disk().len() && self.spec_data_offset()
                + self.spec_size() <= self.disk().len() && v@ == self.spec_contents(),
            r matches Err(e) ==> e is FailedDeviceAccess,
    {
        let size = self.entry.file_size_usize()?;
        let mut buff: Vec<u8> = vec![0u8; size];
        self.read_buff(buff.as_mut_slice())?;
        assert(buff@ =~= self.spec_contents());
        Ok(buff)
    }
}

} // verus!
