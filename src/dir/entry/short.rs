use vstd::prelude::*;

use crate::device::{le_u16_at, offset_add, FatDeviceAccessible};
use crate::dir::data::dir::DirEntries;
use crate::dir::data::file::RegularFile;
use crate::dir::data::Data;
use crate::dir::entry::base::BaseDirEntry;
use crate::dir::entry::{attribute_of, Attribute};
use crate::dir::{
    decode_short_name, entry_attribute, entry_data_offset, entry_file_size, entry_first_cluster,
    entry_name, table_reachable,
};
use crate::error::{FatError, FatResult};

verus! {

/// An 8.3 directory entry on a volume. Every field is read from the device
/// when asked for; nothing is kept.
#[derive(Clone)]
pub struct ShortDirEntry<'a, D> {
    pub base: BaseDirEntry<'a, D>,
}

impl<'a, D: FatDeviceAccessible> ShortDirEntry<'a, D> {
    /// The bytes of the volume the entry lies on.
    pub open spec fn disk(&self) -> Seq<u8> {
        self.base.disk()
    }

    /// Whether every read of the volume's bytes succeeds.
    pub open spec fn faultless(&self) -> bool {
        self.base.faultless()
    }

    /// The byte offset of the entry's slot.
    pub open spec fn slot(&self) -> int {
        self.base.offset as int
    }

    /// The entry in slot `base`.
    pub fn new(base: BaseDirEntry<'a, D>) -> (r: ShortDirEntry<'a, D>)
        ensures
            r.base == base,
    {
        ShortDirEntry { base }
    }

    /// The 11 bytes of the name field: 8 of name, 3 of extension.
    pub fn name_buff(&self) -> (r: FatResult<Vec<u8>>)
        ensures
            self.faultless() && self.slot() + 11 <= self.disk().len() ==> r is Ok,
            r matches Ok(v) ==> self.slot() + 11 <= self.disk().len() && v@ == self.disk().subrange(
                self.slot(),
                self.slot() + 11,
            ),
            r matches Err(e) ==> e is FailedDeviceAccess,
    {
        let mut buff: Vec<u8> = vec![0u8; 11];
        match self.base.bpb.read(buff.as_mut_slice(), self.base.offset, 11) {
            Ok(()) => {
                assert(buff@ =~= self.disk().subrange(self.slot(), self.slot() + 11));
                Ok(buff)
            },
            Err(e) => Err(FatError::FailedDeviceAccess(e)),
        }
    }

    /// The high half of the first cluster number, at offset 20.
    pub fn first_cluster_no_hi(&self) -> (r: FatResult<u16>)
        ensures
            self.faultless() && self.slot() + 22 <= self.disk().len() ==> r is Ok,
            r matches Ok(v) ==> self.slot() + 22 <= self.disk().len() && v == le_u16_at(
                self.disk(),
                self.slot() + 20,
            ),
            r matches Err(e) ==> e is FailedDeviceAccess,
    {
        proof {
            self.base.bpb.lemma_content_addressable();
        }
        let at = offset_add(self.base.offset, 20)?;
        self.base.bpb.read_u16(at)
    }

    /// The low half of the first cluster number, at offset 26.
    pub fn first_cluster_no_lo(&self) -> (r: FatResult<u16>)
        ensures
            self.faultless() && self.slot() + 28 <= self.disk().len() ==> r is Ok,
            r matches Ok(v) ==> self.slot() + 28 <= self.disk().len() && v == le_u16_at(
                self.disk(),
                self.slot() + 26,
            ),
            r matches Err(e) ==> e is FailedDeviceAccess,
    {
        proof {
            self.base.bpb.lemma_content_addressable();
        }
        let at = offset_add(self.base.offset, 26)?;
        self.base.bpb.read_u16(at)
    }

    /// The size of the file in bytes, at offset 28; zero for directories and labels.
    pub fn file_size(&self) -> (r: FatResult<u32>)
        ensures
            self.faultless() && self.slot() + 32 <= self.disk().len() ==> r is Ok,
            r matches Ok(v) ==> self.slot() + 32 <= self.disk().len() && v == entry_file_size(
                self.disk(),
                self.slot(),
            ),
            r matches Err(e) ==> e is FailedDeviceAccess,
    {
        proof {
            self.base.bpb.lemma_content_addressable();
        }
        let at = offset_add(self.base.offset, 28)?;
        self.base.bpb.read_u32(at)
    }

    /// The size of the file in bytes, as a `usize`.
    pub fn file_size_usize(&self) -> (r: FatResult<usize>)
        ensures
            self.faultless() && self.slot() + 32 <= self.disk().len() ==> r is Ok,
            r matches Ok(v) ==> self.slot() + 32 <= self.disk().len() && v == entry_file_size(
                self.disk(),
                self.slot(),
            ),
            r matches Err(e) ==> e is FailedDeviceAccess,
    {
        let size = self.file_size()?;
        Ok(size as usize)
    }

    /// The first cluster number: the high half shifted over the low half.
    pub fn first_cluster_no(&self) -> (r: FatResult<u32>)
        ensures
            self.faultless() && self.slot() + 28 <= self.disk().len() ==> r is Ok,
            r matches Ok(v) ==> self.slot() + 28 <= self.disk().len() && v == entry_first_cluster(
                self.disk(),
                self.slot(),
            ),
            r matches Err(e) ==> e is FailedDeviceAccess,
    {
        let hi = self.first_cluster_no_hi()?;
        let lo = self.first_cluster_no_lo()?;
        let v = (hi as u32) << 16u32 | lo as u32;
        assert(v == hi * 0x1_0000 + lo) by (bit_vector)
            requires
                v == (hi as u32) << 16u32 | lo as u32,
        ;
        Ok(v)
    }

    /// The display name: the name without padding, then a dot and the extension
    /// where there is one.
    pub fn name(&self) -> (r: FatResult<Vec<u8>>)
        ensures
            self.faultless() && self.slot() + 11 <= self.disk().len() ==> r is Ok,
            r matches Ok(v) ==> self.slot() + 11 <= self.disk().len() && v@ == entry_name(
                self.disk(),
                self.slot(),
            ),
            r matches Err(e) ==> e is FailedDeviceAccess,
    {
        let raw = self.name_buff()?;
        let name = decode_short_name(raw.as_slice());
        assert(raw@.subrange(0, 11) =~= raw@);
        Ok(name)
    }

    /// The attribute of the entry.
    pub fn attribute(&self) -> (r: FatResult<Attribute>)
        ensures
            self.faultless() && self.slot() + 12 <= self.disk().len() ==> !(r matches Err(
                FatError::FailedDeviceAccess(_),
            )),
            r matches Ok(a) ==> self.slot() + 12 <= self.disk().len() && attribute_of(
                self.disk()[self.slot() + 11],
            ) == Some(a),
            r matches Err(FatError::InvalidAttribute(b)) ==> self.slot() + 12 <= self.disk().len()
                && b == self.disk()[self.slot() + 11] && attribute_of(b) is None,
            r matches Err(e) ==> e is FailedDeviceAccess || e is InvalidAttribute,
    {
        self.base.attribute()
    }

    /// The byte offset where the entry's data starts: the file's bytes, or the
    /// directory's entry table.
    pub fn data_offset(&self) -> (r: FatResult<usize>)
        ensures
            self.faultless() && self.slot() + 28 <= self.disk().len() && table_reachable(
                self.disk(),
                self.slot(),
            ) ==> r is Ok,
            r matches Ok(v) ==> self.slot() + 28 <= self.disk().len() && self.disk().len() >= 40
                && v == entry_data_offset(
                self.disk(),
                self.slot(),
            ),
            r matches Err(e) ==> e is FailedDeviceAccess,
    {
        let cluster = self.first_cluster_no()?;
        if cluster < 2 {
            self.base.bpb.data_cluster_at(2)
        } else {
            self.base.bpb.data_cluster_at(cluster)
        }
    }

    /// The entry as a directory, with a walker at the start of its table, or as a file.
    pub fn data(&self) -> (r: FatResult<Data<'a, D>>)
        ensures
            self.faultless() && self.slot() + 32 <= self.disk().len() && (entry_attribute(
                self.disk(),
                self.slot(),
            ) == Some(Attribute::Dir) ==> table_reachable(self.disk(), self.slot())) ==> !(r matches Err(
                FatError::FailedDeviceAccess(_),
            )),
            r matches Ok(x) ==> x.spec_entry() == *self && x.describes(self.disk(), self.slot()),
            r matches Err(FatError::InvalidDirEntryType) ==> attribute_of(
                self.disk()[self.slot() + 11],
            ) == Some(Attribute::LongName),
            r matches Err(FatError::InvalidAttribute(b)) ==> b == self.disk()[self.slot() + 11]
                && attribute_of(b) is None,
            r matches Err(e) ==> e is FailedDeviceAccess || e is InvalidAttribute
                || e is InvalidDirEntryType,
    {
        let entry = ShortDirEntry { base: BaseDirEntry { bpb: self.base.bpb, offset: self.base.offset } };
        match self.attribute()? {
            Attribute::Dir => {
                let table = self.data_offset()?;
                Ok(Data::Dir(DirEntries::from_entry(entry, table)))
            },
            Attribute::LongName => Err(FatError::InvalidDirEntryType),
            _ => Ok(Data::RegularFile(RegularFile::new(entry))),
        }
    }
}

} // verus!
