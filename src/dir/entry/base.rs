use vstd::prelude::*;

use crate::bpb::BpbFat32;
use crate::device::{offset_add, FatDeviceAccessible};
use crate::dir::entry::short::ShortDirEntry;
use crate::dir::entry::{attribute_of, status_of, Attribute, DirEntry, EntryStatus};
use crate::error::{FatError, FatResult};

verus! {

/// A directory slot on a volume: where it is, nothing read yet.
#[derive(Clone)]
pub struct BaseDirEntry<'a, D> {
    pub bpb: &'a BpbFat32<D>,
    pub offset: usize,
}

impl<'a, D: FatDeviceAccessible> BaseDirEntry<'a, D> {
    /// The bytes of the volume the slot lies on.
    pub open spec fn disk(&self) -> Seq<u8> {
        self.bpb.content()
    }

    /// Whether every read of the volume's bytes succeeds.
    pub open spec fn faultless(&self) -> bool {
        self.bpb.faultless()
    }

    /// The slot at byte `offset` of `bpb`'s volume.
    pub fn new(bpb: &'a BpbFat32<D>, offset: usize) -> (r: BaseDirEntry<'a, D>)
        ensures
            r.bpb == bpb,
            r.offset == offset,
    {
        BaseDirEntry { bpb, offset }
    }

    /// The first byte of the slot, which carries its status.
    pub fn status_raw(&self) -> (r: FatResult<u8>)
        ensures
            self.faultless() && self.offset + 1 <= self.disk().len() ==> r is Ok,
            r matches Ok(v) ==> self.offset + 1 <= self.disk().len() && v == self.disk()[self.offset as int],
            r matches Err(e) ==> e is FailedDeviceAccess,
    {
        self.bpb.read_u8(self.offset)
    }

    /// The attribute byte of the slot, at offset 11.
    pub fn attribute_raw(&self) -> (r: FatResult<u8>)
        ensures
            self.faultless() && self.offset + 12 <= self.disk().len() ==> r is Ok,
            r matches Ok(v) ==> self.offset + 12 <= self.disk().len() && v == self.disk()[self.offset + 11],
            r matches Err(e) ==> e is FailedDeviceAccess,
    {
        proof {
            self.bpb.lemma_content_addressable();
        }
        let at = offset_add(self.offset, 11)?;
        self.bpb.read_u8(at)
    }

    /// The status the first byte gives, `None` for an ordinary live entry.
    pub fn status(&self) -> (r: FatResult<Option<EntryStatus>>)
        ensures
            self.faultless() && self.offset + 1 <= self.disk().len() ==> r is Ok,
            r matches Ok(v) ==> self.offset + 1 <= self.disk().len() && v == status_of(
                self.disk()[self.offset as int],
            ),
            r matches Err(e) ==> e is FailedDeviceAccess,
    {
        let b = self.status_raw()?;
        Ok(EntryStatus::from_byte(b))
    }

    /// The attribute of the slot; `InvalidAttribute` for a byte of no known meaning.
    pub fn attribute(&self) -> (r: FatResult<Attribute>)
        ensures
            self.faultless() && self.offset + 12 <= self.disk().len() ==> !(r matches Err(
                FatError::FailedDeviceAccess(_),
            )),
            r matches Ok(a) ==> self.offset + 12 <= self.disk().len() && attribute_of(
                self.disk()[self.offset + 11],
            ) == Some(a),
            r matches Err(FatError::InvalidAttribute(b)) ==> self.offset + 12 <= self.disk().len()
                && b == self.disk()[self.offset + 11] && attribute_of(b) is None,
            r matches Err(e) ==> e is FailedDeviceAccess || e is InvalidAttribute,
    {
        let b = self.attribute_raw()?;
        Attribute::from_byte(b)
    }

    /// The slot as an entry; a long-name slot is none (`InvalidDirEntryType`).
    pub fn into_detail(self) -> (r: FatResult<DirEntry<'a, D>>)
        ensures
            self.faultless() && self.offset + 12 <= self.disk().len() ==> !(r matches Err(
                FatError::FailedDeviceAccess(_),
            )),
            r matches Ok(DirEntry::Short(s)) ==> s.base == self && attribute_of(
                self.disk()[self.offset + 11],
            ) is Some && attribute_of(self.disk()[self.offset + 11]) != Some(Attribute::LongName),
            r matches Err(FatError::InvalidDirEntryType) ==> attribute_of(
                self.disk()[self.offset + 11],
            ) == Some(Attribute::LongName),
            r matches Err(FatError::InvalidAttribute(b)) ==> b == self.disk()[self.offset + 11]
                && attribute_of(b) is None,
            r matches Err(e) ==> e is FailedDeviceAccess || e is InvalidAttribute
                || e is InvalidDirEntryType,
    {
        match self.attribute()? {
            Attribute::LongName => Err(FatError::InvalidDirEntryType),
            _ => Ok(DirEntry::Short(ShortDirEntry::new(self))),
        }
    }
}

} // verus!
