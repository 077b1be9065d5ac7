use vstd::prelude::*;

use crate::bpb::BpbFat32;
use crate::device::FatDeviceAccessible;
use crate::dir::data::DataEntries;
use crate::dir::entry::base::BaseDirEntry;
use crate::dir::entry::short::ShortDirEntry;
use crate::dir::entry::Attribute;
use crate::dir::{
    lemma_stop_slot_bounds,
    slot_is_end, slot_is_entry, slot_is_invalid, slot_readable, slot_skipped, stop_slot,
    DIR_ENTRY_LEN,
};
use crate::error::{FatError, FatResult};

verus! {

/// A directory: the entry that describes it and a cursor over its entry table.
///
/// `base_offset` is where the table starts; `offset` is the next slot to look at.
#[derive(Clone)]
pub struct DirEntries<'a, D> {
    pub entry: ShortDirEntry<'a, D>,
    pub base_offset: usize,
    pub offset: usize,
}

impl<'a, D: FatDeviceAccessible> DirEntries<'a, D> {
    /// The bytes of the volume the directory lies on.
    pub open spec fn disk(&self) -> Seq<u8> {
        self.entry.disk()
    }

    /// The volume the directory lies on.
    pub open spec fn volume(&self) -> &'a BpbFat32<D> {
        self.entry.base.bpb
    }

    /// The root directory, whose table starts at `base_offset`.
    pub fn root(bpb: &'a BpbFat32<D>, base_offset: usize) -> (r: DirEntries<'a, D>)
        ensures
            r.volume() == bpb,
            r.entry.base.offset == base_offset,
            r.base_offset == base_offset,
            r.offset == base_offset,
    {
        let entry = ShortDirEntry::new(BaseDirEntry::new(bpb, base_offset));
        DirEntries { entry, base_offset, offset: base_offset }
    }

    /// The directory that `entry` describes, whose table starts at `base_offset`.
    pub fn from_entry(entry: ShortDirEntry<'a, D>, base_offset: usize) -> (r: DirEntries<'a, D>)
        ensures
            r.entry == entry,
            r.base_offset == base_offset,
            r.offset == base_offset,
    {
        DirEntries { entry, base_offset, offset: base_offset }
    }

    /// A walker over the files and directories of this directory.
    pub fn into_data_entries(self) -> (r: DataEntries<'a, D>)
        ensures
            r.dir_entries == self,
    {
        DataEntries::new(self)
    }

    /// Moves the cursor to the next slot that holds an entry and hands that slot out.
    /// Deleted slots and long-name slots are passed over, the cursor moving 32 bytes
    /// past each; an end marker ends the walk with the cursor on it.
    pub fn find_next(&mut self) -> (r: FatResult<Option<BaseDirEntry<'a, D>>>)
        ensures
            final(self).entry == old(self).entry,
            final(self).base_offset == old(self).base_offset,
            ({
                let d = old(self).disk();
                let p = stop_slot(d, old(self).offset as int);
                &&& r matches Ok(None) ==> slot_is_end(d, p) && final(self).offset == p
                &&& r matches Ok(Some(e)) ==> slot_is_entry(d, p) && e.bpb == old(self).volume()
                    && e.offset == p && final(self).offset == p + DIR_ENTRY_LEN
                &&& r matches Err(FatError::InvalidAttribute(b)) ==> slot_is_invalid(d, p) && b
                    == d[p + 11] && final(self).offset == p + DIR_ENTRY_LEN
                &&& r matches Err(e) ==> e is FailedDeviceAccess || e is InvalidAttribute
                &&& old(self).volume().faultless() && slot_readable(d, p) ==> !(r matches Err(
                    FatError::FailedDeviceAccess(_),
                ))
            }),
    {
        let ghost d = self.disk();
        let ghost start = self.offset as int;
        proof {
            lemma_stop_slot_bounds(d, start);
        }
        let bpb = self.entry.base.bpb;
        proof {
            bpb.lemma_content_addressable();
        }
        let mut off = self.offset;
        loop
            invariant
                bpb == old(self).volume(),
                d == bpb.content(),
                d.len() <= usize::MAX,
                *self == *old(self),
                start == old(self).offset,
                stop_slot(d, off as int) == stop_slot(d, start),
                start <= off <= stop_slot(d, start),
            decreases d.len() - off,
        {
            let mut slot: Vec<u8> = vec![0u8; DIR_ENTRY_LEN];
            match bpb.read(slot.as_mut_slice(), off, DIR_ENTRY_LEN) {
                Ok(()) => {},
                Err(e) => {
                    return Err(FatError::FailedDeviceAccess(e));
                },
            }
            assert(slot@[0] == d[off as int]);
            assert(slot@[11] == d[off + 11]);
            let status = slot[0];
            if status == 0x00 {
                assert(!slot_skipped(d, off as int));
                assert(stop_slot(d, off as int) == off);
                self.offset = off;
                return Ok(None);
            }
            if status == 0xe5 {
                assert(slot_skipped(d, off as int));
                proof {
                    lemma_stop_slot_bounds(d, off + DIR_ENTRY_LEN);
                }
                off = off + DIR_ENTRY_LEN;
                continue;
            }
            match Attribute::from_byte(slot[11]) {
                Err(e) => {
                    assert(!slot_skipped(d, off as int));
                    assert(stop_slot(d, off as int) == off);
                    self.offset = off + DIR_ENTRY_LEN;
                    return Err(e);
                },
                Ok(Attribute::LongName) => {
                    assert(slot_skipped(d, off as int));
                    proof {
                        lemma_stop_slot_bounds(d, off + DIR_ENTRY_LEN);
                    }
                    off = off + DIR_ENTRY_LEN;
                },
                Ok(_) => {
                    assert(!slot_skipped(d, off as int));
                    assert(stop_slot(d, off as int) == off);
                    self.offset = off + DIR_ENTRY_LEN;
                    return Ok(Some(BaseDirEntry::new(bpb, off)));
                },
            }
        }
    }
}

} // verus!
