use vstd::prelude::*;

use crate::bpb::common::copy_range;
use crate::device::{buff_read_u16, buff_read_u32};
use crate::dir::DirEntryReadable;

verus! {

/// A directory entry decoded from a copy of its slot held in memory.
pub struct DirEntryBuffer {
    buff: Vec<u8>,
}

impl DirEntryBuffer {
    /// The entry whose slot starts `buff`.
    pub fn new(buff: Vec<u8>) -> (r: DirEntryBuffer)
        ensures
            r.record() == buff@,
    {
        DirEntryBuffer { buff }
    }
}

impl DirEntryReadable for DirEntryBuffer {
    closed spec fn record(&self) -> Seq<u8> {
        self.buff@
    }

    fn name_buff(&self) -> (r: Vec<u8>) {
        copy_range(self.buff.as_slice(), 0, 11)
    }

    fn attribute_raw(&self) -> (r: u8) {
        self.buff[11]
    }

    fn first_cluster_no_hi(&self) -> (r: u16) {
        buff_read_u16(self.buff.as_slice(), 20)
    }

    fn first_cluster_no_lo(&self) -> (r: u16) {
        buff_read_u16(self.buff.as_slice(), 26)
    }

    fn file_size(&self) -> (r: u32) {
        buff_read_u32(self.buff.as_slice(), 28)
    }
}

} // verus!
