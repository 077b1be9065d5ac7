//! A read-oriented FAT32 engine: it decodes the boot sector of a volume held on a
//! byte-addressable device, places the data region and its clusters, walks the
//! 8.3 directory entries, finds entries by name and reads file contents.
//!
//! Every decoded value is stated over the device's bytes (`FatDeviceAccessible::content`):
//! what a read returns, where a walk stops, what a search finds.

use vstd::prelude::*;

pub mod bpb;
pub mod device;
pub mod dir;
pub mod error;

pub use device::FatDeviceAccessible;

use crate::bpb::{bpb_of, BpbFat32};
use crate::dir::data::file::RegularFile;
use crate::dir::data::{lookup, Data, DataEntries, Lookup, MAX_DIR_DEPTH};
use crate::dir::entry_attribute;
use crate::dir::Attribute;
use crate::error::{FatError, FatResult};
use vstd::string::StringSliceAdditionalSpecFns;

verus! {

/// A FAT32 volume on a device: the entry point for looking up and reading files.
pub struct Fat<D> {
    bpb: BpbFat32<D>,
}

impl<D: FatDeviceAccessible> Fat<D> {
    /// The bytes of the device the volume lies on.
    pub closed spec fn disk(&self) -> Seq<u8> {
        self.bpb.content()
    }

    /// The volume whose entries this handle hands out.
    pub closed spec fn volume(&self) -> &BpbFat32<D> {
        &self.bpb
    }

    /// Whether every read of the device's bytes succeeds.
    pub closed spec fn faultless(&self) -> bool {
        self.bpb.faultless()
    }

    /// Whether the root directory can be placed: the geometry fields lie on the
    /// device and the data region's offset fits a `usize`.
    pub open spec fn spec_root_reachable(&self) -> bool {
        self.disk().len() >= 40 && bpb_of(self.disk()).spec_data_region_offset() <= usize::MAX
    }

    /// What a search of the whole tree for `name` comes to: from the root directory
    /// at the start of the data region, with the root on the path.
    pub open spec fn spec_lookup(&self, name: Seq<u8>) -> Lookup {
        let root = bpb_of(self.disk()).spec_data_region_offset();
        lookup(self.disk(), root, name, seq![root as usize], MAX_DIR_DEPTH as nat)
    }

    /// The volume on `device`.
    pub fn new(device: D) -> (r: Fat<D>)
        ensures
            r.disk() == device.content(),
            r.faultless() == device.faultless(),
    {
        Fat { bpb: BpbFat32::new(device) }
    }

    /// A walk over the root directory.
    pub fn root_dir(&self) -> (r: FatResult<DataEntries<'_, D>>)
        ensures
            self.faultless() && self.spec_root_reachable() ==> r is Ok,
            r matches Ok(w) ==> w.dir_entries.volume().faultless() == self.faultless()
                && w.dir_entries.volume() == self.volume() && w.dir_entries.entry.base.offset
                == w.dir_entries.base_offset,
            r matches Ok(w) ==> w.disk() == self.disk() && w.dir_entries.base_offset == bpb_of(
                self.disk(),
            ).spec_data_region_offset() && w.dir_entries.offset == w.dir_entries.base_offset,
            r matches Err(e) ==> e is FailedDeviceAccess,
    {
        self.bpb.root_dir()
    }

    /// The regular file named `file_name`, searched for as `open` does; a directory
    /// of that name is refused with `InvalidDirEntryType`.
    pub fn open_file(&self, file_name: &str) -> (r: FatResult<RegularFile<'_, D>>)
        ensures
            self.faultless() && self.spec_root_reachable() && !(self.spec_lookup(
                file_name.spec_bytes(),
            ) is Unreadable) ==> !(r matches Err(FatError::FailedDeviceAccess(_))),
            r matches Ok(f) ==> self.spec_lookup(file_name.spec_bytes()) matches Lookup::Found(p)
                && Data::RegularFile(f).describes(self.disk(), p) && f.disk() == self.disk()
                && f.faultless() == self.faultless() && f.entry.base.bpb == self.volume(),
            r matches Err(FatError::InvalidDirEntryType) ==> self.spec_lookup(
                file_name.spec_bytes(),
            ) matches Lookup::Found(p) && entry_attribute(self.disk(), p) == Some(Attribute::Dir),
            r matches Err(FatError::NotfoundFile(n)) ==> self.spec_lookup(file_name.spec_bytes())
                == Lookup::Missing && n@ == file_name@,
            r matches Err(FatError::InvalidAttribute(b)) ==> self.spec_lookup(
                file_name.spec_bytes(),
            ) == Lookup::BadAttribute(b),
            r matches Err(e) ==> e is FailedDeviceAccess || e is InvalidAttribute || e is NotfoundFile
                || e is InvalidDirEntryType,
    {
        self.open(file_name)?.into_regular_file()
    }

    /// The file or directory named `file_name`, searched for depth first from the
    /// root directory; `NotfoundFile` when no entry within reach has the name.
    pub fn open(&self, file_name: &str) -> (r: FatResult<Data<'_, D>>)
        ensures
            self.faultless() && self.spec_root_reachable() && !(self.spec_lookup(
                file_name.spec_bytes(),
            ) is Unreadable) ==> !(r matches Err(FatError::FailedDeviceAccess(_))),
            r matches Ok(x) ==> self.spec_lookup(file_name.spec_bytes()) matches Lookup::Found(p)
                && x.describes(self.disk(), p) && x.spec_entry().disk() == self.disk()
                && x.spec_entry().faultless() == self.faultless() && x.spec_entry().base.bpb
                == self.volume(),
            r matches Err(FatError::NotfoundFile(n)) ==> self.spec_lookup(file_name.spec_bytes())
                == Lookup::Missing && n@ == file_name@,
            r matches Err(FatError::InvalidAttribute(b)) ==> self.spec_lookup(
                file_name.spec_bytes(),
            ) == Lookup::BadAttribute(b),
            r matches Err(e) ==> e is FailedDeviceAccess || e is InvalidAttribute || e is NotfoundFile,
    {
        let mut root = self.bpb.root_dir()?;
        match root.find(file_name)? {
            Some(x) => Ok(x),
            None => Err(FatError::NotfoundFile(file_name.to_owned())),
        }
    }
}

} // verus!
