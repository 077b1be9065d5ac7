use vstd::prelude::*;

pub mod dir;
pub mod file;

use crate::device::FatDeviceAccessible;
use crate::dir::data::dir::DirEntries;
use crate::dir::data::file::RegularFile;
use crate::dir::entry::short::ShortDirEntry;
use crate::dir::entry::{attribute_of, Attribute};
use crate::device::le_u16_at;
use crate::dir::{
    entry_attribute, entry_data_offset, entry_file_size, entry_name, table_reachable, lemma_stop_slot_bounds, slot_is_end,
    slot_is_entry, slot_is_invalid, slot_readable, stop_slot, DIR_ENTRY_LEN,
};
use crate::error::{FatError, FatResult};
use vstd::string::StringSliceAdditionalSpecFns;

verus! {

/// A file or a directory, as a walk hands it out.
#[derive(Clone)]
pub enum Data<'a, D> {
    RegularFile(RegularFile<'a, D>),
    Dir(DirEntries<'a, D>),
}

impl<'a, D: FatDeviceAccessible> Data<'a, D> {
    /// The entry that describes this file or directory.
    pub open spec fn spec_entry(self) -> ShortDirEntry<'a, D> {
        match self {
            Data::RegularFile(f) => f.entry,
            Data::Dir(dir) => dir.entry,
        }
    }

    /// Whether this is what the entry at slot `p` of the volume bytes `d` describes:
    /// a directory, with its cursor at the start of its table, for the directory
    /// attribute, and a file for every other attribute but the long-name one.
    pub open spec fn describes(self, d: Seq<u8>, p: int) -> bool {
        &&& self.spec_entry().slot() == p
        &&& match self {
            Data::Dir(dir) => entry_attribute(d, p) == Some(Attribute::Dir) && table_reachable(d, p)
                && dir.base_offset == entry_data_offset(d, p) && dir.offset == dir.base_offset,
            Data::RegularFile(_) => entry_attribute(d, p) is Some && entry_attribute(d, p) != Some(
                Attribute::Dir,
            ) && entry_attribute(d, p) != Some(Attribute::LongName),
        }
    }

    /// The directory, or `InvalidDirEntryType` for a file.
    pub fn into_dir(self) -> (r: FatResult<DirEntries<'a, D>>)
        ensures
            self matches Data::Dir(dir) ==> r == Ok::<DirEntries<'a, D>, FatError>(dir),
            self is RegularFile ==> r == Err::<DirEntries<'a, D>, FatError>(
                FatError::InvalidDirEntryType,
            ),
    {
        match self {
            Data::Dir(dir) => Ok(dir),
            Data::RegularFile(_) => Err(FatError::InvalidDirEntryType),
        }
    }

    /// The file, or `InvalidDirEntryType` for a directory.
    pub fn into_regular_file(self) -> (r: FatResult<RegularFile<'a, D>>)
        ensures
            self matches Data::RegularFile(f) ==> r == Ok::<RegularFile<'a, D>, FatError>(f),
            self is Dir ==> r == Err::<RegularFile<'a, D>, FatError>(FatError::InvalidDirEntryType),
    {
        match self {
            Data::RegularFile(file) => Ok(file),
            Data::Dir(_) => Err(FatError::InvalidDirEntryType),
        }
    }

    /// Whether this is a file rather than a directory.
    pub fn is_regular_file(&self) -> (r: bool)
        ensures
            r == self is RegularFile,
    {
        match self {
            Data::RegularFile(_) => true,
            Data::Dir(_) => false,
        }
    }

    /// The 11 bytes of the entry's name field.
    pub fn name_buff(&self) -> (r: FatResult<Vec<u8>>)
        ensures
            self.spec_entry().faultless() && self.spec_entry().slot() + 11 <= self.spec_entry().disk().len() ==> r is Ok,
            r matches Ok(v) ==> v@ == self.spec_entry().disk().subrange(
                self.spec_entry().slot(),
                self.spec_entry().slot() + 11,
            ),
            r matches Err(e) ==> e is FailedDeviceAccess,
    {
        match self {
            Data::RegularFile(file) => file.entry.name_buff(),
            Data::Dir(dir) => dir.entry.name_buff(),
        }
    }

    /// The high half of the entry's first cluster number.
    pub fn first_cluster_no_hi(&self) -> (r: FatResult<u16>)
        ensures
            self.spec_entry().faultless() && self.spec_entry().slot() + 22 <= self.spec_entry().disk().len() ==> r is Ok,
            r matches Ok(v) ==> v == le_u16_at(self.spec_entry().disk(), self.spec_entry().slot() + 20),
            r matches Err(e) ==> e is FailedDeviceAccess,
    {
        match self {
            Data::RegularFile(file) => file.entry.first_cluster_no_hi(),
            Data::Dir(dir) => dir.entry.first_cluster_no_hi(),
        }
    }

    /// The low half of the entry's first cluster number.
    pub fn first_cluster_no_lo(&self) -> (r: FatResult<u16>)
        ensures
            self.spec_entry().faultless() && self.spec_entry().slot() + 28 <= self.spec_entry().disk().len() ==> r is Ok,
            r matches Ok(v) ==> v == le_u16_at(self.spec_entry().disk(), self.spec_entry().slot() + 26),
            r matches Err(e) ==> e is FailedDeviceAccess,
    {
        match self {
            Data::RegularFile(file) => file.entry.first_cluster_no_lo(),
            Data::Dir(dir) => dir.entry.first_cluster_no_lo(),
        }
    }

    /// The file size the entry states; zero for a directory.
    pub fn file_size(&self) -> (r: FatResult<u32>)
        ensures
            self.spec_entry().faultless() && self.spec_entry().slot() + 32 <= self.spec_entry().disk().len() ==> r is Ok,
            r matches Ok(v) ==> v == entry_file_size(self.spec_entry().disk(), self.spec_entry().slot()),
            r matches Err(e) ==> e is FailedDeviceAccess,
    {
        match self {
            Data::RegularFile(file) => file.entry.file_size(),
            Data::Dir(dir) => dir.entry.file_size(),
        }
    }

    /// The display name of the entry.
    pub fn name(&self) -> (r: FatResult<Vec<u8>>)
        ensures
            self.spec_entry().faultless() && self.spec_entry().slot() + 11 <= self.spec_entry().disk().len() ==> r is Ok,
            r matches Ok(v) ==> self.spec_entry().slot() + 11 <= self.spec_entry().disk().len()
                && v@ == entry_name(self.spec_entry().disk(), self.spec_entry().slot()),
            r matches Err(e) ==> e is FailedDeviceAccess,
    {
        match self {
            Data::RegularFile(file) => file.entry.name(),
            Data::Dir(dir) => dir.entry.name(),
        }
    }
}

/// How far directories are descended below the one a search starts in.
pub const MAX_DIR_DEPTH: usize = 128;

/// What a search of a directory tree comes to.
pub ghost enum Lookup {
    /// The entry in the slot at this offset has the name.
    Found(int),
    /// No entry within reach has the name.
    Missing,
    /// The walk met a slot with this attribute byte of no known meaning.
    BadAttribute(u8),
    /// The walk met a slot beyond the end of the device, or a directory whose
    /// table cannot be placed on it.
    Unreadable,
}

/// Whether the table offset `t` is on `path`, the tables of the directories a
/// search is inside.
pub open spec fn on_path(path: Seq<usize>, t: int) -> bool {
    exists|i: int| 0 <= i < path.len() && path[i] == t
}

/// A search for `name` among the entries of the volume bytes `d` from slot offset
/// `off` on: each entry in turn, and below a directory that does not match, the
/// directory's own entries before the next sibling. `path` holds the tables the
/// search is inside; a directory whose table is among them is not entered again,
/// and none is entered once `depth` levels have been gone down.
pub open spec fn lookup(d: Seq<u8>, off: int, name: Seq<u8>, path: Seq<usize>, depth: nat) -> Lookup
    decreases depth, d.len() - off,
    via lookup_decreases
{
    let p = stop_slot(d, off);
    if !slot_readable(d, p) {
        Lookup::Unreadable
    } else if d[p] == 0x00 {
        Lookup::Missing
    } else if attribute_of(d[p + 11]) is None {
        Lookup::BadAttribute(d[p + 11])
    } else if entry_attribute(d, p) == Some(Attribute::Dir) && !table_reachable(d, p) {
        Lookup::Unreadable
    } else if entry_name(d, p) == name {
        Lookup::Found(p)
    } else if entry_attribute(d, p) == Some(Attribute::Dir) && depth > 0 && !on_path(
        path,
        entry_data_offset(d, p),
    ) {
        let child = entry_data_offset(d, p);
        match lookup(d, child, name, path.push(child as usize), (depth - 1) as nat) {
            Lookup::Missing => lookup(d, p + DIR_ENTRY_LEN, name, path, depth),
            other => other,
        }
    } else {
        lookup(d, p + DIR_ENTRY_LEN, name, path, depth)
    }
}

/// A search never finds a name that no entry on the volume has: it ends as
/// `Missing`, or at a slot it cannot read or decode.
pub proof fn lemma_lookup_absent(d: Seq<u8>, off: int, name: Seq<u8>, path: Seq<usize>, depth: nat)
    requires
        forall|q: int| #[trigger] slot_is_entry(d, q) ==> entry_name(d, q) != name,
    ensures
        !(lookup(d, off, name, path, depth) is Found),
    decreases depth, d.len() - off,
{
    lemma_stop_slot_bounds(d, off);
    let p = stop_slot(d, off);
    if slot_readable(d, p) && d[p] != 0x00 && attribute_of(d[p + 11]) is Some {
        assert(slot_is_entry(d, p));
        let child = entry_data_offset(d, p);
        if entry_attribute(d, p) == Some(Attribute::Dir) && depth > 0 && !on_path(path, child) {
            lemma_lookup_absent(d, child, name, path.push(child as usize), (depth - 1) as nat);
        }
        lemma_lookup_absent(d, p + DIR_ENTRY_LEN, name, path, depth);
    }
}

/// What a search finds is an entry with the name, in a directory the search
/// reached: the start directory or one below it.
pub proof fn lemma_lookup_found_has_name(
    d: Seq<u8>,
    off: int,
    name: Seq<u8>,
    path: Seq<usize>,
    depth: nat,
)
    ensures
        lookup(d, off, name, path, depth) matches Lookup::Found(p) ==> slot_is_entry(d, p)
            && entry_name(d, p) == name,
    decreases depth, d.len() - off,
{
    lemma_stop_slot_bounds(d, off);
    let p = stop_slot(d, off);
    if slot_readable(d, p) && d[p] != 0x00 && attribute_of(d[p + 11]) is Some {
        assert(slot_is_entry(d, p));
        let child = entry_data_offset(d, p);
        if entry_attribute(d, p) == Some(Attribute::Dir) && depth > 0 && !on_path(path, child) {
            lemma_lookup_found_has_name(
                d,
                child,
                name,
                path.push(child as usize),
                (depth - 1) as nat,
            );
        }
        lemma_lookup_found_has_name(d, p + DIR_ENTRY_LEN, name, path, depth);
    }
}

/// Whether `a` and `b` hold the same bytes.
pub fn bytes_equal(a: &[u8], b: &[u8]) -> (r: bool)
    ensures
        r == (a@ == b@),
{
    if a.len() != b.len() {
        return false;
    }
    let mut i: usize = 0;
    while i < a.len()
        invariant
            i <= a@.len() == b@.len(),
            a@.subrange(0, i as int) == b@.subrange(0, i as int),
        decreases a@.len() - i,
    {
        if a[i] != b[i] {
            assert(a@[i as int] != b@[i as int]);
            return false;
        }
        assert(a@.subrange(0, i + 1) =~= a@.subrange(0, i as int).push(a@[i as int]));
        assert(b@.subrange(0, i + 1) =~= b@.subrange(0, i as int).push(b@[i as int]));
        i = i + 1;
    }
    assert(a@ =~= a@.subrange(0, i as int));
    assert(b@ =~= b@.subrange(0, i as int));
    true
}

/// Whether `t` is among the offsets of `path`.
fn contains_offset(path: &Vec<usize>, t: usize) -> (r: bool)
    ensures
        r == on_path(path@, t as int),
{
    let mut i: usize = 0;
    while i < path.len()
        invariant
            i <= path@.len(),
            forall|j: int| 0 <= j < i ==> path@[j] != t,
        decreases path@.len() - i,
    {
        if path[i] == t {
            return true;
        }
        i = i + 1;
    }
    false
}

#[via_fn]
proof fn lookup_decreases(d: Seq<u8>, off: int, name: Seq<u8>, path: Seq<usize>, depth: nat) {
    lemma_stop_slot_bounds(d, off);
}

/// A walk over the files and directories of one directory.
#[derive(Clone)]
pub struct DataEntries<'a, D> {
    pub dir_entries: DirEntries<'a, D>,
}

impl<'a, D: FatDeviceAccessible> DataEntries<'a, D> {
    /// A walk that starts at the cursor of `dir_entries`.
    pub fn new(dir_entries: DirEntries<'a, D>) -> (r: DataEntries<'a, D>)
        ensures
            r.dir_entries == dir_entries,
    {
        DataEntries { dir_entries }
    }

    /// The bytes of the volume the walk is on.
    pub open spec fn disk(&self) -> Seq<u8> {
        self.dir_entries.disk()
    }

    /// The next file or directory. Deleted and long-name slots are passed over; at
    /// the end marker the walk is over (`Ok(None)`) and the cursor rests on it. A slot whose attribute byte has
    /// no known meaning is refused with `InvalidAttribute` and passed.
    pub fn next(&mut self) -> (r: FatResult<Option<Data<'a, D>>>)
        ensures
            final(self).dir_entries.entry == old(self).dir_entries.entry,
            final(self).dir_entries.base_offset == old(self).dir_entries.base_offset,
            ({
                let d = old(self).disk();
                let p = stop_slot(d, old(self).dir_entries.offset as int);
                &&& r matches Ok(None) ==> slot_is_end(d, p) && final(self).dir_entries.offset == p
                &&& r matches Ok(Some(x)) ==> slot_is_entry(d, p) && x.spec_entry().base.bpb == old(
                    self,
                ).dir_entries.volume() && x.describes(d, p) && final(self).dir_entries.offset == p
                    + DIR_ENTRY_LEN
                &&& r matches Err(FatError::InvalidAttribute(b)) ==> slot_is_invalid(d, p) && b
                    == d[p + 11] && final(self).dir_entries.offset == p + DIR_ENTRY_LEN
                &&& r matches Err(e) ==> e is FailedDeviceAccess || e is InvalidAttribute
                &&& old(self).dir_entries.volume().faultless() && slot_readable(d, p) && (slot_is_entry(
                    d,
                    p,
                ) && entry_attribute(d, p) == Some(Attribute::Dir) ==> table_reachable(d, p)) ==> !(r matches Err(
                    FatError::FailedDeviceAccess(_),
                ))
            }),
    {
        let base = match self.dir_entries.find_next()? {
            None => {
                return Ok(None);
            },
            Some(base) => base,
        };
        let short = base.into_detail()?.into_short()?;
        let data = short.data()?;
        Ok(Some(data))
    }

    /// Searches the rest of this directory, depth first, for an entry named
    /// `file_name`: each entry in turn, and below a directory that does not match,
    /// the directory's own entries before the next sibling. The first match wins;
    /// `Ok(None)` when there is none. A directory the search is already inside is
    /// not entered again, and none deeper than `MAX_DIR_DEPTH` levels.
    pub fn find(&mut self, file_name: &str) -> (r: FatResult<Option<Data<'a, D>>>)
        ensures
            final(self).dir_entries.entry == old(self).dir_entries.entry,
            final(self).dir_entries.base_offset == old(self).dir_entries.base_offset,
            ({
                let res = lookup(
                    old(self).disk(),
                    old(self).dir_entries.offset as int,
                    file_name.spec_bytes(),
                    seq![old(self).dir_entries.base_offset],
                    MAX_DIR_DEPTH as nat,
                );
                &&& r matches Ok(None) ==> res == Lookup::Missing
                &&& r matches Ok(Some(x)) ==> res matches Lookup::Found(p) && x.describes(
                    old(self).disk(),
                    p,
                ) && x.spec_entry().base.bpb == old(self).dir_entries.volume()
                &&& r matches Err(FatError::InvalidAttribute(b)) ==> res == Lookup::BadAttribute(b)
                &&& r matches Err(e) ==> e is FailedDeviceAccess || e is InvalidAttribute
                &&& old(self).dir_entries.volume().faultless() && !(res is Unreadable) ==> !(r matches Err(
                    FatError::FailedDeviceAccess(_),
                ))
            }),
    {
        let name = file_name.as_bytes();
        let mut path: Vec<usize> = Vec::new();
        path.push(self.dir_entries.base_offset);
        assert(path@ =~= seq![old(self).dir_entries.base_offset]);
        self.find_from(name, &mut path, MAX_DIR_DEPTH)
    }

    /// The search of `find`, inside the directories whose tables `path` holds, with
    /// `depth` levels left to go down.
    fn find_from(&mut self, name: &[u8], path: &mut Vec<usize>, depth: usize) -> (r: FatResult<
        Option<Data<'a, D>>,
    >)
        ensures
            final(path)@ == old(path)@,
            final(self).dir_entries.entry == old(self).dir_entries.entry,
            final(self).dir_entries.base_offset == old(self).dir_entries.base_offset,
            ({
                let res = lookup(
                    old(self).disk(),
                    old(self).dir_entries.offset as int,
                    name@,
                    old(path)@,
                    depth as nat,
                );
                &&& r matches Ok(None) ==> res == Lookup::Missing
                &&& r matches Ok(Some(x)) ==> res matches Lookup::Found(p) && x.describes(
                    old(self).disk(),
                    p,
                ) && x.spec_entry().base.bpb == old(self).dir_entries.volume()
                &&& r matches Err(FatError::InvalidAttribute(b)) ==> res == Lookup::BadAttribute(b)
                &&& r matches Err(e) ==> e is FailedDeviceAccess || e is InvalidAttribute
                &&& old(self).dir_entries.volume().faultless() && !(res is Unreadable) ==> !(r matches Err(
                    FatError::FailedDeviceAccess(_),
                ))
            }),
        decreases depth,
    {
        let ghost d = self.disk();
        let ghost goal = lookup(d, self.dir_entries.offset as int, name@, path@, depth as nat);
        loop
            invariant
                self.dir_entries.entry == old(self).dir_entries.entry,
                self.dir_entries.base_offset == old(self).dir_entries.base_offset,
                d == old(self).disk(),
                path@ == old(path)@,
                goal == lookup(d, old(self).dir_entries.offset as int, name@, old(path)@, depth as nat),
                lookup(d, self.dir_entries.offset as int, name@, path@, depth as nat) == goal,
            decreases d.len() - self.dir_entries.offset,
        {
            let ghost off = self.dir_entries.offset as int;
            proof {
                lemma_stop_slot_bounds(d, off);
            }
            let data = match self.next()? {
                None => {
                    return Ok(None);
                },
                Some(x) => x,
            };
            let ghost p = stop_slot(d, off);
            let entry_name = data.name()?;
            if bytes_equal(entry_name.as_slice(), name) {
                return Ok(Some(data));
            }
            match data {
                Data::Dir(dir) => {
                    let table = dir.base_offset;
                    if depth > 0 && !contains_offset(path, table) {
                        path.push(table);
                        let mut child = dir.into_data_entries();
                        let found = child.find_from(name, path, depth - 1);
                        path.pop();
                        assert(path@ =~= old(path)@);
                        match found? {
                            Some(x) => {
                                return Ok(Some(x));
                            },
                            None => {},
                        }
                    }
                },
                Data::RegularFile(_) => {},
            }
        }
    }
}

} // verus!
