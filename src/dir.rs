use vstd::prelude::*;

pub mod buffer;
pub mod data;
pub mod entry;

pub use entry::{Attribute, EntryStatus};

use crate::bpb::common::copy_range;
use crate::bpb::bpb_of;
use crate::device::{le_u16_at, le_u32_at};
use crate::dir::entry::attribute_of;
use crate::error::{FatError, FatResult};

verus! {

/// The size of one directory slot, in bytes.
pub const DIR_ENTRY_LEN: usize = 32;

/// The byte that pads short names.
pub const NAME_PAD: u8 = 0x20;

/// `s` without its trailing padding spaces.
pub open spec fn trim_trailing_spaces(s: Seq<u8>) -> Seq<u8>
    decreases s.len(),
{
    if s.len() > 0 && s.last() == NAME_PAD {
        trim_trailing_spaces(s.drop_last())
    } else {
        s
    }
}

/// The display name of the 11-byte 8.3 name field `raw`: the primary part without
/// its padding and, where the extension without its padding is not empty, a dot
/// and the extension.
pub open spec fn short_name_of(raw: Seq<u8>) -> Seq<u8> {
    let primary = trim_trailing_spaces(raw.subrange(0, 8));
    let extension = trim_trailing_spaces(raw.subrange(8, 11));
    if extension.len() == 0 {
        primary
    } else {
        primary + seq![0x2eu8] + extension
    }
}

/// The end of `raw[from..to]` once its trailing spaces are dropped.
fn trimmed_end(raw: &[u8], from: usize, to: usize) -> (n: usize)
    requires
        from <= to <= raw@.len(),
    ensures
        from <= n <= to,
        trim_trailing_spaces(raw@.subrange(from as int, to as int)) == raw@.subrange(
            from as int,
            n as int,
        ),
{
    let mut n: usize = to;
    while n > from && raw[n - 1] == NAME_PAD
        invariant
            from <= n <= to <= raw@.len(),
            trim_trailing_spaces(raw@.subrange(from as int, to as int)) == trim_trailing_spaces(
                raw@.subrange(from as int, n as int),
            ),
        decreases n,
    {
        assert(raw@.subrange(from as int, n as int).drop_last() =~= raw@.subrange(
            from as int,
            n - 1,
        ));
        n = n - 1;
    }
    n
}

/// The display name of the 8.3 name field at the start of `raw`.
pub fn decode_short_name(raw: &[u8]) -> (r: Vec<u8>)
    requires
        raw@.len() >= 11,
    ensures
        r@ == short_name_of(raw@.subrange(0, 11)),
{
    let primary_end = trimmed_end(raw, 0, 8);
    let extension_end = trimmed_end(raw, 8, 11);
    proof {
        assert(raw@.subrange(0, 11).subrange(0, 8) =~= raw@.subrange(0, 8));
        assert(raw@.subrange(0, 11).subrange(8, 11) =~= raw@.subrange(8, 11));
    }
    let mut name = copy_range(raw, 0, primary_end);
    if extension_end > 8 {
        let extension = copy_range(raw, 8, extension_end);
        name.push(0x2eu8);
        let mut i: usize = 0;
        let ghost with_dot = name@;
        while i < extension.len()
            invariant
                i <= extension@.len(),
                name@ == with_dot + extension@.subrange(0, i as int),
            decreases extension@.len() - i,
        {
            name.push(extension[i]);
            i = i + 1;
            assert(name@ =~= with_dot + extension@.subrange(0, i as int));
        }
        assert(extension@.subrange(0, extension@.len() as int) =~= extension@);
    }
    name
}

/// A directory entry decoded from a slot held in memory.
pub trait DirEntryReadable {
    /// The bytes of the slot, from its start.
    spec fn record(&self) -> Seq<u8>;

    /// The 11 bytes of the name field.
    fn name_buff(&self) -> (r: Vec<u8>)
        requires
            self.record().len() >= DIR_ENTRY_LEN,
        ensures
            r@ == self.record().subrange(0, 11),
    ;

    /// The attribute byte, at offset 11.
    fn attribute_raw(&self) -> (r: u8)
        requires
            self.record().len() >= DIR_ENTRY_LEN,
        ensures
            r == self.record()[11],
    ;

    /// The high half of the first cluster number, at offset 20.
    fn first_cluster_no_hi(&self) -> (r: u16)
        requires
            self.record().len() >= DIR_ENTRY_LEN,
        ensures
            r == le_u16_at(self.record(), 20),
    ;

    /// The low half of the first cluster number, at offset 26.
    fn first_cluster_no_lo(&self) -> (r: u16)
        requires
            self.record().len() >= DIR_ENTRY_LEN,
        ensures
            r == le_u16_at(self.record(), 26),
    ;

    /// The file size, at offset 28.
    fn file_size(&self) -> (r: u32)
        requires
            self.record().len() >= DIR_ENTRY_LEN,
        ensures
            r == entry_file_size(self.record(), 0),
    ;

    /// The display name of the entry.
    fn name(&self) -> (r: Vec<u8>)
        requires
            self.record().len() >= DIR_ENTRY_LEN,
        ensures
            r@ == entry_name(self.record(), 0),
    {
        let raw = self.name_buff();
        assert(raw@.subrange(0, 11) =~= raw@);
        decode_short_name(raw.as_slice())
    }

    /// The first cluster number: the high half shifted over the low half.
    fn first_cluster_no(&self) -> (r: usize)
        requires
            self.record().len() >= DIR_ENTRY_LEN,
        ensures
            r == entry_first_cluster(self.record(), 0),
    {
        let hi = self.first_cluster_no_hi();
        let lo = self.first_cluster_no_lo();
        let v = (hi as u32) << 16u32 | lo as u32;
        assert(v == hi * 0x1_0000 + lo) by (bit_vector)
            requires
                v == (hi as u32) << 16u32 | lo as u32,
        ;
        v as usize
    }

    /// The attribute of the entry; `InvalidAttribute` for a byte of no known meaning.
    fn attribute(&self) -> (r: FatResult<Attribute>)
        requires
            self.record().len() >= DIR_ENTRY_LEN,
        ensures
            attribute_of(self.record()[11]) matches Some(a) ==> r == Ok::<Attribute, FatError>(a),
            attribute_of(self.record()[11]) is None ==> r == Err::<Attribute, FatError>(
                FatError::InvalidAttribute(self.record()[11]),
            ),
    {
        Attribute::from_byte(self.attribute_raw())
    }
}

/// Whether the slot at `p` lies wholly within the device bytes `d`.
pub open spec fn slot_readable(d: Seq<u8>, p: int) -> bool {
    0 <= p && p + DIR_ENTRY_LEN <= d.len()
}

/// Whether a walk passes over the slot at `p`: a deleted slot, or a long-name slot.
pub open spec fn slot_skipped(d: Seq<u8>, p: int) -> bool {
    slot_readable(d, p) && (d[p] == 0xe5 || (d[p] != 0x00 && attribute_of(d[p + 11])
        == Some(Attribute::LongName)))
}

/// The slot where a walk that starts at slot offset `off` stops: the first one that is
/// not skipped. There the directory ends, the slot cannot be read, its attribute is
/// unknown, or it holds an entry.
pub open spec fn stop_slot(d: Seq<u8>, off: int) -> int
    decreases d.len() - off,
{
    if slot_skipped(d, off) {
        stop_slot(d, off + DIR_ENTRY_LEN)
    } else {
        off
    }
}

/// Whether the readable slot at `p` marks the end of its directory.
pub open spec fn slot_is_end(d: Seq<u8>, p: int) -> bool {
    slot_readable(d, p) && d[p] == 0x00
}

/// Whether the readable slot at `p` is live but has an attribute byte of no known meaning.
pub open spec fn slot_is_invalid(d: Seq<u8>, p: int) -> bool {
    slot_readable(d, p) && d[p] != 0x00 && d[p] != 0xe5 && attribute_of(d[p + 11]) is None
}

/// Whether the slot at `p` holds an entry that a walk hands out.
pub open spec fn slot_is_entry(d: Seq<u8>, p: int) -> bool {
    slot_readable(d, p) && d[p] != 0x00 && d[p] != 0xe5 && attribute_of(d[p + 11]) is Some
        && attribute_of(d[p + 11]) != Some(Attribute::LongName)
}

/// The attribute of the entry at `p`.
pub open spec fn entry_attribute(d: Seq<u8>, p: int) -> Option<Attribute> {
    attribute_of(d[p + 11])
}

/// The display name of the entry at `p`.
pub open spec fn entry_name(d: Seq<u8>, p: int) -> Seq<u8> {
    short_name_of(d.subrange(p, p + 11))
}

/// The first cluster of the entry at `p`: high half at 20, low half at 26.
pub open spec fn entry_first_cluster(d: Seq<u8>, p: int) -> int {
    le_u16_at(d, p + 20) * 0x1_0000 + le_u16_at(d, p + 26)
}

/// The file size of the entry at `p`, at 28.
pub open spec fn entry_file_size(d: Seq<u8>, p: int) -> int {
    le_u32_at(d, p + 28)
}

/// The cluster where the data of the entry at `p` starts. Clusters 0 and 1 are
/// reserved: an entry that holds one (the `..` entry of a child of the root, an
/// empty file) is taken to start at cluster 2, where the data region and the root
/// directory begin.
pub open spec fn entry_start_cluster(d: Seq<u8>, p: int) -> int {
    if entry_first_cluster(d, p) < 2 {
        2
    } else {
        entry_first_cluster(d, p)
    }
}

/// The byte offset where the data of the entry at `p` starts: the file's bytes, or
/// the directory's entry table.
pub open spec fn entry_data_offset(d: Seq<u8>, p: int) -> int {
    bpb_of(d).spec_cluster_offset(entry_start_cluster(d, p))
}

/// Whether the start of the data of the entry at `p` can be worked out: the
/// geometry fields lie on the device and the offset fits a `usize`.
pub open spec fn table_reachable(d: Seq<u8>, p: int) -> bool {
    d.len() >= 40 && entry_data_offset(d, p) <= usize::MAX
}

/// A long-name slot (attribute byte `0x0F`) that does not mark the end of its
/// directory is passed over by every walk that reaches it, whatever its other bytes:
/// a walk from it stops where a walk from the next slot stops, so both hand out the
/// same result and leave the cursor in the same place.
pub proof fn lemma_long_name_slot_skipped(d: Seq<u8>, p: int)
    requires
        slot_readable(d, p),
        d[p] != 0x00,
        d[p + 11] == 0x0f,
    ensures
        attribute_of(d[p + 11]) == Some(Attribute::LongName),
        slot_skipped(d, p),
        stop_slot(d, p) == stop_slot(d, p + DIR_ENTRY_LEN),
        !slot_is_entry(d, p),
{
}

/// A deleted slot (first byte `0xE5`) is passed over, a walk from it ending as one
/// from the next slot does; a slot whose first byte is `0x00` ends the walk there.
pub proof fn lemma_status_rules(d: Seq<u8>, p: int)
    requires
        slot_readable(d, p),
    ensures
        d[p] == 0xe5 ==> slot_skipped(d, p) && stop_slot(d, p) == stop_slot(d, p + DIR_ENTRY_LEN),
        d[p] == 0x00 ==> stop_slot(d, p) == p && slot_is_end(d, p),
{
}

/// A walk never stops before where it starts, and stops within reach of a read.
pub proof fn lemma_stop_slot_bounds(d: Seq<u8>, off: int)
    ensures
        stop_slot(d, off) >= off,
        !slot_skipped(d, stop_slot(d, off)),
    decreases d.len() - off,
{
    if slot_skipped(d, off) {
        lemma_stop_slot_bounds(d, off + DIR_ENTRY_LEN);
    }
}

} // verus!
