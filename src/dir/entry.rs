use vstd::prelude::*;

use crate::error::{FatError, FatResult};

pub mod base;
pub mod short;

use crate::device::FatDeviceAccessible;
use crate::dir::entry::short::ShortDirEntry;

verus! {

/// The attribute byte of a directory entry, at offset 11 of its slot.
#[derive(Debug, Clone, Copy, PartialEq, Eq, Structural)]
pub enum Attribute {
    Readonly,
    Hidden,
    System,
    VolumeLabel,
    Dir,
    Archive,
    /// A slot that holds part of a long name, not an entry of its own.
    LongName,
}

/// The attribute that byte `b` stands for; `None` for a byte of no known meaning.
///
/// `0x0F` sets the read-only, hidden, system and volume-label bits at once; it is
/// taken as a long-name slot before any single bit is looked at.
pub open spec fn attribute_of(b: u8) -> Option<Attribute> {
    if b == 0x0f {
        Some(Attribute::LongName)
    } else if b == 0x01 {
        Some(Attribute::Readonly)
    } else if b == 0x02 {
        Some(Attribute::Hidden)
    } else if b == 0x04 {
        Some(Attribute::System)
    } else if b == 0x08 {
        Some(Attribute::VolumeLabel)
    } else if b == 0x10 {
        Some(Attribute::Dir)
    } else if b == 0x20 {
        Some(Attribute::Archive)
    } else {
        None
    }
}

impl Attribute {
    /// The attribute of byte `b`, or `InvalidAttribute(b)` for a byte of no known meaning.
    pub fn from_byte(b: u8) -> (r: FatResult<Attribute>)
        ensures
            attribute_of(b) matches Some(a) ==> r == Ok::<Attribute, FatError>(a),
            attribute_of(b) is None ==> r == Err::<Attribute, FatError>(FatError::InvalidAttribute(b)),
    {
        match b {
            0x0f => Ok(Attribute::LongName),
            0x01 => Ok(Attribute::Readonly),
            0x02 => Ok(Attribute::Hidden),
            0x04 => Ok(Attribute::System),
            0x08 => Ok(Attribute::VolumeLabel),
            0x10 => Ok(Attribute::Dir),
            0x20 => Ok(Attribute::Archive),
            _ => Err(FatError::InvalidAttribute(b)),
        }
    }
}

/// What the first byte of a slot says of the slot, where it says anything.
#[derive(Debug, Clone, Copy, PartialEq, Eq, Structural)]
pub enum EntryStatus {
    /// `0x00`: no entry follows in this directory.
    End,
    /// `0xE5`: the slot is free; skip it.
    Deleted,
    /// `0x05`: a live entry whose name starts with the byte `0xE5`.
    JapaneseName,
}

/// The status that first byte `b` stands for; `None` for an ordinary live entry.
pub open spec fn status_of(b: u8) -> Option<EntryStatus> {
    if b == 0x00 {
        Some(EntryStatus::End)
    } else if b == 0xe5 {
        Some(EntryStatus::Deleted)
    } else if b == 0x05 {
        Some(EntryStatus::JapaneseName)
    } else {
        None
    }
}

impl EntryStatus {
    /// The status of first byte `b`.
    pub fn from_byte(b: u8) -> (r: Option<EntryStatus>)
        ensures
            r == status_of(b),
    {
        match b {
            0x00 => Some(EntryStatus::End),
            0xe5 => Some(EntryStatus::Deleted),
            0x05 => Some(EntryStatus::JapaneseName),
            _ => None,
        }
    }
}

/// An entry that is not a long-name slot.
pub enum DirEntry<'a, D> {
    Short(ShortDirEntry<'a, D>),
}

impl<'a, D: FatDeviceAccessible> DirEntry<'a, D> {
    /// Wraps a short entry.
    pub fn short(short: ShortDirEntry<'a, D>) -> (r: DirEntry<'a, D>)
        ensures
            r == DirEntry::Short(short),
    {
        DirEntry::Short(short)
    }

    /// The short entry inside.
    pub fn into_short(self) -> (r: FatResult<ShortDirEntry<'a, D>>)
        ensures
            self matches DirEntry::Short(s) ==> r == Ok::<ShortDirEntry<'a, D>, FatError>(s),
    {
        match self {
            DirEntry::Short(short) => Ok(short),
        }
    }
}

} // verus!
