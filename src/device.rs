use vstd::prelude::*;

use crate::error::{FatDeviceError, FatError, FatResult};

verus! {

/// The little-endian value of the two bytes of `s` from `i` on.
pub open spec fn le_u16_at(s: Seq<u8>, i: int) -> int {
    s[i] + s[i + 1] * 0x100
}

/// The little-endian value of the four bytes of `s` from `i` on.
pub open spec fn le_u32_at(s: Seq<u8>, i: int) -> int {
    s[i] + s[i + 1] * 0x100 + s[i + 2] * 0x1_0000 + s[i + 3] * 0x100_0000
}

/// Byte-addressable storage that holds a FAT volume.
///
/// Implementors promise that a successful `read` hands out the bytes that
/// `content` holds, and that a successful `write` puts the given bytes there.
/// A device may fail any call; the failure is passed on, never retried.
pub trait FatDeviceAccessible {
    /// The bytes of the device, from offset zero.
    spec fn content(&self) -> Seq<u8>;

    /// Whether every read of bytes the device holds succeeds. A memory image is
    /// such a device; a disk need not be.
    spec fn faultless(&self) -> bool;

    /// A device is addressed by `usize` offsets, so it holds at most `usize::MAX` bytes.
    proof fn lemma_content_addressable(&self)
        ensures
            self.content().len() <= usize::MAX,
    ;

    /// Fills `buff[0..bytes]` from device offset `offset` on.
    fn read(&self, buff: &mut [u8], offset: usize, bytes: usize) -> (r: Result<(), FatDeviceError>)
        requires
            bytes <= old(buff)@.len(),
        ensures
            final(buff)@.len() == old(buff)@.len(),
            self.faultless() && offset + bytes <= self.content().len() ==> r is Ok,
            r is Ok ==> offset + bytes <= self.content().len() && final(buff)@ == self.content().subrange(
                offset as int,
                offset + bytes,
            ) + old(buff)@.subrange(bytes as int, old(buff)@.len() as int),
    ;

    /// Overwrites the device bytes `[offset, offset + buff.len())` with `buff`.
    fn write(&mut self, buff: &[u8], offset: usize) -> (r: Result<(), FatDeviceError>)
        ensures
            r is Ok ==> offset + buff@.len() <= old(self).content().len() && final(self).content()
                == old(self).content().subrange(0, offset as int) + buff@ + old(self).content().subrange(
                offset + buff@.len(),
                old(self).content().len() as int,
            ),
    ;

    /// The byte at `offset`.
    fn read_u8(&self, offset: usize) -> (r: FatResult<u8>)
        ensures
            self.faultless() && offset + 1 <= self.content().len() ==> r is Ok,
            r matches Ok(v) ==> offset + 1 <= self.content().len() && v == self.content()[offset as int],
            r matches Err(e) ==> e is FailedDeviceAccess,
    {
        let mut buff: Vec<u8> = vec![0u8; 1];
        match self.read(buff.as_mut_slice(), offset, 1) {
            Ok(()) => {
                assert(buff@[0] == self.content().subrange(offset as int, offset + 1)[0]);
                Ok(buff[0])
            },
            Err(e) => Err(FatError::FailedDeviceAccess(e)),
        }
    }

    /// The little-endian `u16` at `offset`.
    fn read_u16(&self, offset: usize) -> (r: FatResult<u16>)
        ensures
            self.faultless() && offset + 2 <= self.content().len() ==> r is Ok,
            r matches Ok(v) ==> offset + 2 <= self.content().len() && v == le_u16_at(
                self.content(),
                offset as int,
            ),
            r matches Err(e) ==> e is FailedDeviceAccess,
    {
        let mut buff: Vec<u8> = vec![0u8; 2];
        match self.read(buff.as_mut_slice(), offset, 2) {
            Ok(()) => {
                assert(buff@.subrange(0, 2) == self.content().subrange(offset as int, offset + 2));
                let v = buff_read_u16(buff.as_slice(), 0);
                Ok(v)
            },
            Err(e) => Err(FatError::FailedDeviceAccess(e)),
        }
    }

    /// The little-endian `u32` at `offset`.
    fn read_u32(&self, offset: usize) -> (r: FatResult<u32>)
        ensures
            self.faultless() && offset + 4 <= self.content().len() ==> r is Ok,
            r matches Ok(v) ==> offset + 4 <= self.content().len() && v == le_u32_at(
                self.content(),
                offset as int,
            ),
            r matches Err(e) ==> e is FailedDeviceAccess,
    {
        let mut buff: Vec<u8> = vec![0u8; 4];
        match self.read(buff.as_mut_slice(), offset, 4) {
            Ok(()) => {
                assert(buff@.subrange(0, 4) == self.content().subrange(offset as int, offset + 4));
                let v = buff_read_u32(buff.as_slice(), 0);
                Ok(v)
            },
            Err(e) => Err(FatError::FailedDeviceAccess(e)),
        }
    }
}

/// The offset `offset + k`; one that `usize` cannot hold lies beyond every device.
pub fn offset_add(offset: usize, k: usize) -> (r: FatResult<usize>)
    ensures
        offset + k <= usize::MAX ==> r == Ok::<usize, FatError>((offset + k) as usize),
        offset + k > usize::MAX ==> r == Err::<usize, FatError>(
            FatError::FailedDeviceAccess(FatDeviceError::OutOfRange),
        ),
{
    if offset <= usize::MAX - k {
        Ok(offset + k)
    } else {
        Err(FatError::FailedDeviceAccess(FatDeviceError::OutOfRange))
    }
}

/// A device whose bytes live in memory: a disk image loaded whole.
#[derive(Clone)]
pub struct MemoryDevice {
    bytes: Vec<u8>,
}

impl MemoryDevice {
    /// The bytes this device holds.
    pub closed spec fn bytes_view(&self) -> Seq<u8> {
        self.bytes@
    }

    /// A device that holds `bytes`, from offset zero.
    pub fn new(bytes: Vec<u8>) -> (r: MemoryDevice)
        ensures
            r.content() == bytes@,
    {
        MemoryDevice { bytes }
    }

    /// The number of bytes the device holds.
    pub fn len(&self) -> (r: usize)
        ensures
            r == self.content().len(),
    {
        self.bytes.len()
    }
}

impl FatDeviceAccessible for MemoryDevice {
    open spec fn content(&self) -> Seq<u8> {
        self.bytes_view()
    }

    open spec fn faultless(&self) -> bool {
        true
    }

    proof fn lemma_content_addressable(&self) {
        assert(self.bytes@.len() == self.bytes.len());
    }

    fn read(&self, buff: &mut [u8], offset: usize, bytes: usize) -> (r: Result<(), FatDeviceError>)
        ensures
            r is Ok <==> offset + bytes <= self.content().len(),
            r matches Err(e) ==> e == FatDeviceError::OutOfRange,
    {
        if offset > self.bytes.len() || bytes > self.bytes.len() - offset {
            return Err(FatDeviceError::OutOfRange);
        }
        let mut i: usize = 0;
        while i < bytes
            invariant
                i <= bytes,
                bytes <= buff@.len(),
                offset + bytes <= self.bytes@.len() <= usize::MAX,
                buff@.len() == old(buff)@.len(),
                forall|j: int| 0 <= j < i ==> buff@[j] == self.bytes@[offset + j],
                forall|j: int| bytes <= j < buff@.len() ==> buff@[j] == old(buff)@[j],
            decreases bytes - i,
        {
            buff[i] = self.bytes[offset + i];
            i = i + 1;
        }
        assert(buff@ =~= self.content().subrange(offset as int, offset + bytes) + old(buff)@.subrange(
            bytes as int,
            old(buff)@.len() as int,
        ));
        Ok(())
    }

    fn write(&mut self, buff: &[u8], offset: usize) -> (r: Result<(), FatDeviceError>)
        ensures
            r is Ok <==> offset + buff@.len() <= old(self).content().len(),
            r matches Err(e) ==> e == FatDeviceError::OutOfRange && final(self).content() == old(
                self,
            ).content(),
    {
        if offset > self.bytes.len() || buff.len() > self.bytes.len() - offset {
            return Err(FatDeviceError::OutOfRange);
        }
        let mut i: usize = 0;
        while i < buff.len()
            invariant
                i <= buff@.len(),
                offset + buff@.len() <= self.bytes@.len() <= usize::MAX,
                self.bytes@.len() == old(self).bytes@.len(),
                forall|j: int| 0 <= j < offset ==> self.bytes@[j] == old(self).bytes@[j],
                forall|j: int| 0 <= j < i ==> self.bytes@[offset + j] == buff@[j],
                forall|j: int|
                    offset + i <= j < self.bytes@.len() ==> self.bytes@[j] == old(self).bytes@[j],
            decreases buff@.len() - i,
        {
            self.bytes.set(offset + i, buff[i]);
            i = i + 1;
        }
        assert(self.bytes@ =~= old(self).bytes@.subrange(0, offset as int) + buff@ + old(
            self,
        ).bytes@.subrange(offset + buff@.len(), old(self).bytes@.len() as int));
        Ok(())
    }
}

/// The little-endian `u16` at `buff[index..index + 2]`.
pub fn buff_read_u16(buff: &[u8], index: usize) -> (r: u16)
    requires
        index + 2 <= buff@.len(),
    ensures
        r == le_u16_at(buff@, index as int),
{
    let b0 = buff[index];
    let b1 = buff[index + 1];
    let r = (b1 as u16) << 8u16 | b0 as u16;
    assert(r == b0 + b1 * 0x100) by (bit_vector)
        requires
            r == (b1 as u16) << 8u16 | b0 as u16,
    ;
    r
}

/// The little-endian `u32` at `buff[index..index + 4]`.
pub fn buff_read_u32(buff: &[u8], index: usize) -> (r: u32)
    requires
        index + 4 <= buff@.len(),
    ensures
        r == le_u32_at(buff@, index as int),
{
    let b0 = buff[index];
    let b1 = buff[index + 1];
    let b2 = buff[index + 2];
    let b3 = buff[index + 3];
    let r = (b3 as u32) << 24u32 | (b2 as u32) << 16u32 | (b1 as u32) << 8u32 | b0 as u32;
    assert(r == b0 + b1 * 0x100 + b2 * 0x1_0000 + b3 * 0x100_0000) by (bit_vector)
        requires
            r == (b3 as u32) << 24u32 | (b2 as u32) << 16u32 | (b1 as u32) << 8u32 | b0 as u32,
    ;
    r
}

} // verus!
