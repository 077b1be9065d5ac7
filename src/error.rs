use vstd::prelude::*;

verus! {

/// A fault reported by the storage medium itself.
#[derive(Debug, PartialEq, Eq, Structural)]
pub enum FatDeviceError {
    /// A failure code of the device's own.
    StatusCode(isize),
    /// The offset lies beyond the bytes that the device holds or can address.
    OutOfRange,
}

/// Every way an operation of this library can fail.
#[derive(Debug, PartialEq)]
pub enum FatError {
    /// The sectors-per-cluster byte of the boot sector is not a power of two up to 128.
    InvalidSecPerClus(u8),
    /// A directory entry's attribute byte is none of the known values.
    InvalidAttribute(u8),
    /// The device failed to carry out a read or a write.
    FailedDeviceAccess(FatDeviceError),
    /// A handle was asked for as a file while it is a directory, or the other way round.
    InvalidDirEntryType,
    /// The buffer given for a file's contents is shorter than the file: (needed, given).
    BufferToSmall(usize, usize),
    /// No entry of the given name exists in the directory tree.
    NotfoundFile(String),
}

/// The result of an operation of this library.
pub type FatResult<T = ()> = Result<T, FatError>;

impl From<FatDeviceError> for FatError {
    fn from(e: FatDeviceError) -> (r: FatError)
        ensures
            r == FatError::FailedDeviceAccess(e),
    {
        FatError::FailedDeviceAccess(e)
    }
}

impl vstd::std_specs::convert::FromSpecImpl<FatDeviceError> for FatError {
    open spec fn obeys_from_spec() -> bool {
        true
    }

    open spec fn from_spec(e: FatDeviceError) -> FatError {
        FatError::FailedDeviceAccess(e)
    }
}

} // verus!
