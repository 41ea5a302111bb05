use vstd::prelude::*;

verus! {

/// The errors that the filesystem layer raises.
#[derive(Debug, Clone, Copy, PartialEq, Eq, Structural)]
pub enum FsError {
    /// The operation is not supported by this node or filesystem.
    NotSupported,
    /// The node is not a regular file.
    NotFile,
    /// The node is a directory.
    IsDir,
    /// The node is not a directory.
    NotDir,
    /// No entry of that name exists.
    EntryNotFound,
    /// An entry of that name already exists.
    EntryExist,
    /// The two nodes are not on the same filesystem.
    NotSameFs,
    /// A parameter is invalid.
    InvalidParam,
    /// The device has no space left.
    NoDeviceSpace,
    /// The directory has been removed.
    DirRemoved,
    /// The directory is not empty.
    DirNotEmpty,
    /// The filesystem is not of the expected kind.
    WrongFs,
    /// The underlying device failed.
    DeviceError,
    /// An ioctl request failed.
    IOCTLError,
    /// There is no such device.
    NoDevice,
    /// The operation would block; try again.
    Again,
    /// Too many levels of symbolic links.
    SymLoop,
    /// The resource is busy.
    Busy,
    /// The operation was interrupted.
    Interrupted,
}

} // verus!
