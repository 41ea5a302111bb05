use crate::user::Error;
use vstd::prelude::*;

verus! {

/// The kernel's native status codes for failed operations.
///
/// Each variant carries a fixed negative code, given by [`zx_code`]. Success
/// has no variant: it is the `Ok` arm of a `Result`, and code zero stands for
/// it alone.
#[allow(non_camel_case_types)]
#[derive(Debug, Clone, Copy, PartialEq, Eq, Structural)]
pub enum ZxError {
    // Internal failures
    /// The system encountered an otherwise unspecified error
    /// while performing the operation.
    INTERNAL,
    /// The operation is not implemented, supported,
    /// or enabled.
    NOT_SUPPORTED,
    /// The system was not able to allocate some resource
    /// needed for the operation.
    NO_RESOURCES,
    /// The system was not able to allocate memory needed
    /// for the operation.
    NO_MEMORY,
    /// The system call was interrupted, but should be
    /// retried.  This should not be seen outside of the VDSO.
    INTERNAL_INTR_RETRY,
    // Parameter errors
    /// an argument is invalid, ex. null pointer
    INVALID_ARGS,
    /// A specified handle value does not refer to a handle.
    BAD_HANDLE,
    /// The subject of the operation is the wrong type to
    /// perform the operation.
    /// Example: Attempting a message_read on a thread handle.
    WRONG_TYPE,
    /// The specified syscall number is invalid.
    BAD_SYSCALL,
    /// An argument is outside the valid range for this
    /// operation.
    OUT_OF_RANGE,
    /// A caller provided buffer is too small for
    /// this operation.
    BUFFER_TOO_SMALL,
    // Precondition or state errors
    /// operation failed because the current state of the
    /// object does not allow it, or a precondition of the operation is
    /// not satisfied
    BAD_STATE,
    /// The time limit for the operation elapsed before
    /// the operation completed.
    TIMED_OUT,
    /// The operation cannot be performed currently but
    /// potentially could succeed if the caller waits for a prerequisite
    /// to be satisfied, for example waiting for a handle to be readable
    /// or writable.
    /// Example: Attempting to read from a channel that has no
    /// messages waiting but has an open remote will return ZX_ERR_SHOULD_WAIT.
    /// Attempting to read from a channel that has no messages waiting
    /// and has a closed remote end will return ZX_ERR_PEER_CLOSED.
    SHOULD_WAIT,
    /// The in-progress operation (e.g. a wait) has been
    /// canceled.
    CANCELED,
    /// The operation failed because the remote end of the
    /// subject of the operation was closed.
    PEER_CLOSED,
    /// The requested entity is not found.
    NOT_FOUND,
    /// An object with the specified identifier
    /// already exists.
    /// Example: Attempting to create a file when a file already exists
    /// with that name.
    ALREADY_EXISTS,
    /// The operation failed because the named entity
    /// is already owned or controlled by another entity. The operation
    /// could succeed later if the current owner releases the entity.
    ALREADY_BOUND,
    /// The subject of the operation is currently unable
    /// to perform the operation.
    /// Note: This is used when there's no direct way for the caller to
    /// observe when the subject will be able to perform the operation
    /// and should thus retry.
    UNAVAILABLE,
    // Permission check errors
    /// The caller did not have permission to perform
    /// the specified operation.
    ACCESS_DENIED,
    // Input-output errors
    /// Otherwise unspecified error occurred during I/O.
    IO,
    /// The entity the I/O operation is being performed on
    /// rejected the operation.
    /// Example: an I2C device NAK'ing a transaction or a disk controller
    /// rejecting an invalid command, or a stalled USB endpoint.
    IO_REFUSED,
    /// The data in the operation failed an integrity
    /// check and is possibly corrupted.
    /// Example: CRC or Parity error.
    IO_DATA_INTEGRITY,
    /// The data in the operation is currently unavailable
    /// and may be permanently lost.
    /// Example: A disk block is irrecoverably damaged.
    IO_DATA_LOSS,
    /// The device is no longer available (has been
    /// unplugged from the system, powered down, or the driver has been
    /// unloaded,
    IO_NOT_PRESENT,
    /// More data was received from the device than expected.
    /// Example: a USB "babble" error due to a device sending more data than
    /// the host queued to receive.
    IO_OVERRUN,
    /// An operation did not complete within the required timeframe.
    /// Example: A USB isochronous transfer that failed to complete due to an overrun or underrun.
    IO_MISSED_DEADLINE,
    /// The data in the operation is invalid parameter or is out of range.
    /// Example: A USB transfer that failed to complete with TRB Error
    IO_INVALID,
    // Filesystem Errors
    /// Path name is too long.
    BAD_PATH,
    /// Object is not a directory or does not support
    /// directory operations.
    /// Example: Attempted to open a file as a directory or
    /// attempted to do directory operations on a file.
    NOT_DIR,
    /// Object is not a regular file.
    NOT_FILE,
    /// This operation would cause a file to exceed a
    /// filesystem-specific size limit
    FILE_BIG,
    /// Filesystem or device space is exhausted.
    NO_SPACE,
    /// Directory is not empty.
    NOT_EMPTY,
    // Flow Control
    /// Do not call again.
    /// Example: A notification callback will be called on every
    /// event until it returns something other than ZX_OK.
    /// This status allows differentiation between "stop due to
    /// an error" and "stop because the work is done."
    STOP,
    /// Advance to the next item.
    /// Example: A notification callback will use this response
    /// to indicate it did not "consume" an item passed to it,
    /// but by choice, not due to an error condition.
    NEXT,
    /// Ownership of the item has moved to an asynchronous worker.
    ///
    /// Unlike ZX_ERR_STOP, which implies that iteration on an object
    /// should stop, and ZX_ERR_NEXT, which implies that iteration
    /// should continue to the next item, ZX_ERR_ASYNC implies
    /// that an asynchronous worker is responsible for continuing iteration.
    ///
    /// Example: A notification callback will be called on every
    /// event, but one event needs to handle some work asynchronously
    /// before it can continue. ZX_ERR_ASYNC implies the worker is
    /// responsible for resuming iteration once its work has completed.
    ASYNC,
    // Network-related errors
    /// Specified protocol is not
    /// supported.
    PROTOCOL_NOT_SUPPORTED,
    /// Host is unreachable.
    ADDRESS_UNREACHABLE,
    /// Address is being used by someone else.
    ADDRESS_IN_USE,
    /// Socket is not connected.
    NOT_CONNECTED,
    /// Remote peer rejected the connection.
    CONNECTION_REFUSED,
    /// Connection was reset.
    CONNECTION_RESET,
    /// Connection was aborted.
    CONNECTION_ABORTED,
}

/// The native code of an error.
pub open spec fn zx_code(e: ZxError) -> int {
    match e {
        ZxError::INTERNAL => -1,
        ZxError::NOT_SUPPORTED => -2,
        ZxError::NO_RESOURCES => -3,
        ZxError::NO_MEMORY => -4,
        ZxError::INTERNAL_INTR_RETRY => -6,
        ZxError::INVALID_ARGS => -10,
        ZxError::BAD_HANDLE => -11,
        ZxError::WRONG_TYPE => -12,
        ZxError::BAD_SYSCALL => -13,
        ZxError::OUT_OF_RANGE => -14,
        ZxError::BUFFER_TOO_SMALL => -15,
        ZxError::BAD_STATE => -20,
        ZxError::TIMED_OUT => -21,
        ZxError::SHOULD_WAIT => -22,
        ZxError::CANCELED => -23,
        ZxError::PEER_CLOSED => -24,
        ZxError::NOT_FOUND => -25,
        ZxError::ALREADY_EXISTS => -26,
        ZxError::ALREADY_BOUND => -27,
        ZxError::UNAVAILABLE => -28,
        ZxError::ACCESS_DENIED => -30,
        ZxError::IO => -40,
        ZxError::IO_REFUSED => -41,
        ZxError::IO_DATA_INTEGRITY => -42,
        ZxError::IO_DATA_LOSS => -43,
        ZxError::IO_NOT_PRESENT => -44,
        ZxError::IO_OVERRUN => -45,
        ZxError::IO_MISSED_DEADLINE => -46,
        ZxError::IO_INVALID => -47,
        ZxError::BAD_PATH => -50,
        ZxError::NOT_DIR => -51,
        ZxError::NOT_FILE => -52,
        ZxError::FILE_BIG => -53,
        ZxError::NO_SPACE => -54,
        ZxError::NOT_EMPTY => -55,
        ZxError::STOP => -60,
        ZxError::NEXT => -61,
        ZxError::ASYNC => -62,
        ZxError::PROTOCOL_NOT_SUPPORTED => -70,
        ZxError::ADDRESS_UNREACHABLE => -71,
        ZxError::ADDRESS_IN_USE => -72,
        ZxError::NOT_CONNECTED => -73,
        ZxError::CONNECTION_REFUSED => -74,
        ZxError::CONNECTION_RESET => -75,
        ZxError::CONNECTION_ABORTED => -76,
    }
}

impl ZxError {
    /// The native code of this error; always negative.
    pub fn code(&self) -> (r: i32)
        ensures
            r as int == zx_code(*self),
            r < 0,
    {
        match self {
            ZxError::INTERNAL => -1,
            ZxError::NOT_SUPPORTED => -2,
            ZxError::NO_RESOURCES => -3,
            ZxError::NO_MEMORY => -4,
            ZxError::INTERNAL_INTR_RETRY => -6,
            ZxError::INVALID_ARGS => -10,
            ZxError::BAD_HANDLE => -11,
            ZxError::WRONG_TYPE => -12,
            ZxError::BAD_SYSCALL => -13,
            ZxError::OUT_OF_RANGE => -14,
            ZxError::BUFFER_TOO_SMALL => -15,
            ZxError::BAD_STATE => -20,
            ZxError::TIMED_OUT => -21,
            ZxError::SHOULD_WAIT => -22,
            ZxError::CANCELED => -23,
            ZxError::PEER_CLOSED => -24,
            ZxError::NOT_FOUND => -25,
            ZxError::ALREADY_EXISTS => -26,
            ZxError::ALREADY_BOUND => -27,
            ZxError::UNAVAILABLE => -28,
            ZxError::ACCESS_DENIED => -30,
            ZxError::IO => -40,
            ZxError::IO_REFUSED => -41,
            ZxError::IO_DATA_INTEGRITY => -42,
            ZxError::IO_DATA_LOSS => -43,
            ZxError::IO_NOT_PRESENT => -44,
            ZxError::IO_OVERRUN => -45,
            ZxError::IO_MISSED_DEADLINE => -46,
            ZxError::IO_INVALID => -47,
            ZxError::BAD_PATH => -50,
            ZxError::NOT_DIR => -51,
            ZxError::NOT_FILE => -52,
            ZxError::FILE_BIG => -53,
            ZxError::NO_SPACE => -54,
            ZxError::NOT_EMPTY => -55,
            ZxError::STOP => -60,
            ZxError::NEXT => -61,
            ZxError::ASYNC => -62,
            ZxError::PROTOCOL_NOT_SUPPORTED => -70,
            ZxError::ADDRESS_UNREACHABLE => -71,
            ZxError::ADDRESS_IN_USE => -72,
            ZxError::NOT_CONNECTED => -73,
            ZxError::CONNECTION_REFUSED => -74,
            ZxError::CONNECTION_RESET => -75,
            ZxError::CONNECTION_ABORTED => -76,
        }
    }
}

/// The native error that a user-memory error becomes.
pub open spec fn user_to_zx(e: Error) -> ZxError {
    match e {
        Error::InvalidUtf8 => ZxError::INVALID_ARGS,
        Error::InvalidPointer => ZxError::INVALID_ARGS,
        Error::BufferTooSmall => ZxError::BUFFER_TOO_SMALL,
        Error::InvalidLength => ZxError::INVALID_ARGS,
        Error::InvalidVectorAddress => ZxError::NOT_FOUND,
    }
}

impl From<Error> for ZxError {
    fn from(e: Error) -> ZxError {
        match e {
            Error::InvalidUtf8 => ZxError::INVALID_ARGS,
            Error::InvalidPointer => ZxError::INVALID_ARGS,
            Error::BufferTooSmall => ZxError::BUFFER_TOO_SMALL,
            Error::InvalidLength => ZxError::INVALID_ARGS,
            Error::InvalidVectorAddress => ZxError::NOT_FOUND,
        }
    }
}

impl vstd::std_specs::convert::FromSpecImpl<Error> for ZxError {
    open spec fn obeys_from_spec() -> bool {
        true
    }

    open spec fn from_spec(v: Error) -> ZxError {
        user_to_zx(v)
    }
}

} // verus!
