use crate::fs::FsError;
use crate::user::Error;
use crate::zircon::ZxError;
use vstd::prelude::*;

verus! {

/// The error space seen by POSIX-style callers.
///
/// Each variant carries the standard `errno` number, given by [`lx_code`].
#[allow(non_camel_case_types)]
#[derive(Debug, Clone, Copy, PartialEq, Eq, Structural)]
pub enum LxError {
    /// Undefined
    EUNDEF,
    /// Operation not permitted
    EPERM,
    /// No such file or directory
    ENOENT,
    /// No such process
    ESRCH,
    /// Interrupted system call
    EINTR,
    /// I/O error
    EIO,
    /// No such device or address
    ENXIO,
    /// Arg list too long
    E2BIG,
    /// Exec format error
    ENOEXEC,
    /// Bad file number
    EBADF,
    /// No child processes
    ECHILD,
    /// Try again
    EAGAIN,
    /// Out of memory
    ENOMEM,
    /// Permission denied
    EACCES,
    /// Bad address
    EFAULT,
    /// Block device required
    ENOTBLK,
    /// Device or resource busy
    EBUSY,
    /// File exists
    EEXIST,
    /// Cross-device link
    EXDEV,
    /// No such device
    ENODEV,
    /// Not a directory
    ENOTDIR,
    /// Is a directory
    EISDIR,
    /// Invalid argument
    EINVAL,
    /// File table overflow
    ENFILE,
    /// Too many open files
    EMFILE,
    /// Not a tty device
    ENOTTY,
    /// Text file busy
    ETXTBSY,
    /// File too large
    EFBIG,
    /// No space left on device
    ENOSPC,
    /// Illegal seek
    ESPIPE,
    /// Read-only file system
    EROFS,
    /// Too many links
    EMLINK,
    /// Broken pipe
    EPIPE,
    /// Math argument out of domain
    EDOM,
    /// Math result not representable
    ERANGE,
    /// Resource deadlock would occur
    EDEADLK,
    /// Filename too long
    ENAMETOOLONG,
    /// No record locks available
    ENOLCK,
    /// Function not implemented
    ENOSYS,
    /// Directory not empty
    ENOTEMPTY,
    /// Too many symbolic links encountered
    ELOOP,
    /// Identifier removed
    EIDRM,
    /// Socket operation on non-socket
    ENOTSOCK,
    /// Protocol not available
    ENOPROTOOPT,
    /// Protocol family not supported
    EPFNOSUPPORT,
    /// Address family not supported by protocol
    EAFNOSUPPORT,
    /// No buffer space available
    ENOBUFS,
    /// Transport endpoint is already connected
    EISCONN,
    /// Transport endpoint is not connected
    ENOTCONN,
    /// Connection refused
    ECONNREFUSED,
}

/// The `errno` number of an error.
pub open spec fn lx_code(e: LxError) -> int {
    match e {
        LxError::EUNDEF => 0,
        LxError::EPERM => 1,
        LxError::ENOENT => 2,
        LxError::ESRCH => 3,
        LxError::EINTR => 4,
        LxError::EIO => 5,
        LxError::ENXIO => 6,
        LxError::E2BIG => 7,
        LxError::ENOEXEC => 8,
        LxError::EBADF => 9,
        LxError::ECHILD => 10,
        LxError::EAGAIN => 11,
        LxError::ENOMEM => 12,
        LxError::EACCES => 13,
        LxError::EFAULT => 14,
        LxError::ENOTBLK => 15,
        LxError::EBUSY => 16,
        LxError::EEXIST => 17,
        LxError::EXDEV => 18,
        LxError::ENODEV => 19,
        LxError::ENOTDIR => 20,
        LxError::EISDIR => 21,
        LxError::EINVAL => 22,
        LxError::ENFILE => 23,
        LxError::EMFILE => 24,
        LxError::ENOTTY => 25,
        LxError::ETXTBSY => 26,
        LxError::EFBIG => 27,
        LxError::ENOSPC => 28,
        LxError::ESPIPE => 29,
        LxError::EROFS => 30,
        LxError::EMLINK => 31,
        LxError::EPIPE => 32,
        LxError::EDOM => 33,
        LxError::ERANGE => 34,
        LxError::EDEADLK => 35,
        LxError::ENAMETOOLONG => 36,
        LxError::ENOLCK => 37,
        LxError::ENOSYS => 38,
        LxError::ENOTEMPTY => 39,
        LxError::ELOOP => 40,
        LxError::EIDRM => 43,
        LxError::ENOTSOCK => 88,
        LxError::ENOPROTOOPT => 92,
        LxError::EPFNOSUPPORT => 96,
        LxError::EAFNOSUPPORT => 97,
        LxError::ENOBUFS => 105,
        LxError::EISCONN => 106,
        LxError::ENOTCONN => 107,
        LxError::ECONNREFUSED => 111,
    }
}

/// The error whose `errno` number is `c`, if any.
pub open spec fn lx_of_code(c: int) -> Option<LxError> {
    if c == 0 {
        Some(LxError::EUNDEF)
    } else if c == 1 {
        Some(LxError::EPERM)
    } else if c == 2 {
        Some(LxError::ENOENT)
    } else if c == 3 {
        Some(LxError::ESRCH)
    } else if c == 4 {
        Some(LxError::EINTR)
    } else if c == 5 {
        Some(LxError::EIO)
    } else if c == 6 {
        Some(LxError::ENXIO)
    } else if c == 7 {
        Some(LxError::E2BIG)
    } else if c == 8 {
        Some(LxError::ENOEXEC)
    } else if c == 9 {
        Some(LxError::EBADF)
    } else if c == 10 {
        Some(LxError::ECHILD)
    } else if c == 11 {
        Some(LxError::EAGAIN)
    } else if c == 12 {
        Some(LxError::ENOMEM)
    } else if c == 13 {
        Some(LxError::EACCES)
    } else if c == 14 {
        Some(LxError::EFAULT)
    } else if c == 15 {
        Some(LxError::ENOTBLK)
    } else if c == 16 {
        Some(LxError::EBUSY)
    } else if c == 17 {
        Some(LxError::EEXIST)
    } else if c == 18 {
        Some(LxError::EXDEV)
    } else if c == 19 {
        Some(LxError::ENODEV)
    } else if c == 20 {
        Some(LxError::ENOTDIR)
    } else if c == 21 {
        Some(LxError::EISDIR)
    } else if c == 22 {
        Some(LxError::EINVAL)
    } else if c == 23 {
        Some(LxError::ENFILE)
    } else if c == 24 {
        Some(LxError::EMFILE)
    } else if c == 25 {
        Some(LxError::ENOTTY)
    } else if c == 26 {
        Some(LxError::ETXTBSY)
    } else if c == 27 {
        Some(LxError::EFBIG)
    } else if c == 28 {
        Some(LxError::ENOSPC)
    } else if c == 29 {
        Some(LxError::ESPIPE)
    } else if c == 30 {
        Some(LxError::EROFS)
    } else if c == 31 {
        Some(LxError::EMLINK)
    } else if c == 32 {
        Some(LxError::EPIPE)
    } else if c == 33 {
        Some(LxError::EDOM)
    } else if c == 34 {
        Some(LxError::ERANGE)
    } else if c == 35 {
        Some(LxError::EDEADLK)
    } else if c == 36 {
        Some(LxError::ENAMETOOLONG)
    } else if c == 37 {
        Some(LxError::ENOLCK)
    } else if c == 38 {
        Some(LxError::ENOSYS)
    } else if c == 39 {
        Some(LxError::ENOTEMPTY)
    } else if c == 40 {
        Some(LxError::ELOOP)
    } else if c == 43 {
        Some(LxError::EIDRM)
    } else if c == 88 {
        Some(LxError::ENOTSOCK)
    } else if c == 92 {
        Some(LxError::ENOPROTOOPT)
    } else if c == 96 {
        Some(LxError::EPFNOSUPPORT)
    } else if c == 97 {
        Some(LxError::EAFNOSUPPORT)
    } else if c == 105 {
        Some(LxError::ENOBUFS)
    } else if c == 106 {
        Some(LxError::EISCONN)
    } else if c == 107 {
        Some(LxError::ENOTCONN)
    } else if c == 111 {
        Some(LxError::ECONNREFUSED)
    } else {
        None
    }
}

impl LxError {
    /// The `errno` number of this error.
    pub fn code(&self) -> (r: isize)
        ensures
            r as int == lx_code(*self),
            0 <= r,
    {
        match self {
            LxError::EUNDEF => 0,
            LxError::EPERM => 1,
            LxError::ENOENT => 2,
            LxError::ESRCH => 3,
            LxError::EINTR => 4,
            LxError::EIO => 5,
            LxError::ENXIO => 6,
            LxError::E2BIG => 7,
            LxError::ENOEXEC => 8,
            LxError::EBADF => 9,
            LxError::ECHILD => 10,
            LxError::EAGAIN => 11,
            LxError::ENOMEM => 12,
            LxError::EACCES => 13,
            LxError::EFAULT => 14,
            LxError::ENOTBLK => 15,
            LxError::EBUSY => 16,
            LxError::EEXIST => 17,
            LxError::EXDEV => 18,
            LxError::ENODEV => 19,
            LxError::ENOTDIR => 20,
            LxError::EISDIR => 21,
            LxError::EINVAL => 22,
            LxError::ENFILE => 23,
            LxError::EMFILE => 24,
            LxError::ENOTTY => 25,
            LxError::ETXTBSY => 26,
            LxError::EFBIG => 27,
            LxError::ENOSPC => 28,
            LxError::ESPIPE => 29,
            LxError::EROFS => 30,
            LxError::EMLINK => 31,
            LxError::EPIPE => 32,
            LxError::EDOM => 33,
            LxError::ERANGE => 34,
            LxError::EDEADLK => 35,
            LxError::ENAMETOOLONG => 36,
            LxError::ENOLCK => 37,
            LxError::ENOSYS => 38,
            LxError::ENOTEMPTY => 39,
            LxError::ELOOP => 40,
            LxError::EIDRM => 43,
            LxError::ENOTSOCK => 88,
            LxError::ENOPROTOOPT => 92,
            LxError::EPFNOSUPPORT => 96,
            LxError::EAFNOSUPPORT => 97,
            LxError::ENOBUFS => 105,
            LxError::EISCONN => 106,
            LxError::ENOTCONN => 107,
            LxError::ECONNREFUSED => 111,
        }
    }

    /// The error whose `errno` number is `code`; `None` where no error has it.
    pub fn from_code(code: isize) -> (r: Option<LxError>)
        ensures
            r == lx_of_code(code as int),
    {
        match code {
            0 => Some(LxError::EUNDEF),
            1 => Some(LxError::EPERM),
            2 => Some(LxError::ENOENT),
            3 => Some(LxError::ESRCH),
            4 => Some(LxError::EINTR),
            5 => Some(LxError::EIO),
            6 => Some(LxError::ENXIO),
            7 => Some(LxError::E2BIG),
            8 => Some(LxError::ENOEXEC),
            9 => Some(LxError::EBADF),
            10 => Some(LxError::ECHILD),
            11 => Some(LxError::EAGAIN),
            12 => Some(LxError::ENOMEM),
            13 => Some(LxError::EACCES),
            14 => Some(LxError::EFAULT),
            15 => Some(LxError::ENOTBLK),
            16 => Some(LxError::EBUSY),
            17 => Some(LxError::EEXIST),
            18 => Some(LxError::EXDEV),
            19 => Some(LxError::ENODEV),
            20 => Some(LxError::ENOTDIR),
            21 => Some(LxError::EISDIR),
            22 => Some(LxError::EINVAL),
            23 => Some(LxError::ENFILE),
            24 => Some(LxError::EMFILE),
            25 => Some(LxError::ENOTTY),
            26 => Some(LxError::ETXTBSY),
            27 => Some(LxError::EFBIG),
            28 => Some(LxError::ENOSPC),
            29 => Some(LxError::ESPIPE),
            30 => Some(LxError::EROFS),
            31 => Some(LxError::EMLINK),
            32 => Some(LxError::EPIPE),
            33 => Some(LxError::EDOM),
            34 => Some(LxError::ERANGE),
            35 => Some(LxError::EDEADLK),
            36 => Some(LxError::ENAMETOOLONG),
            37 => Some(LxError::ENOLCK),
            38 => Some(LxError::ENOSYS),
            39 => Some(LxError::ENOTEMPTY),
            40 => Some(LxError::ELOOP),
            43 => Some(LxError::EIDRM),
            88 => Some(LxError::ENOTSOCK),
            92 => Some(LxError::ENOPROTOOPT),
            96 => Some(LxError::EPFNOSUPPORT),
            97 => Some(LxError::EAFNOSUPPORT),
            105 => Some(LxError::ENOBUFS),
            106 => Some(LxError::EISCONN),
            107 => Some(LxError::ENOTCONN),
            111 => Some(LxError::ECONNREFUSED),
            _ => None,
        }
    }
}

/// The description of an error, for diagnostics only.
pub open spec fn lx_explain(e: LxError) -> Seq<char> {
    match e {
        LxError::EUNDEF => "Unknown error"@,
        LxError::EPERM => "Operation not permitted"@,
        LxError::ENOENT => "No such file or directory"@,
        LxError::ESRCH => "No such process"@,
        LxError::EINTR => "Interrupted system call"@,
        LxError::EIO => "I/O error"@,
        LxError::ENXIO => "No such device or address"@,
        LxError::E2BIG => "Argument list too long"@,
        LxError::ENOEXEC => "Exec format error"@,
        LxError::EBADF => "Bad file number"@,
        LxError::ECHILD => "No child processes"@,
        LxError::EAGAIN => "Try again"@,
        LxError::ENOMEM => "Out of memory"@,
        LxError::EACCES => "Permission denied"@,
        LxError::EFAULT => "Bad address"@,
        LxError::ENOTBLK => "Block device required"@,
        LxError::EBUSY => "Device or resource busy"@,
        LxError::EEXIST => "File exists"@,
        LxError::EXDEV => "Cross-device link"@,
        LxError::ENODEV => "No such device"@,
        LxError::ENOTDIR => "Not a directory"@,
        LxError::EISDIR => "Is a directory"@,
        LxError::EINVAL => "Invalid argument"@,
        LxError::ENFILE => "File table overflow"@,
        LxError::EMFILE => "Too many open files"@,
        LxError::ENOTTY => "Not a typewriter"@,
        LxError::ETXTBSY => "Text file busy"@,
        LxError::EFBIG => "File too large"@,
        LxError::ENOSPC => "No space left on device"@,
        LxError::ESPIPE => "Illegal seek"@,
        LxError::EROFS => "Read-only file system"@,
        LxError::EMLINK => "Too many links"@,
        LxError::EPIPE => "Broken pipe"@,
        LxError::EDOM => "Math argument out of domain of func"@,
        LxError::ERANGE => "Math result not representable"@,
        LxError::EDEADLK => "Resource deadlock would occur"@,
        LxError::ENAMETOOLONG => "File name too long"@,
        LxError::ENOLCK => "No record locks available"@,
        LxError::ENOSYS => "Function not implemented"@,
        LxError::ENOTEMPTY => "Directory not empty"@,
        LxError::ELOOP => "Too many symbolic links encountered"@,
        LxError::EIDRM => "Identifier removed"@,
        LxError::ENOTSOCK => "Socket operation on non-socket"@,
        LxError::ENOPROTOOPT => "Protocol not available"@,
        LxError::EPFNOSUPPORT => "Protocol family not supported"@,
        LxError::EAFNOSUPPORT => "Address family not supported by protocol"@,
        LxError::ENOBUFS => "No buffer space available"@,
        LxError::EISCONN => "Transport endpoint is already connected"@,
        LxError::ENOTCONN => "Transport endpoint is not connected"@,
        LxError::ECONNREFUSED => "Connection refused"@,
    }
}

/// The description of an `errno` number: that of the error which has it, or
/// the generic one where no error has it.
pub open spec fn lx_describe(c: int) -> Seq<char> {
    match lx_of_code(c) {
        Some(e) => lx_explain(e),
        None => "Unknown error"@,
    }
}

impl LxError {
    /// The description of this error.
    pub fn explain(&self) -> (r: &'static str)
        ensures
            r@ == lx_explain(*self),
    {
        match self {
            LxError::EUNDEF => "Unknown error",
            LxError::EPERM => "Operation not permitted",
            LxError::ENOENT => "No such file or directory",
            LxError::ESRCH => "No such process",
            LxError::EINTR => "Interrupted system call",
            LxError::EIO => "I/O error",
            LxError::ENXIO => "No such device or address",
            LxError::E2BIG => "Argument list too long",
            LxError::ENOEXEC => "Exec format error",
            LxError::EBADF => "Bad file number",
            LxError::ECHILD => "No child processes",
            LxError::EAGAIN => "Try again",
            LxError::ENOMEM => "Out of memory",
            LxError::EACCES => "Permission denied",
            LxError::EFAULT => "Bad address",
            LxError::ENOTBLK => "Block device required",
            LxError::EBUSY => "Device or resource busy",
            LxError::EEXIST => "File exists",
            LxError::EXDEV => "Cross-device link",
            LxError::ENODEV => "No such device",
            LxError::ENOTDIR => "Not a directory",
            LxError::EISDIR => "Is a directory",
            LxError::EINVAL => "Invalid argument",
            LxError::ENFILE => "File table overflow",
            LxError::EMFILE => "Too many open files",
            LxError::ENOTTY => "Not a typewriter",
            LxError::ETXTBSY => "Text file busy",
            LxError::EFBIG => "File too large",
            LxError::ENOSPC => "No space left on device",
            LxError::ESPIPE => "Illegal seek",
            LxError::EROFS => "Read-only file system",
            LxError::EMLINK => "Too many links",
            LxError::EPIPE => "Broken pipe",
            LxError::EDOM => "Math argument out of domain of func",
            LxError::ERANGE => "Math result not representable",
            LxError::EDEADLK => "Resource deadlock would occur",
            LxError::ENAMETOOLONG => "File name too long",
            LxError::ENOLCK => "No record locks available",
            LxError::ENOSYS => "Function not implemented",
            LxError::ENOTEMPTY => "Directory not empty",
            LxError::ELOOP => "Too many symbolic links encountered",
            LxError::EIDRM => "Identifier removed",
            LxError::ENOTSOCK => "Socket operation on non-socket",
            LxError::ENOPROTOOPT => "Protocol not available",
            LxError::EPFNOSUPPORT => "Protocol family not supported",
            LxError::EAFNOSUPPORT => "Address family not supported by protocol",
            LxError::ENOBUFS => "No buffer space available",
            LxError::EISCONN => "Transport endpoint is already connected",
            LxError::ENOTCONN => "Transport endpoint is not connected",
            LxError::ECONNREFUSED => "Connection refused",
        }
    }
}

/// The description of an `errno` number. Never fails: a number that no error
/// has gets the generic description.
pub fn describe(code: isize) -> (r: &'static str)
    ensures
        r@ == lx_describe(code as int),
{
    match LxError::from_code(code) {
        Some(e) => e.explain(),
        None => "Unknown error",
    }
}

/// Reading back the `errno` number of an error gives that error.
pub proof fn lemma_lx_code_round_trip(e: LxError)
    ensures
        lx_of_code(lx_code(e)) == Some(e),
{
}

/// No two distinct errors share an `errno` number.
pub proof fn lemma_lx_code_injective(a: LxError, b: LxError)
    ensures
        lx_code(a) == lx_code(b) ==> a == b,
{
    lemma_lx_code_round_trip(a);
    lemma_lx_code_round_trip(b);
}

/// The description of the `errno` number of an error is that error's own
/// description, and it is not empty.
pub proof fn lemma_describe_code(e: LxError)
    ensures
        lx_describe(lx_code(e)) == lx_explain(e),
        lx_explain(e).len() > 0,
{
    lemma_lx_code_round_trip(e);
    match e {
        LxError::EUNDEF => reveal_strlit("Unknown error"),
        LxError::EPERM => reveal_strlit("Operation not permitted"),
        LxError::ENOENT => reveal_strlit("No such file or directory"),
        LxError::ESRCH => reveal_strlit("No such process"),
        LxError::EINTR => reveal_strlit("Interrupted system call"),
        LxError::EIO => reveal_strlit("I/O error"),
        LxError::ENXIO => reveal_strlit("No such device or address"),
        LxError::E2BIG => reveal_strlit("Argument list too long"),
        LxError::ENOEXEC => reveal_strlit("Exec format error"),
        LxError::EBADF => reveal_strlit("Bad file number"),
        LxError::ECHILD => reveal_strlit("No child processes"),
        LxError::EAGAIN => reveal_strlit("Try again"),
        LxError::ENOMEM => reveal_strlit("Out of memory"),
        LxError::EACCES => reveal_strlit("Permission denied"),
        LxError::EFAULT => reveal_strlit("Bad address"),
        LxError::ENOTBLK => reveal_strlit("Block device required"),
        LxError::EBUSY => reveal_strlit("Device or resource busy"),
        LxError::EEXIST => reveal_strlit("File exists"),
        LxError::EXDEV => reveal_strlit("Cross-device link"),
        LxError::ENODEV => reveal_strlit("No such device"),
        LxError::ENOTDIR => reveal_strlit("Not a directory"),
        LxError::EISDIR => reveal_strlit("Is a directory"),
        LxError::EINVAL => reveal_strlit("Invalid argument"),
        LxError::ENFILE => reveal_strlit("File table overflow"),
        LxError::EMFILE => reveal_strlit("Too many open files"),
        LxError::ENOTTY => reveal_strlit("Not a typewriter"),
        LxError::ETXTBSY => reveal_strlit("Text file busy"),
        LxError::EFBIG => reveal_strlit("File too large"),
        LxError::ENOSPC => reveal_strlit("No space left on device"),
        LxError::ESPIPE => reveal_strlit("Illegal seek"),
        LxError::EROFS => reveal_strlit("Read-only file system"),
        LxError::EMLINK => reveal_strlit("Too many links"),
        LxError::EPIPE => reveal_strlit("Broken pipe"),
        LxError::EDOM => reveal_strlit("Math argument out of domain of func"),
        LxError::ERANGE => reveal_strlit("Math result not representable"),
        LxError::EDEADLK => reveal_strlit("Resource deadlock would occur"),
        LxError::ENAMETOOLONG => reveal_strlit("File name too long"),
        LxError::ENOLCK => reveal_strlit("No record locks available"),
        LxError::ENOSYS => reveal_strlit("Function not implemented"),
        LxError::ENOTEMPTY => reveal_strlit("Directory not empty"),
        LxError::ELOOP => reveal_strlit("Too many symbolic links encountered"),
        LxError::EIDRM => reveal_strlit("Identifier removed"),
        LxError::ENOTSOCK => reveal_strlit("Socket operation on non-socket"),
        LxError::ENOPROTOOPT => reveal_strlit("Protocol not available"),
        LxError::EPFNOSUPPORT => reveal_strlit("Protocol family not supported"),
        LxError::EAFNOSUPPORT => reveal_strlit("Address family not supported by protocol"),
        LxError::ENOBUFS => reveal_strlit("No buffer space available"),
        LxError::EISCONN => reveal_strlit("Transport endpoint is already connected"),
        LxError::ENOTCONN => reveal_strlit("Transport endpoint is not connected"),
        LxError::ECONNREFUSED => reveal_strlit("Connection refused"),
    }
}

/// The POSIX error closest to a native error, for the native errors that have
/// one. The others, flow-control codes included, must not reach a POSIX-facing
/// caller.
pub open spec fn zx_to_lx(e: ZxError) -> Option<LxError> {
    match e {
        ZxError::INVALID_ARGS => Some(LxError::EINVAL),
        ZxError::NOT_SUPPORTED => Some(LxError::ENOSYS),
        ZxError::ALREADY_EXISTS => Some(LxError::EEXIST),
        ZxError::SHOULD_WAIT => Some(LxError::EAGAIN),
        ZxError::PEER_CLOSED => Some(LxError::EPIPE),
        ZxError::BAD_HANDLE => Some(LxError::EBADF),
        _ => None,
    }
}

/// The POSIX error that a filesystem error becomes.
pub open spec fn fs_to_lx(e: FsError) -> LxError {
    match e {
        FsError::NotSupported => LxError::ENOSYS,
        FsError::NotFile => LxError::EISDIR,
        FsError::IsDir => LxError::EISDIR,
        FsError::NotDir => LxError::ENOTDIR,
        FsError::EntryNotFound => LxError::ENOENT,
        FsError::EntryExist => LxError::EEXIST,
        FsError::NotSameFs => LxError::EXDEV,
        FsError::InvalidParam => LxError::EINVAL,
        FsError::NoDeviceSpace => LxError::ENOMEM,
        FsError::DirRemoved => LxError::ENOENT,
        FsError::DirNotEmpty => LxError::ENOTEMPTY,
        FsError::WrongFs => LxError::EINVAL,
        FsError::DeviceError => LxError::EIO,
        FsError::IOCTLError => LxError::EINVAL,
        FsError::NoDevice => LxError::EINVAL,
        FsError::Again => LxError::EAGAIN,
        FsError::SymLoop => LxError::ELOOP,
        FsError::Busy => LxError::EBUSY,
        FsError::Interrupted => LxError::EINTR,
    }
}

/// The POSIX error that a user-memory error becomes.
pub open spec fn user_to_lx(e: Error) -> LxError {
    match e {
        Error::InvalidUtf8 => LxError::EINVAL,
        Error::InvalidPointer => LxError::EFAULT,
        Error::BufferTooSmall => LxError::ENOBUFS,
        Error::InvalidLength => LxError::EINVAL,
        Error::InvalidVectorAddress => LxError::EINVAL,
    }
}

impl LxError {
    /// The POSIX error closest to a native error; `None` for a native error
    /// that has no POSIX analogue.
    pub fn try_from_zircon(e: ZxError) -> (r: Option<LxError>)
        ensures
            r == zx_to_lx(e),
    {
        match e {
            ZxError::INVALID_ARGS => Some(LxError::EINVAL),
            ZxError::NOT_SUPPORTED => Some(LxError::ENOSYS),
            ZxError::ALREADY_EXISTS => Some(LxError::EEXIST),
            ZxError::SHOULD_WAIT => Some(LxError::EAGAIN),
            ZxError::PEER_CLOSED => Some(LxError::EPIPE),
            ZxError::BAD_HANDLE => Some(LxError::EBADF),
            _ => None,
        }
    }

    /// The POSIX error closest to a native error that has one.
    pub fn from_zircon(e: ZxError) -> (r: LxError)
        requires
            zx_to_lx(e) is Some,
        ensures
            zx_to_lx(e) == Some(r),
    {
        Self::try_from_zircon(e).unwrap()
    }
}

impl From<FsError> for LxError {
    fn from(e: FsError) -> LxError {
        match e {
            FsError::NotSupported => LxError::ENOSYS,
            FsError::NotFile => LxError::EISDIR,
            FsError::IsDir => LxError::EISDIR,
            FsError::NotDir => LxError::ENOTDIR,
            FsError::EntryNotFound => LxError::ENOENT,
            FsError::EntryExist => LxError::EEXIST,
            FsError::NotSameFs => LxError::EXDEV,
            FsError::InvalidParam => LxError::EINVAL,
            FsError::NoDeviceSpace => LxError::ENOMEM,
            FsError::DirRemoved => LxError::ENOENT,
            FsError::DirNotEmpty => LxError::ENOTEMPTY,
            FsError::WrongFs => LxError::EINVAL,
            FsError::DeviceError => LxError::EIO,
            FsError::IOCTLError => LxError::EINVAL,
            FsError::NoDevice => LxError::EINVAL,
            FsError::Again => LxError::EAGAIN,
            FsError::SymLoop => LxError::ELOOP,
            FsError::Busy => LxError::EBUSY,
            FsError::Interrupted => LxError::EINTR,
        }
    }
}

impl vstd::std_specs::convert::FromSpecImpl<FsError> for LxError {
    open spec fn obeys_from_spec() -> bool {
        true
    }

    open spec fn from_spec(v: FsError) -> LxError {
        fs_to_lx(v)
    }
}

impl From<Error> for LxError {
    fn from(e: Error) -> LxError {
        match e {
            Error::InvalidUtf8 => LxError::EINVAL,
            Error::InvalidPointer => LxError::EFAULT,
            Error::BufferTooSmall => LxError::ENOBUFS,
            Error::InvalidLength => LxError::EINVAL,
            Error::InvalidVectorAddress => LxError::EINVAL,
        }
    }
}

impl vstd::std_specs::convert::FromSpecImpl<Error> for LxError {
    open spec fn obeys_from_spec() -> bool {
        true
    }

    open spec fn from_spec(v: Error) -> LxError {
        user_to_lx(v)
    }
}

} // verus!
