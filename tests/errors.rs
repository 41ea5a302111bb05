use kernel_errors::{describe, Error, FsError, LxError, ZxError};

const ALL_LX: [LxError; 50] = [
    LxError::EUNDEF,
    LxError::EPERM,
    LxError::ENOENT,
    LxError::ESRCH,
    LxError::EINTR,
    LxError::EIO,
    LxError::ENXIO,
    LxError::E2BIG,
    LxError::ENOEXEC,
    LxError::EBADF,
    LxError::ECHILD,
    LxError::EAGAIN,
    LxError::ENOMEM,
    LxError::EACCES,
    LxError::EFAULT,
    LxError::ENOTBLK,
    LxError::EBUSY,
    LxError::EEXIST,
    LxError::EXDEV,
    LxError::ENODEV,
    LxError::ENOTDIR,
    LxError::EISDIR,
    LxError::EINVAL,
    LxError::ENFILE,
    LxError::EMFILE,
    LxError::ENOTTY,
    LxError::ETXTBSY,
    LxError::EFBIG,
    LxError::ENOSPC,
    LxError::ESPIPE,
    LxError::EROFS,
    LxError::EMLINK,
    LxError::EPIPE,
    LxError::EDOM,
    LxError::ERANGE,
    LxError::EDEADLK,
    LxError::ENAMETOOLONG,
    LxError::ENOLCK,
    LxError::ENOSYS,
    LxError::ENOTEMPTY,
    LxError::ELOOP,
    LxError::EIDRM,
    LxError::ENOTSOCK,
    LxError::ENOPROTOOPT,
    LxError::EPFNOSUPPORT,
    LxError::EAFNOSUPPORT,
    LxError::ENOBUFS,
    LxError::EISCONN,
    LxError::ENOTCONN,
    LxError::ECONNREFUSED,
];

const ALL_ZX: [ZxError; 45] = [
    ZxError::INTERNAL,
    ZxError::NOT_SUPPORTED,
    ZxError::NO_RESOURCES,
    ZxError::NO_MEMORY,
    ZxError::INTERNAL_INTR_RETRY,
    ZxError::INVALID_ARGS,
    ZxError::BAD_HANDLE,
    ZxError::WRONG_TYPE,
    ZxError::BAD_SYSCALL,
    ZxError::OUT_OF_RANGE,
    ZxError::BUFFER_TOO_SMALL,
    ZxError::BAD_STATE,
    ZxError::TIMED_OUT,
    ZxError::SHOULD_WAIT,
    ZxError::CANCELED,
    ZxError::PEER_CLOSED,
    ZxError::NOT_FOUND,
    ZxError::ALREADY_EXISTS,
    ZxError::ALREADY_BOUND,
    ZxError::UNAVAILABLE,
    ZxError::ACCESS_DENIED,
    ZxError::IO,
    ZxError::IO_REFUSED,
    ZxError::IO_DATA_INTEGRITY,
    ZxError::IO_DATA_LOSS,
    ZxError::IO_NOT_PRESENT,
    ZxError::IO_OVERRUN,
    ZxError::IO_MISSED_DEADLINE,
    ZxError::IO_INVALID,
    ZxError::BAD_PATH,
    ZxError::NOT_DIR,
    ZxError::NOT_FILE,
    ZxError::FILE_BIG,
    ZxError::NO_SPACE,
    ZxError::NOT_EMPTY,
    ZxError::STOP,
    ZxError::NEXT,
    ZxError::ASYNC,
    ZxError::PROTOCOL_NOT_SUPPORTED,
    ZxError::ADDRESS_UNREACHABLE,
    ZxError::ADDRESS_IN_USE,
    ZxError::NOT_CONNECTED,
    ZxError::CONNECTION_REFUSED,
    ZxError::CONNECTION_RESET,
    ZxError::CONNECTION_ABORTED,
];

const ALL_FS: [FsError; 19] = [
    FsError::NotSupported,
    FsError::NotFile,
    FsError::IsDir,
    FsError::NotDir,
    FsError::EntryNotFound,
    FsError::EntryExist,
    FsError::NotSameFs,
    FsError::InvalidParam,
    FsError::NoDeviceSpace,
    FsError::DirRemoved,
    FsError::DirNotEmpty,
    FsError::WrongFs,
    FsError::DeviceError,
    FsError::IOCTLError,
    FsError::NoDevice,
    FsError::Again,
    FsError::SymLoop,
    FsError::Busy,
    FsError::Interrupted,
];

const ALL_USER: [Error; 5] = [
    Error::InvalidUtf8,
    Error::InvalidPointer,
    Error::BufferTooSmall,
    Error::InvalidLength,
    Error::InvalidVectorAddress,
];

#[test]
fn describe_matches_explain_for_every_error() {
    for e in ALL_LX {
        let d = describe(e.code());
        assert!(!d.is_empty());
        assert_eq!(d, e.explain());
        assert_eq!(d, describe(e.code()));
    }
}

#[test]
fn describe_gives_documented_strings() {
    assert_eq!(describe(0), "Unknown error");
    assert_eq!(describe(1), "Operation not permitted");
    assert_eq!(describe(2), "No such file or directory");
    assert_eq!(describe(3), "No such process");
    assert_eq!(describe(4), "Interrupted system call");
    assert_eq!(describe(5), "I/O error");
    assert_eq!(describe(6), "No such device or address");
    assert_eq!(describe(7), "Argument list too long");
    assert_eq!(describe(8), "Exec format error");
    assert_eq!(describe(9), "Bad file number");
    assert_eq!(describe(10), "No child processes");
    assert_eq!(describe(11), "Try again");
    assert_eq!(describe(12), "Out of memory");
    assert_eq!(describe(13), "Permission denied");
    assert_eq!(describe(14), "Bad address");
    assert_eq!(describe(15), "Block device required");
    assert_eq!(describe(16), "Device or resource busy");
    assert_eq!(describe(17), "File exists");
    assert_eq!(describe(18), "Cross-device link");
    assert_eq!(describe(19), "No such device");
    assert_eq!(describe(20), "Not a directory");
    assert_eq!(describe(21), "Is a directory");
    assert_eq!(describe(22), "Invalid argument");
    assert_eq!(describe(23), "File table overflow");
    assert_eq!(describe(24), "Too many open files");
    assert_eq!(describe(25), "Not a typewriter");
    assert_eq!(describe(26), "Text file busy");
    assert_eq!(describe(27), "File too large");
    assert_eq!(describe(28), "No space left on device");
    assert_eq!(describe(29), "Illegal seek");
    assert_eq!(describe(30), "Read-only file system");
    assert_eq!(describe(31), "Too many links");
    assert_eq!(describe(32), "Broken pipe");
    assert_eq!(describe(33), "Math argument out of domain of func");
    assert_eq!(describe(34), "Math result not representable");
    assert_eq!(describe(35), "Resource deadlock would occur");
    assert_eq!(describe(36), "File name too long");
    assert_eq!(describe(37), "No record locks available");
    assert_eq!(describe(38), "Function not implemented");
    assert_eq!(describe(39), "Directory not empty");
    assert_eq!(describe(40), "Too many symbolic links encountered");
    assert_eq!(describe(43), "Identifier removed");
    assert_eq!(describe(88), "Socket operation on non-socket");
    assert_eq!(describe(92), "Protocol not available");
    assert_eq!(describe(96), "Protocol family not supported");
    assert_eq!(describe(97), "Address family not supported by protocol");
    assert_eq!(describe(105), "No buffer space available");
    assert_eq!(describe(106), "Transport endpoint is already connected");
    assert_eq!(describe(107), "Transport endpoint is not connected");
    assert_eq!(describe(111), "Connection refused");
}

#[test]
fn describe_unassigned_codes_is_generic() {
    for c in [-1isize, 41, 42, 44, 87, 100, 112, 1000, isize::MAX, isize::MIN] {
        assert_eq!(describe(c), "Unknown error");
    }
}

#[test]
fn linux_codes_are_posix_numbers() {
    assert_eq!(LxError::EUNDEF.code(), 0);
    assert_eq!(LxError::EPERM.code(), 1);
    assert_eq!(LxError::ENOENT.code(), 2);
    assert_eq!(LxError::ESRCH.code(), 3);
    assert_eq!(LxError::EINTR.code(), 4);
    assert_eq!(LxError::EIO.code(), 5);
    assert_eq!(LxError::ENXIO.code(), 6);
    assert_eq!(LxError::E2BIG.code(), 7);
    assert_eq!(LxError::ENOEXEC.code(), 8);
    assert_eq!(LxError::EBADF.code(), 9);
    assert_eq!(LxError::ECHILD.code(), 10);
    assert_eq!(LxError::EAGAIN.code(), 11);
    assert_eq!(LxError::ENOMEM.code(), 12);
    assert_eq!(LxError::EACCES.code(), 13);
    assert_eq!(LxError::EFAULT.code(), 14);
    assert_eq!(LxError::ENOTBLK.code(), 15);
    assert_eq!(LxError::EBUSY.code(), 16);
    assert_eq!(LxError::EEXIST.code(), 17);
    assert_eq!(LxError::EXDEV.code(), 18);
    assert_eq!(LxError::ENODEV.code(), 19);
    assert_eq!(LxError::ENOTDIR.code(), 20);
    assert_eq!(LxError::EISDIR.code(), 21);
    assert_eq!(LxError::EINVAL.code(), 22);
    assert_eq!(LxError::ENFILE.code(), 23);
    assert_eq!(LxError::EMFILE.code(), 24);
    assert_eq!(LxError::ENOTTY.code(), 25);
    assert_eq!(LxError::ETXTBSY.code(), 26);
    assert_eq!(LxError::EFBIG.code(), 27);
    assert_eq!(LxError::ENOSPC.code(), 28);
    assert_eq!(LxError::ESPIPE.code(), 29);
    assert_eq!(LxError::EROFS.code(), 30);
    assert_eq!(LxError::EMLINK.code(), 31);
    assert_eq!(LxError::EPIPE.code(), 32);
    assert_eq!(LxError::EDOM.code(), 33);
    assert_eq!(LxError::ERANGE.code(), 34);
    assert_eq!(LxError::EDEADLK.code(), 35);
    assert_eq!(LxError::ENAMETOOLONG.code(), 36);
    assert_eq!(LxError::ENOLCK.code(), 37);
    assert_eq!(LxError::ENOSYS.code(), 38);
    assert_eq!(LxError::ENOTEMPTY.code(), 39);
    assert_eq!(LxError::ELOOP.code(), 40);
    assert_eq!(LxError::EIDRM.code(), 43);
    assert_eq!(LxError::ENOTSOCK.code(), 88);
    assert_eq!(LxError::ENOPROTOOPT.code(), 92);
    assert_eq!(LxError::EPFNOSUPPORT.code(), 96);
    assert_eq!(LxError::EAFNOSUPPORT.code(), 97);
    assert_eq!(LxError::ENOBUFS.code(), 105);
    assert_eq!(LxError::EISCONN.code(), 106);
    assert_eq!(LxError::ENOTCONN.code(), 107);
    assert_eq!(LxError::ECONNREFUSED.code(), 111);
}

#[test]
fn linux_codes_are_distinct() {
    for (i, a) in ALL_LX.iter().enumerate() {
        for (j, b) in ALL_LX.iter().enumerate() {
            assert_eq!(i == j, a.code() == b.code());
            assert_eq!(i == j, a == b);
        }
    }
}

#[test]
fn from_code_inverts_code() {
    for e in ALL_LX {
        assert_eq!(LxError::from_code(e.code()), Some(e));
    }
    assert_eq!(LxError::from_code(41), None);
    assert_eq!(LxError::from_code(-1), None);
    assert_eq!(LxError::from_code(112), None);
}

#[test]
fn code_stability() {
    assert_eq!(LxError::EPERM.code(), 1);
    assert_eq!(LxError::ENOENT.code(), 2);
    assert_eq!(LxError::ECONNREFUSED.code(), 111);
    assert_eq!(ZxError::INTERNAL.code(), -1);
}

#[test]
fn zircon_codes_are_native_numbers() {
    assert_eq!(ZxError::INTERNAL.code(), -1);
    assert_eq!(ZxError::NOT_SUPPORTED.code(), -2);
    assert_eq!(ZxError::NO_RESOURCES.code(), -3);
    assert_eq!(ZxError::NO_MEMORY.code(), -4);
    assert_eq!(ZxError::INTERNAL_INTR_RETRY.code(), -6);
    assert_eq!(ZxError::INVALID_ARGS.code(), -10);
    assert_eq!(ZxError::BAD_HANDLE.code(), -11);
    assert_eq!(ZxError::WRONG_TYPE.code(), -12);
    assert_eq!(ZxError::BAD_SYSCALL.code(), -13);
    assert_eq!(ZxError::OUT_OF_RANGE.code(), -14);
    assert_eq!(ZxError::BUFFER_TOO_SMALL.code(), -15);
    assert_eq!(ZxError::BAD_STATE.code(), -20);
    assert_eq!(ZxError::TIMED_OUT.code(), -21);
    assert_eq!(ZxError::SHOULD_WAIT.code(), -22);
    assert_eq!(ZxError::CANCELED.code(), -23);
    assert_eq!(ZxError::PEER_CLOSED.code(), -24);
    assert_eq!(ZxError::NOT_FOUND.code(), -25);
    assert_eq!(ZxError::ALREADY_EXISTS.code(), -26);
    assert_eq!(ZxError::ALREADY_BOUND.code(), -27);
    assert_eq!(ZxError::UNAVAILABLE.code(), -28);
    assert_eq!(ZxError::ACCESS_DENIED.code(), -30);
    assert_eq!(ZxError::IO.code(), -40);
    assert_eq!(ZxError::IO_REFUSED.code(), -41);
    assert_eq!(ZxError::IO_DATA_INTEGRITY.code(), -42);
    assert_eq!(ZxError::IO_DATA_LOSS.code(), -43);
    assert_eq!(ZxError::IO_NOT_PRESENT.code(), -44);
    assert_eq!(ZxError::IO_OVERRUN.code(), -45);
    assert_eq!(ZxError::IO_MISSED_DEADLINE.code(), -46);
    assert_eq!(ZxError::IO_INVALID.code(), -47);
    assert_eq!(ZxError::BAD_PATH.code(), -50);
    assert_eq!(ZxError::NOT_DIR.code(), -51);
    assert_eq!(ZxError::NOT_FILE.code(), -52);
    assert_eq!(ZxError::FILE_BIG.code(), -53);
    assert_eq!(ZxError::NO_SPACE.code(), -54);
    assert_eq!(ZxError::NOT_EMPTY.code(), -55);
    assert_eq!(ZxError::STOP.code(), -60);
    assert_eq!(ZxError::NEXT.code(), -61);
    assert_eq!(ZxError::ASYNC.code(), -62);
    assert_eq!(ZxError::PROTOCOL_NOT_SUPPORTED.code(), -70);
    assert_eq!(ZxError::ADDRESS_UNREACHABLE.code(), -71);
    assert_eq!(ZxError::ADDRESS_IN_USE.code(), -72);
    assert_eq!(ZxError::NOT_CONNECTED.code(), -73);
    assert_eq!(ZxError::CONNECTION_REFUSED.code(), -74);
    assert_eq!(ZxError::CONNECTION_RESET.code(), -75);
    assert_eq!(ZxError::CONNECTION_ABORTED.code(), -76);
}

#[test]
fn zircon_codes_are_negative_and_distinct() {
    for (i, a) in ALL_ZX.iter().enumerate() {
        assert!(a.code() < 0);
        for (j, b) in ALL_ZX.iter().enumerate() {
            assert_eq!(i == j, a.code() == b.code());
        }
    }
}

#[test]
fn every_upstream_error_converts() {
    for e in ALL_FS {
        let _ = LxError::from(e);
    }
    for e in ALL_USER {
        let _ = LxError::from(e);
        let _ = ZxError::from(e);
    }
}

#[test]
fn filesystem_table() {
    let expected = [
        LxError::ENOSYS,
        LxError::EISDIR,
        LxError::EISDIR,
        LxError::ENOTDIR,
        LxError::ENOENT,
        LxError::EEXIST,
        LxError::EXDEV,
        LxError::EINVAL,
        LxError::ENOMEM,
        LxError::ENOENT,
        LxError::ENOTEMPTY,
        LxError::EINVAL,
        LxError::EIO,
        LxError::EINVAL,
        LxError::EINVAL,
        LxError::EAGAIN,
        LxError::ELOOP,
        LxError::EBUSY,
        LxError::EINTR,
    ];
    for (f, l) in ALL_FS.iter().zip(expected.iter()) {
        assert_eq!(LxError::from(*f), *l);
    }
}

#[test]
fn not_file_and_is_dir_collapse() {
    assert_eq!(LxError::from(FsError::NotFile), LxError::EISDIR);
    assert_eq!(LxError::from(FsError::IsDir), LxError::EISDIR);
}

#[test]
fn user_tables() {
    let lx = [LxError::EINVAL, LxError::EFAULT, LxError::ENOBUFS, LxError::EINVAL, LxError::EINVAL];
    let zx = [
        ZxError::INVALID_ARGS,
        ZxError::INVALID_ARGS,
        ZxError::BUFFER_TOO_SMALL,
        ZxError::INVALID_ARGS,
        ZxError::NOT_FOUND,
    ];
    for i in 0..5 {
        assert_eq!(LxError::from(ALL_USER[i]), lx[i]);
        assert_eq!(ZxError::from(ALL_USER[i]), zx[i]);
    }
}

#[test]
fn invalid_pointer_differs_by_target_space() {
    assert_eq!(LxError::from(Error::InvalidPointer), LxError::EFAULT);
    assert_eq!(ZxError::from(Error::InvalidPointer), ZxError::INVALID_ARGS);
}

#[test]
fn should_wait_and_peer_closed() {
    assert_eq!(LxError::from_zircon(ZxError::SHOULD_WAIT), LxError::EAGAIN);
    assert_eq!(LxError::from_zircon(ZxError::PEER_CLOSED), LxError::EPIPE);
}

#[test]
fn zircon_table() {
    let mapped = [
        (ZxError::INVALID_ARGS, LxError::EINVAL),
        (ZxError::NOT_SUPPORTED, LxError::ENOSYS),
        (ZxError::ALREADY_EXISTS, LxError::EEXIST),
        (ZxError::SHOULD_WAIT, LxError::EAGAIN),
        (ZxError::PEER_CLOSED, LxError::EPIPE),
        (ZxError::BAD_HANDLE, LxError::EBADF),
    ];
    for (z, l) in mapped {
        assert_eq!(LxError::try_from_zircon(z), Some(l));
        assert_eq!(LxError::from_zircon(z), l);
    }
    let mut n_mapped = 0;
    for z in ALL_ZX {
        match LxError::try_from_zircon(z) {
            Some(_) => n_mapped += 1,
            None => assert!(mapped.iter().all(|(m, _)| *m != z)),
        }
    }
    assert_eq!(n_mapped, 6);
}

#[test]
fn flow_control_has_no_posix_analogue() {
    assert_eq!(LxError::try_from_zircon(ZxError::STOP), None);
    assert_eq!(LxError::try_from_zircon(ZxError::NEXT), None);
    assert_eq!(LxError::try_from_zircon(ZxError::ASYNC), None);
    assert_eq!(LxError::try_from_zircon(ZxError::WRONG_TYPE), None);
}
