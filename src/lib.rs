//! Error spaces of a kernel and the conversions between them: POSIX-style
//! `errno` codes for user-facing calls, the kernel's native signed status
//! codes, and the errors of the filesystem and user-memory layers.
pub mod fs;
pub mod linux;
pub mod user;
pub mod zircon;

pub use fs::FsError;
pub use linux::{describe, LxError};
pub use user::Error;
pub use zircon::ZxError;
