use vstd::prelude::*;

verus! {

/// The errors that accessing user memory raises.
#[derive(Debug, Clone, Copy, PartialEq, Eq, Structural)]
pub enum Error {
    /// The bytes read are not valid UTF-8.
    InvalidUtf8,
    /// The pointer does not refer to accessible user memory.
    InvalidPointer,
    /// The buffer is too small for the data.
    BufferTooSmall,
    /// The length is invalid.
    InvalidLength,
    /// The address of an I/O vector is invalid.
    InvalidVectorAddress,
}

} // verus!
