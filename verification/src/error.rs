//! The error taxonomy of the shim.
//!
//! Every failure is scoped to the failing call: validation faults raised
//! before any host call, decode faults for malformed binary payloads,
//! host-reported errno failures, and internal-consistency faults for status
//! codes outside the defined range.

use vstd::prelude::*;

use crate::errno::WasiError;

verus! {

/// The operation on whose behalf an argument was being marshalled, named so
/// that a validation fault identifies the failing call.
#[derive(Clone, Copy, Debug, PartialEq, Eq, Structural)]
pub enum Op {
    Open,
    PrestatDirName,
    CreateDirectory,
    RemoveDirectory,
    UnlinkFile,
    Symlink,
    Link,
    Rename,
    PathFilestat,
    Close,
    Read,
    Write,
    ReadAll,
    ReadString,
    Readdir,
    Seek,
    Advise,
    Allocate,
    Ftruncate,
    Tell,
    Touch,
    SetFlags,
    Fatime,
    Fmtime,
    Stat,
    Fsync,
    Fdatasync,
    RandomFill,
    Base64Encode,
    Base64Decode,
}

/// What shape of argument a marshaller expected at a given position.
#[derive(Clone, Copy, Debug, PartialEq, Eq, Structural)]
pub enum ArgShape {
    /// A number representable as a signed 32-bit integer.
    Int32,
    /// A number or arbitrary-precision integer coerced to 64 bits.
    Int64,
    /// A text value whose bytes must decode as UTF-8.
    Text,
    /// A fixed-size byte buffer.
    Buffer,
}

/// A bad argument, caught before any host call.
#[derive(Clone, Copy, Debug, PartialEq, Eq, Structural)]
pub enum ValidationFault {
    /// Fewer arguments than the operation's arity demands.
    Arity { expected: usize, got: usize },
    /// The argument at `index` is not of the wanted shape.
    WrongType { index: usize, wanted: ArgShape },
    /// The argument at `index` is text whose bytes are not valid UTF-8;
    /// distinct from `WrongType`.
    InvalidUtf8 { index: usize },
    /// A requested transfer size is negative.
    NegativeSize,
    /// An offset/length pair reaches beyond the end of the buffer it
    /// addresses.
    OutOfBuffer { offset: usize, length: usize, buffer_len: usize },
}

/// A malformed binary payload handed back by the host.
#[derive(Clone, Copy, Debug, PartialEq, Eq, Structural)]
pub enum DecodeFault {
    /// A fixed-layout record arrived with the wrong byte count.
    WrongLength { expected: usize, got: usize },
    /// A file-status record carries a file-type code the host does not
    /// define.
    UnknownFileType { code: u8 },
    /// A directory-entry stream ended in the middle of an entry header.
    TruncatedEntryHeader { remaining: usize },
    /// A directory-entry header declares more name bytes than remain in the
    /// stream.
    NameOverrun { declared: usize, remaining: usize },
    /// Bytes that were promised to be UTF-8 text are not.
    InvalidUtf8,
    /// A base64 string could not be decoded.
    Base64,
}

/// Everything a shim call can fail with.
#[derive(Clone, Copy, Debug, PartialEq, Eq, Structural)]
pub enum ShimError {
    /// A bad argument: the operation it was for and what was wrong with it.
    Validation(Op, ValidationFault),
    /// A malformed binary payload from the host.
    Decode(DecodeFault),
    /// A failure the host reported through its status code.
    Host(WasiError),
    /// The host returned a status code outside the defined range.
    Internal(i32),
}

} // verus!
