//! The descriptor capability: the object wrapping an open file's raw handle
//! and the bound operations through which the file is used.
//!
//! Each operation has two verified halves. The planning half marshals the
//! script-level arguments into the exact integer values the host call takes.
//! The completion half turns the host's status code and payload back into a
//! script-level result, recording the status in the last-error slot. The
//! host call itself — a synchronous, integer-only import — is performed by
//! the embedding program between the two.

use vstd::prelude::*;

use crate::error::{ArgShape, Op, ShimError, ValidationFault};
use crate::filestat::{decode_filestat, decode_filestat_spec, Filestat};
use crate::lasterr::{process_error, slot_after, status_outcome_spec, LastError};
use crate::script::{clamp_size, clamp_size_spec, utf8_to_string, ScriptValue};
use vstd::slice::{slice_subrange, slice_to_vec};
use vstd::utf8::{decode_utf8, valid_utf8};

verus! {

/// Set the access time to the given timestamp.
pub const FSTFLAGS_ATIM: u16 = 1;

/// Set the access time to now.
pub const FSTFLAGS_ATIM_NOW: u16 = 2;

/// Set the modification time to the given timestamp.
pub const FSTFLAGS_MTIM: u16 = 4;

/// Set the modification time to now.
pub const FSTFLAGS_MTIM_NOW: u16 = 8;

/// The capability for an open file: owns exactly one raw handle, created
/// once per successful open. The handle is opaque — the host is the sole
/// authority on its validity — and is not reference-counted; the holder
/// must close it explicitly, and use after close is answered by the host,
/// not guarded here.
#[derive(Debug)]
pub struct Descriptor(i32);

/// An I/O vector of the host interface: a raw pointer encoded as an integer
/// and the byte count there. Built by the embedding program from a planned
/// transfer; valid only for the duration of one call, never stored.
pub struct Iovec {
    /// The region's address, as the integer the host takes.
    pub buf: i32,
    /// The region's byte count.
    pub buf_len: u32,
}

impl Descriptor {
    /// The raw handle this capability owns.
    pub closed spec fn raw_spec(&self) -> i32 {
        self.0
    }

    /// Wraps a raw handle the host produced in a new capability.
    pub fn new(fd: i32) -> (d: Descriptor)
        ensures
            d.raw_spec() == fd,
    {
        Descriptor(fd)
    }

    /// The raw handle, for the host call the embedding program performs.
    pub fn raw(&self) -> (fd: i32)
        ensures
            fd == self.raw_spec(),
    {
        self.0
    }
}

/// A planned data transfer: the handle and the byte count to move, already
/// clamped to the backing buffer.
#[derive(Clone, Copy, Debug, PartialEq, Eq, Structural)]
pub struct IoPlan {
    /// The raw handle the transfer acts on.
    pub fd: i32,
    /// The byte count to move: never beyond the backing buffer's length.
    pub len: usize,
}

/// What planning a read or write from the argument list yields: the first
/// argument must be a byte buffer, and the optional second is the size,
/// clamped to the buffer.
pub open spec fn io_plan_spec(fd: i32, args: Seq<ScriptValue>, op: Op) -> Result<
    IoPlan,
    ShimError,
> {
    if args.len() < 1 {
        Err(
            ShimError::Validation(
                op,
                ValidationFault::Arity { expected: 1, got: args.len() as usize },
            ),
        )
    } else {
        match args[0] {
            ScriptValue::Buffer(b) => match clamp_size_spec(
                if args.len() > 1 {
                    Some(args[1])
                } else {
                    None
                },
                b@.len() as int,
                op,
            ) {
                Ok(n) => Ok(IoPlan { fd, len: n as usize }),
                Err(e) => Err(e),
            },
            _ => Err(
                ShimError::Validation(
                    op,
                    ValidationFault::WrongType { index: 0, wanted: ArgShape::Buffer },
                ),
            ),
        }
    }
}

/// Marshals a transfer's argument list: the backing buffer and the optional
/// explicit size.
fn transfer_plan(fd: i32, args: &Vec<ScriptValue>, op: Op) -> (r: Result<IoPlan, ShimError>)
    ensures
        r == io_plan_spec(fd, args@, op),
{
    if args.len() < 1 {
        return Err(
            ShimError::Validation(op, ValidationFault::Arity { expected: 1, got: args.len() }),
        );
    }
    let buf = args[0].marshal_buffer(op, 0)?;
    let size_arg = if args.len() > 1 {
        Some(&args[1])
    } else {
        None
    };
    let len = clamp_size(size_arg, buf.len(), op)?;
    Ok(IoPlan { fd, len })
}

/// A planned seek: the handle, the offset and what it is relative to.
#[derive(Clone, Copy, Debug, PartialEq, Eq, Structural)]
pub struct SeekPlan {
    /// The raw handle.
    pub fd: i32,
    /// The byte offset to seek by.
    pub offset: i64,
    /// What the offset is relative to: 0 the start, 1 the current position,
    /// 2 the end.
    pub whence: i32,
}

/// What planning a seek from the argument list yields.
pub open spec fn seek_plan_spec(fd: i32, args: Seq<ScriptValue>) -> Result<SeekPlan, ShimError> {
    if args.len() < 2 {
        Err(
            ShimError::Validation(
                Op::Seek,
                ValidationFault::Arity { expected: 2, got: args.len() as usize },
            ),
        )
    } else {
        match args[0].as_int64_spec() {
            None => Err(
                ShimError::Validation(
                    Op::Seek,
                    ValidationFault::WrongType { index: 0, wanted: ArgShape::Int64 },
                ),
            ),
            Some(offset) => match args[1].as_int32_spec() {
                None => Err(
                    ShimError::Validation(
                        Op::Seek,
                        ValidationFault::WrongType { index: 1, wanted: ArgShape::Int32 },
                    ),
                ),
                Some(whence) => Ok(SeekPlan { fd, offset, whence }),
            },
        }
    }
}

/// A planned advice call: the region advised about and the advice code.
#[derive(Clone, Copy, Debug, PartialEq, Eq, Structural)]
pub struct AdvisePlan {
    /// The raw handle.
    pub fd: i32,
    /// The region's byte offset from the start of the file.
    pub offset: i64,
    /// The region's byte count.
    pub len: i64,
    /// The advice code: 0 normal, 1 random, 2 sequential, 3 will need to
    /// read, 4 will need to write.
    pub advice: i32,
}

/// What planning an advice call from the argument list yields.
pub open spec fn advise_plan_spec(fd: i32, args: Seq<ScriptValue>) -> Result<
    AdvisePlan,
    ShimError,
> {
    if args.len() < 3 {
        Err(
            ShimError::Validation(
                Op::Advise,
                ValidationFault::Arity { expected: 3, got: args.len() as usize },
            ),
        )
    } else {
        match args[0].as_int64_spec() {
            None => Err(
                ShimError::Validation(
                    Op::Advise,
                    ValidationFault::WrongType { index: 0, wanted: ArgShape::Int64 },
                ),
            ),
            Some(offset) => match args[1].as_int64_spec() {
                None => Err(
                    ShimError::Validation(
                        Op::Advise,
                        ValidationFault::WrongType { index: 1, wanted: ArgShape::Int64 },
                    ),
                ),
                Some(len) => match args[2].as_int32_spec() {
                    None => Err(
                        ShimError::Validation(
                            Op::Advise,
                            ValidationFault::WrongType { index: 2, wanted: ArgShape::Int32 },
                        ),
                    ),
                    Some(advice) => Ok(AdvisePlan { fd, offset, len, advice }),
                },
            },
        }
    }
}

/// A planned allocation: the region to reserve.
#[derive(Clone, Copy, Debug, PartialEq, Eq, Structural)]
pub struct AllocatePlan {
    /// The raw handle.
    pub fd: i32,
    /// The region's byte offset from the start of the file.
    pub offset: i64,
    /// The region's byte count.
    pub len: i64,
}

/// What planning an allocation from the argument list yields.
pub open spec fn allocate_plan_spec(fd: i32, args: Seq<ScriptValue>) -> Result<
    AllocatePlan,
    ShimError,
> {
    if args.len() < 2 {
        Err(
            ShimError::Validation(
                Op::Allocate,
                ValidationFault::Arity { expected: 2, got: args.len() as usize },
            ),
        )
    } else {
        match args[0].as_int64_spec() {
            None => Err(
                ShimError::Validation(
                    Op::Allocate,
                    ValidationFault::WrongType { index: 0, wanted: ArgShape::Int64 },
                ),
            ),
            Some(offset) => match args[1].as_int64_spec() {
                None => Err(
                    ShimError::Validation(
                        Op::Allocate,
                        ValidationFault::WrongType { index: 1, wanted: ArgShape::Int64 },
                    ),
                ),
                Some(len) => Ok(AllocatePlan { fd, offset, len }),
            },
        }
    }
}

/// A planned timestamp update.
#[derive(Clone, Copy, Debug, PartialEq, Eq, Structural)]
pub struct TimesPlan {
    /// The raw handle.
    pub fd: i32,
    /// The access timestamp, meaningful when the flags say so.
    pub atim: i64,
    /// The modification timestamp, meaningful when the flags say so.
    pub mtim: i64,
    /// Which of the two times to set, and whether to the given value or to
    /// now.
    pub flags: u16,
}

/// What planning a one-timestamp update yields: the single argument is the
/// timestamp, placed as access or modification time by `atim_not_mtim`.
pub open spec fn one_time_plan_spec(fd: i32, args: Seq<ScriptValue>, atim_not_mtim: bool) -> Result<
    TimesPlan,
    ShimError,
> {
    let op = if atim_not_mtim {
        Op::Fatime
    } else {
        Op::Fmtime
    };
    if args.len() < 1 {
        Err(
            ShimError::Validation(
                op,
                ValidationFault::Arity { expected: 1, got: args.len() as usize },
            ),
        )
    } else {
        match args[0].as_int64_spec() {
            None => Err(
                ShimError::Validation(
                    op,
                    ValidationFault::WrongType { index: 0, wanted: ArgShape::Int64 },
                ),
            ),
            Some(ts) => Ok(
                if atim_not_mtim {
                    TimesPlan { fd, atim: ts, mtim: 0, flags: FSTFLAGS_ATIM }
                } else {
                    TimesPlan { fd, atim: 0, mtim: ts, flags: FSTFLAGS_MTIM }
                },
            ),
        }
    }
}

/// A planned truncation: the length to cut or grow the file to.
#[derive(Clone, Copy, Debug, PartialEq, Eq, Structural)]
pub struct TruncatePlan {
    /// The raw handle.
    pub fd: i32,
    /// The byte length the file is set to.
    pub len: i64,
}

/// What planning a truncation from the argument list yields.
pub open spec fn truncate_plan_spec(fd: i32, args: Seq<ScriptValue>) -> Result<
    TruncatePlan,
    ShimError,
> {
    if args.len() < 1 {
        Err(
            ShimError::Validation(
                Op::Ftruncate,
                ValidationFault::Arity { expected: 1, got: args.len() as usize },
            ),
        )
    } else {
        match args[0].as_int64_spec() {
            None => Err(
                ShimError::Validation(
                    Op::Ftruncate,
                    ValidationFault::WrongType { index: 0, wanted: ArgShape::Int64 },
                ),
            ),
            Some(len) => Ok(TruncatePlan { fd, len }),
        }
    }
}

/// A planned flag update: the new flag word for the handle.
#[derive(Clone, Copy, Debug, PartialEq, Eq, Structural)]
pub struct SetFlagsPlan {
    /// The raw handle.
    pub fd: i32,
    /// The new flag word, as marshalled; the host takes its low 16 bits.
    pub flags: i32,
}

/// What planning a flag update from the argument list yields.
pub open spec fn set_flags_plan_spec(fd: i32, args: Seq<ScriptValue>) -> Result<
    SetFlagsPlan,
    ShimError,
> {
    if args.len() < 1 {
        Err(
            ShimError::Validation(
                Op::SetFlags,
                ValidationFault::Arity { expected: 1, got: args.len() as usize },
            ),
        )
    } else {
        match args[0].as_int32_spec() {
            None => Err(
                ShimError::Validation(
                    Op::SetFlags,
                    ValidationFault::WrongType { index: 0, wanted: ArgShape::Int32 },
                ),
            ),
            Some(flags) => Ok(SetFlagsPlan { fd, flags }),
        }
    }
}

impl Descriptor {
    /// Plans a read: the buffer to fill and the clamped byte count.
    pub fn read_plan(&self, args: &Vec<ScriptValue>) -> (r: Result<IoPlan, ShimError>)
        ensures
            r == io_plan_spec(self.raw_spec(), args@, Op::Read),
    {
        transfer_plan(self.0, args, Op::Read)
    }

    /// Plans a write: the buffer to send and the clamped byte count.
    pub fn write_plan(&self, args: &Vec<ScriptValue>) -> (r: Result<IoPlan, ShimError>)
        ensures
            r == io_plan_spec(self.raw_spec(), args@, Op::Write),
    {
        transfer_plan(self.0, args, Op::Write)
    }

    /// Plans a seek from the offset and whence arguments.
    pub fn seek_plan(&self, args: &Vec<ScriptValue>) -> (r: Result<SeekPlan, ShimError>)
        ensures
            r == seek_plan_spec(self.raw_spec(), args@),
    {
        if args.len() < 2 {
            return Err(
                ShimError::Validation(
                    Op::Seek,
                    ValidationFault::Arity { expected: 2, got: args.len() },
                ),
            );
        }
        let offset = args[0].marshal_int64(Op::Seek, 0)?;
        let whence = args[1].marshal_int32(Op::Seek, 1)?;
        Ok(SeekPlan { fd: self.0, offset, whence })
    }

    /// Plans an advice call from the offset, length and advice arguments.
    pub fn advise_plan(&self, args: &Vec<ScriptValue>) -> (r: Result<AdvisePlan, ShimError>)
        ensures
            r == advise_plan_spec(self.raw_spec(), args@),
    {
        if args.len() < 3 {
            return Err(
                ShimError::Validation(
                    Op::Advise,
                    ValidationFault::Arity { expected: 3, got: args.len() },
                ),
            );
        }
        let offset = args[0].marshal_int64(Op::Advise, 0)?;
        let len = args[1].marshal_int64(Op::Advise, 1)?;
        let advice = args[2].marshal_int32(Op::Advise, 2)?;
        Ok(AdvisePlan { fd: self.0, offset, len, advice })
    }

    /// Plans an allocation from the offset and length arguments.
    pub fn allocate_plan(&self, args: &Vec<ScriptValue>) -> (r: Result<AllocatePlan, ShimError>)
        ensures
            r == allocate_plan_spec(self.raw_spec(), args@),
    {
        if args.len() < 2 {
            return Err(
                ShimError::Validation(
                    Op::Allocate,
                    ValidationFault::Arity { expected: 2, got: args.len() },
                ),
            );
        }
        let offset = args[0].marshal_int64(Op::Allocate, 0)?;
        let len = args[1].marshal_int64(Op::Allocate, 1)?;
        Ok(AllocatePlan { fd: self.0, offset, len })
    }

    /// Plans setting the access time to the given timestamp.
    pub fn fatime_plan(&self, args: &Vec<ScriptValue>) -> (r: Result<TimesPlan, ShimError>)
        ensures
            r == one_time_plan_spec(self.raw_spec(), args@, true),
    {
        if args.len() < 1 {
            return Err(
                ShimError::Validation(
                    Op::Fatime,
                    ValidationFault::Arity { expected: 1, got: args.len() },
                ),
            );
        }
        let ts = args[0].marshal_int64(Op::Fatime, 0)?;
        Ok(TimesPlan { fd: self.0, atim: ts, mtim: 0, flags: FSTFLAGS_ATIM })
    }

    /// Plans setting the modification time to the given timestamp.
    pub fn fmtime_plan(&self, args: &Vec<ScriptValue>) -> (r: Result<TimesPlan, ShimError>)
        ensures
            r == one_time_plan_spec(self.raw_spec(), args@, false),
    {
        if args.len() < 1 {
            return Err(
                ShimError::Validation(
                    Op::Fmtime,
                    ValidationFault::Arity { expected: 1, got: args.len() },
                ),
            );
        }
        let ts = args[0].marshal_int64(Op::Fmtime, 0)?;
        Ok(TimesPlan { fd: self.0, atim: 0, mtim: ts, flags: FSTFLAGS_MTIM })
    }

    /// Plans setting both times to now.
    pub fn touch_plan(&self) -> (r: TimesPlan)
        ensures
            r == (TimesPlan {
                fd: self.raw_spec(),
                atim: 0,
                mtim: 0,
                flags: FSTFLAGS_ATIM_NOW | FSTFLAGS_MTIM_NOW,
            }),
    {
        TimesPlan { fd: self.0, atim: 0, mtim: 0, flags: FSTFLAGS_ATIM_NOW | FSTFLAGS_MTIM_NOW }
    }

    /// Plans a truncation from the length argument.
    pub fn ftruncate_plan(&self, args: &Vec<ScriptValue>) -> (r: Result<TruncatePlan, ShimError>)
        ensures
            r == truncate_plan_spec(self.raw_spec(), args@),
    {
        if args.len() < 1 {
            return Err(
                ShimError::Validation(
                    Op::Ftruncate,
                    ValidationFault::Arity { expected: 1, got: args.len() },
                ),
            );
        }
        let len = args[0].marshal_int64(Op::Ftruncate, 0)?;
        Ok(TruncatePlan { fd: self.0, len })
    }

    /// Plans a flag update from the flag-word argument.
    pub fn set_flags_plan(&self, args: &Vec<ScriptValue>) -> (r: Result<SetFlagsPlan, ShimError>)
        ensures
            r == set_flags_plan_spec(self.raw_spec(), args@),
    {
        if args.len() < 1 {
            return Err(
                ShimError::Validation(
                    Op::SetFlags,
                    ValidationFault::Arity { expected: 1, got: args.len() },
                ),
            );
        }
        let flags = args[0].marshal_int32(Op::SetFlags, 0)?;
        Ok(SetFlagsPlan { fd: self.0, flags })
    }
}

/// Completes an operation that yields a value: records the status in the
/// slot and hands the value through exactly when the host reported success;
/// a non-zero defined status raises the structured host error instead.
pub fn complete_with<T>(last: &mut LastError, status: i32, value: T) -> (r: Result<T, ShimError>)
    ensures
        slot_after(*old(last), *final(last), status as int),
        match status_outcome_spec(status as int) {
            Ok(u) => r matches Ok(v) && v == value,
            Err(e) => r matches Err(d) && d == e,
        },
{
    match process_error(last, status) {
        Ok(u) => Ok(value),
        Err(e) => Err(e),
    }
}

/// Completes a stat call: on host success the raw record is decoded — a
/// malformed record is a decode fault — and on host failure the structured
/// error is raised.
pub fn stat_outcome(last: &mut LastError, status: i32, raw: &Vec<u8>) -> (r: Result<
    Filestat,
    ShimError,
>)
    ensures
        slot_after(*old(last), *final(last), status as int),
        match status_outcome_spec(status as int) {
            Ok(u) => r == (match decode_filestat_spec(raw@) {
                Ok(fs) => Ok::<Filestat, ShimError>(fs),
                Err(f) => Err::<Filestat, ShimError>(ShimError::Decode(f)),
            }),
            Err(e) => r matches Err(d) && d == e,
        },
{
    process_error(last, status)?;
    decode_filestat(raw)
}

/// One step of reading the whole file: when the host moved bytes and
/// reported success, the chunk's prefix joins the accumulated data and the
/// loop goes on; an error or an empty read ends it.
pub fn read_all_step(data: &mut Vec<u8>, chunk: &Vec<u8>, status: i32, readn: usize) -> (done:
    bool)
    requires
        readn <= chunk@.len(),
    ensures
        done <==> (status != 0 || readn == 0),
        !done ==> final(data)@ == old(data)@ + chunk@.subrange(0, readn as int),
        done ==> *final(data) == *old(data),
{
    if status != 0 || readn == 0 {
        return true;
    }
    let mut prefix = slice_to_vec(slice_subrange(chunk.as_slice(), 0, readn));
    data.append(&mut prefix);
    false
}

/// Completes an operation whose payload is UTF-8 text — reading the whole
/// file as a string, or the prestat directory-name lookup: the bytes must
/// decode as UTF-8, and bytes that do not are a decode fault distinct from
/// any host error.
pub fn text_outcome(last: &mut LastError, status: i32, data: &Vec<u8>) -> (r: Result<
    String,
    ShimError,
>)
    ensures
        slot_after(*old(last), *final(last), status as int),
        match status_outcome_spec(status as int) {
            Ok(u) => if valid_utf8(data@) {
                r matches Ok(s) && s@ == decode_utf8(data@)
            } else {
                r == Err::<String, ShimError>(
                    ShimError::Decode(crate::error::DecodeFault::InvalidUtf8),
                )
            },
            Err(e) => r matches Err(d) && d == e,
        },
{
    process_error(last, status)?;
    match utf8_to_string(data) {
        Some(s) => Ok(s),
        None => Err(ShimError::Decode(crate::error::DecodeFault::InvalidUtf8)),
    }
}

/// One step of gathering a directory-entry stream: the chunk's read prefix
/// joins the gathered buffer; a short read — fewer bytes than the chunk
/// holds — ends the stream.
pub fn readdir_step(acc: &mut Vec<u8>, chunk: &Vec<u8>, readn: usize) -> (done: bool)
    requires
        readn <= chunk@.len(),
    ensures
        final(acc)@ == old(acc)@ + chunk@.subrange(0, readn as int),
        done <==> readn < chunk@.len(),
{
    let mut prefix = slice_to_vec(slice_subrange(chunk.as_slice(), 0, readn));
    acc.append(&mut prefix);
    readn < chunk.len()
}

} // verus!
