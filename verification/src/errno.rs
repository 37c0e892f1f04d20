//! The errno taxonomy: the standardized failure codes the host can report,
//! each with its fixed description.

use vstd::prelude::*;

use crate::error::ShimError;

verus! {

/// A standardized host failure code, one of the values 1 through 76. Code 0
/// always denotes success and is not a member of the enumeration; it is
/// special-cased as "Success" wherever a description is surfaced, and codes
/// outside 0..=76 are an internal-consistency fault, never silently mapped.
#[derive(Clone, Copy, Debug, PartialEq, Eq, Structural)]
pub enum WasiError {
    TooBig,
    Access,
    AddrNotUse,
    AddrNotAvail,
    AfNoSupport,
    Again,
    Already,
    Badf,
    Badmsg,
    Busy,
    Canceled,
    Child,
    Connaborted,
    ConnRefused,
    ConnReset,
    Deadlk,
    Destaddrreq,
    Dom,
    Dquot,
    Exist,
    Fault,
    Fbig,
    Hostunreach,
    Idrm,
    Ilseq,
    Inprogress,
    Intr,
    Inval,
    Io,
    Isconn,
    Isdir,
    Loop,
    Mfile,
    Mlink,
    Msgsize,
    Multihop,
    Nametoolong,
    Netdown,
    Netreset,
    Netunreach,
    Nfile,
    Nobufs,
    Nodev,
    Noent,
    Noexec,
    Nolck,
    Nolink,
    Nomem,
    Nomsg,
    Noprotoopt,
    Nospc,
    Nosys,
    Notconn,
    Notdir,
    Notempty,
    Notrecoverable,
    Notsock,
    Notsup,
    Notty,
    Nxio,
    Overflow,
    Ownerdead,
    Perm,
    Pipe,
    Proto,
    Protonosupport,
    Prototype,
    Range,
    Rofs,
    Spipe,
    Srch,
    Stale,
    Timedout,
    Txtbsy,
    Xdev,
    Notcapable,
}

impl WasiError {
    /// The integer code of this errno value.
    pub open spec fn code_spec(self) -> int {
        match self {
            WasiError::TooBig => 1,
            WasiError::Access => 2,
            WasiError::AddrNotUse => 3,
            WasiError::AddrNotAvail => 4,
            WasiError::AfNoSupport => 5,
            WasiError::Again => 6,
            WasiError::Already => 7,
            WasiError::Badf => 8,
            WasiError::Badmsg => 9,
            WasiError::Busy => 10,
            WasiError::Canceled => 11,
            WasiError::Child => 12,
            WasiError::Connaborted => 13,
            WasiError::ConnRefused => 14,
            WasiError::ConnReset => 15,
            WasiError::Deadlk => 16,
            WasiError::Destaddrreq => 17,
            WasiError::Dom => 18,
            WasiError::Dquot => 19,
            WasiError::Exist => 20,
            WasiError::Fault => 21,
            WasiError::Fbig => 22,
            WasiError::Hostunreach => 23,
            WasiError::Idrm => 24,
            WasiError::Ilseq => 25,
            WasiError::Inprogress => 26,
            WasiError::Intr => 27,
            WasiError::Inval => 28,
            WasiError::Io => 29,
            WasiError::Isconn => 30,
            WasiError::Isdir => 31,
            WasiError::Loop => 32,
            WasiError::Mfile => 33,
            WasiError::Mlink => 34,
            WasiError::Msgsize => 35,
            WasiError::Multihop => 36,
            WasiError::Nametoolong => 37,
            WasiError::Netdown => 38,
            WasiError::Netreset => 39,
            WasiError::Netunreach => 40,
            WasiError::Nfile => 41,
            WasiError::Nobufs => 42,
            WasiError::Nodev => 43,
            WasiError::Noent => 44,
            WasiError::Noexec => 45,
            WasiError::Nolck => 46,
            WasiError::Nolink => 47,
            WasiError::Nomem => 48,
            WasiError::Nomsg => 49,
            WasiError::Noprotoopt => 50,
            WasiError::Nospc => 51,
            WasiError::Nosys => 52,
            WasiError::Notconn => 53,
            WasiError::Notdir => 54,
            WasiError::Notempty => 55,
            WasiError::Notrecoverable => 56,
            WasiError::Notsock => 57,
            WasiError::Notsup => 58,
            WasiError::Notty => 59,
            WasiError::Nxio => 60,
            WasiError::Overflow => 61,
            WasiError::Ownerdead => 62,
            WasiError::Perm => 63,
            WasiError::Pipe => 64,
            WasiError::Proto => 65,
            WasiError::Protonosupport => 66,
            WasiError::Prototype => 67,
            WasiError::Range => 68,
            WasiError::Rofs => 69,
            WasiError::Spipe => 70,
            WasiError::Srch => 71,
            WasiError::Stale => 72,
            WasiError::Timedout => 73,
            WasiError::Txtbsy => 74,
            WasiError::Xdev => 75,
            WasiError::Notcapable => 76,
        }
    }

    /// The fixed description of this errno value.
    pub open spec fn message_spec(self) -> Seq<char> {
        match self {
            WasiError::TooBig => "Argument list too long."@,
            WasiError::Access => "Permission denied."@,
            WasiError::AddrNotUse => "Address in use."@,
            WasiError::AddrNotAvail => "Address not available."@,
            WasiError::AfNoSupport => "Address family not supported.."@,
            WasiError::Again => "Resource unavailable, or operation would block."@,
            WasiError::Already => "Connection already in progress."@,
            WasiError::Badf => "Bad file descriptor."@,
            WasiError::Badmsg => "Bad message."@,
            WasiError::Busy => "Device or resource busy."@,
            WasiError::Canceled => "Operation canceled."@,
            WasiError::Child => "No child processes."@,
            WasiError::Connaborted => "Connection aborted."@,
            WasiError::ConnRefused => "Connection refused."@,
            WasiError::ConnReset => "Connection reset."@,
            WasiError::Deadlk => "Resource deadlock would occur."@,
            WasiError::Destaddrreq => "Destination address required."@,
            WasiError::Dom => "Mathematics argument out of domain of function."@,
            WasiError::Dquot => "Reserved (dquot)."@,
            WasiError::Exist => "File exists."@,
            WasiError::Fault => "Bad address."@,
            WasiError::Fbig => "File too large."@,
            WasiError::Hostunreach => "Host is unreachable."@,
            WasiError::Idrm => "Identifier removed."@,
            WasiError::Ilseq => "Illegal byte sequence."@,
            WasiError::Inprogress => "Operation in progress."@,
            WasiError::Intr => "Interrupted function."@,
            WasiError::Inval => "Invalid argument."@,
            WasiError::Io => "I/O error."@,
            WasiError::Isconn => "Socket is connected."@,
            WasiError::Isdir => "Is a directory."@,
            WasiError::Loop => "Too many levels of symbolic links."@,
            WasiError::Mfile => "File descriptor value too large."@,
            WasiError::Mlink => "Too many links."@,
            WasiError::Msgsize => "Message too large."@,
            WasiError::Multihop => "Reserved (multihop)."@,
            WasiError::Nametoolong => "Filename too long."@,
            WasiError::Netdown => "Network is down."@,
            WasiError::Netreset => "Connection aborted by network."@,
            WasiError::Netunreach => "Network unreachable."@,
            WasiError::Nfile => "Too many files open in system."@,
            WasiError::Nobufs => "No buffer space available."@,
            WasiError::Nodev => "No such device."@,
            WasiError::Noent => "No such file or directory."@,
            WasiError::Noexec => "Executable file format error."@,
            WasiError::Nolck => "No locks available."@,
            WasiError::Nolink => "Reserved (nolink)."@,
            WasiError::Nomem => "Not enough space."@,
            WasiError::Nomsg => "No message of the desired type."@,
            WasiError::Noprotoopt => "Protocol not available."@,
            WasiError::Nospc => "No space left on device."@,
            WasiError::Nosys => "Function not supported."@,
            WasiError::Notconn => "The socket is not connected."@,
            WasiError::Notdir => "Not a directory or a symbolic link to a directory."@,
            WasiError::Notempty => "Directory not empty."@,
            WasiError::Notrecoverable => "State not recoverable."@,
            WasiError::Notsock => "Not a socket."@,
            WasiError::Notsup => "Not supported, or operation not supported on socket."@,
            WasiError::Notty => "Inappropriate I/O control operation."@,
            WasiError::Nxio => "No such device or address."@,
            WasiError::Overflow => "Value too large to be stored in data type."@,
            WasiError::Ownerdead => "Previous owner died."@,
            WasiError::Perm => "Operation not permitted."@,
            WasiError::Pipe => "Broken pipe."@,
            WasiError::Proto => "Protocol error."@,
            WasiError::Protonosupport => "Protocol not supported."@,
            WasiError::Prototype => "Protocol wrong type for socket."@,
            WasiError::Range => "Result too large."@,
            WasiError::Rofs => "Read-only file system."@,
            WasiError::Spipe => "Invalid seek."@,
            WasiError::Srch => "No such process."@,
            WasiError::Stale => "Reserved (stale)."@,
            WasiError::Timedout => "Connection timed out."@,
            WasiError::Txtbsy => "Text file busy."@,
            WasiError::Xdev => "Cross-device link."@,
            WasiError::Notcapable => "Extension: Capabilities insufficient."@,
        }
    }



    /// The errno value carrying a given code, if the code is in range.
    pub open spec fn from_code_spec(code: int) -> Option<WasiError> {
        if code == 1 {
            Some(WasiError::TooBig)
        } else if code == 2 {
            Some(WasiError::Access)
        } else if code == 3 {
            Some(WasiError::AddrNotUse)
        } else if code == 4 {
            Some(WasiError::AddrNotAvail)
        } else if code == 5 {
            Some(WasiError::AfNoSupport)
        } else if code == 6 {
            Some(WasiError::Again)
        } else if code == 7 {
            Some(WasiError::Already)
        } else if code == 8 {
            Some(WasiError::Badf)
        } else if code == 9 {
            Some(WasiError::Badmsg)
        } else if code == 10 {
            Some(WasiError::Busy)
        } else if code == 11 {
            Some(WasiError::Canceled)
        } else if code == 12 {
            Some(WasiError::Child)
        } else if code == 13 {
            Some(WasiError::Connaborted)
        } else if code == 14 {
            Some(WasiError::ConnRefused)
        } else if code == 15 {
            Some(WasiError::ConnReset)
        } else if code == 16 {
            Some(WasiError::Deadlk)
        } else if code == 17 {
            Some(WasiError::Destaddrreq)
        } else if code == 18 {
            Some(WasiError::Dom)
        } else if code == 19 {
            Some(WasiError::Dquot)
        } else if code == 20 {
            Some(WasiError::Exist)
        } else if code == 21 {
            Some(WasiError::Fault)
        } else if code == 22 {
            Some(WasiError::Fbig)
        } else if code == 23 {
            Some(WasiError::Hostunreach)
        } else if code == 24 {
            Some(WasiError::Idrm)
        } else if code == 25 {
            Some(WasiError::Ilseq)
        } else if code == 26 {
            Some(WasiError::Inprogress)
        } else if code == 27 {
            Some(WasiError::Intr)
        } else if code == 28 {
            Some(WasiError::Inval)
        } else if code == 29 {
            Some(WasiError::Io)
        } else if code == 30 {
            Some(WasiError::Isconn)
        } else if code == 31 {
            Some(WasiError::Isdir)
        } else if code == 32 {
            Some(WasiError::Loop)
        } else if code == 33 {
            Some(WasiError::Mfile)
        } else if code == 34 {
            Some(WasiError::Mlink)
        } else if code == 35 {
            Some(WasiError::Msgsize)
        } else if code == 36 {
            Some(WasiError::Multihop)
        } else if code == 37 {
            Some(WasiError::Nametoolong)
        } else if code == 38 {
            Some(WasiError::Netdown)
        } else if code == 39 {
            Some(WasiError::Netreset)
        } else if code == 40 {
            Some(WasiError::Netunreach)
        } else if code == 41 {
            Some(WasiError::Nfile)
        } else if code == 42 {
            Some(WasiError::Nobufs)
        } else if code == 43 {
            Some(WasiError::Nodev)
        } else if code == 44 {
            Some(WasiError::Noent)
        } else if code == 45 {
            Some(WasiError::Noexec)
        } else if code == 46 {
            Some(WasiError::Nolck)
        } else if code == 47 {
            Some(WasiError::Nolink)
        } else if code == 48 {
            Some(WasiError::Nomem)
        } else if code == 49 {
            Some(WasiError::Nomsg)
        } else if code == 50 {
            Some(WasiError::Noprotoopt)
        } else if code == 51 {
            Some(WasiError::Nospc)
        } else if code == 52 {
            Some(WasiError::Nosys)
        } else if code == 53 {
            Some(WasiError::Notconn)
        } else if code == 54 {
            Some(WasiError::Notdir)
        } else if code == 55 {
            Some(WasiError::Notempty)
        } else if code == 56 {
            Some(WasiError::Notrecoverable)
        } else if code == 57 {
            Some(WasiError::Notsock)
        } else if code == 58 {
            Some(WasiError::Notsup)
        } else if code == 59 {
            Some(WasiError::Notty)
        } else if code == 60 {
            Some(WasiError::Nxio)
        } else if code == 61 {
            Some(WasiError::Overflow)
        } else if code == 62 {
            Some(WasiError::Ownerdead)
        } else if code == 63 {
            Some(WasiError::Perm)
        } else if code == 64 {
            Some(WasiError::Pipe)
        } else if code == 65 {
            Some(WasiError::Proto)
        } else if code == 66 {
            Some(WasiError::Protonosupport)
        } else if code == 67 {
            Some(WasiError::Prototype)
        } else if code == 68 {
            Some(WasiError::Range)
        } else if code == 69 {
            Some(WasiError::Rofs)
        } else if code == 70 {
            Some(WasiError::Spipe)
        } else if code == 71 {
            Some(WasiError::Srch)
        } else if code == 72 {
            Some(WasiError::Stale)
        } else if code == 73 {
            Some(WasiError::Timedout)
        } else if code == 74 {
            Some(WasiError::Txtbsy)
        } else if code == 75 {
            Some(WasiError::Xdev)
        } else if code == 76 {
            Some(WasiError::Notcapable)
        } else {
            None
        }
    }

    /// The integer code of this errno value.
    pub fn code(&self) -> (c: i32)
        ensures
            c == self.code_spec(),
            1 <= c <= 76,
    {
        match self {
            WasiError::TooBig => 1,
            WasiError::Access => 2,
            WasiError::AddrNotUse => 3,
            WasiError::AddrNotAvail => 4,
            WasiError::AfNoSupport => 5,
            WasiError::Again => 6,
            WasiError::Already => 7,
            WasiError::Badf => 8,
            WasiError::Badmsg => 9,
            WasiError::Busy => 10,
            WasiError::Canceled => 11,
            WasiError::Child => 12,
            WasiError::Connaborted => 13,
            WasiError::ConnRefused => 14,
            WasiError::ConnReset => 15,
            WasiError::Deadlk => 16,
            WasiError::Destaddrreq => 17,
            WasiError::Dom => 18,
            WasiError::Dquot => 19,
            WasiError::Exist => 20,
            WasiError::Fault => 21,
            WasiError::Fbig => 22,
            WasiError::Hostunreach => 23,
            WasiError::Idrm => 24,
            WasiError::Ilseq => 25,
            WasiError::Inprogress => 26,
            WasiError::Intr => 27,
            WasiError::Inval => 28,
            WasiError::Io => 29,
            WasiError::Isconn => 30,
            WasiError::Isdir => 31,
            WasiError::Loop => 32,
            WasiError::Mfile => 33,
            WasiError::Mlink => 34,
            WasiError::Msgsize => 35,
            WasiError::Multihop => 36,
            WasiError::Nametoolong => 37,
            WasiError::Netdown => 38,
            WasiError::Netreset => 39,
            WasiError::Netunreach => 40,
            WasiError::Nfile => 41,
            WasiError::Nobufs => 42,
            WasiError::Nodev => 43,
            WasiError::Noent => 44,
            WasiError::Noexec => 45,
            WasiError::Nolck => 46,
            WasiError::Nolink => 47,
            WasiError::Nomem => 48,
            WasiError::Nomsg => 49,
            WasiError::Noprotoopt => 50,
            WasiError::Nospc => 51,
            WasiError::Nosys => 52,
            WasiError::Notconn => 53,
            WasiError::Notdir => 54,
            WasiError::Notempty => 55,
            WasiError::Notrecoverable => 56,
            WasiError::Notsock => 57,
            WasiError::Notsup => 58,
            WasiError::Notty => 59,
            WasiError::Nxio => 60,
            WasiError::Overflow => 61,
            WasiError::Ownerdead => 62,
            WasiError::Perm => 63,
            WasiError::Pipe => 64,
            WasiError::Proto => 65,
            WasiError::Protonosupport => 66,
            WasiError::Prototype => 67,
            WasiError::Range => 68,
            WasiError::Rofs => 69,
            WasiError::Spipe => 70,
            WasiError::Srch => 71,
            WasiError::Stale => 72,
            WasiError::Timedout => 73,
            WasiError::Txtbsy => 74,
            WasiError::Xdev => 75,
            WasiError::Notcapable => 76,
        }
    }

    /// The fixed description of this errno value.
    pub fn message(&self) -> (m: &'static str)
        ensures
            m@ == self.message_spec(),
    {
        match self {
            WasiError::TooBig => "Argument list too long.",
            WasiError::Access => "Permission denied.",
            WasiError::AddrNotUse => "Address in use.",
            WasiError::AddrNotAvail => "Address not available.",
            WasiError::AfNoSupport => "Address family not supported..",
            WasiError::Again => "Resource unavailable, or operation would block.",
            WasiError::Already => "Connection already in progress.",
            WasiError::Badf => "Bad file descriptor.",
            WasiError::Badmsg => "Bad message.",
            WasiError::Busy => "Device or resource busy.",
            WasiError::Canceled => "Operation canceled.",
            WasiError::Child => "No child processes.",
            WasiError::Connaborted => "Connection aborted.",
            WasiError::ConnRefused => "Connection refused.",
            WasiError::ConnReset => "Connection reset.",
            WasiError::Deadlk => "Resource deadlock would occur.",
            WasiError::Destaddrreq => "Destination address required.",
            WasiError::Dom => "Mathematics argument out of domain of function.",
            WasiError::Dquot => "Reserved (dquot).",
            WasiError::Exist => "File exists.",
            WasiError::Fault => "Bad address.",
            WasiError::Fbig => "File too large.",
            WasiError::Hostunreach => "Host is unreachable.",
            WasiError::Idrm => "Identifier removed.",
            WasiError::Ilseq => "Illegal byte sequence.",
            WasiError::Inprogress => "Operation in progress.",
            WasiError::Intr => "Interrupted function.",
            WasiError::Inval => "Invalid argument.",
            WasiError::Io => "I/O error.",
            WasiError::Isconn => "Socket is connected.",
            WasiError::Isdir => "Is a directory.",
            WasiError::Loop => "Too many levels of symbolic links.",
            WasiError::Mfile => "File descriptor value too large.",
            WasiError::Mlink => "Too many links.",
            WasiError::Msgsize => "Message too large.",
            WasiError::Multihop => "Reserved (multihop).",
            WasiError::Nametoolong => "Filename too long.",
            WasiError::Netdown => "Network is down.",
            WasiError::Netreset => "Connection aborted by network.",
            WasiError::Netunreach => "Network unreachable.",
            WasiError::Nfile => "Too many files open in system.",
            WasiError::Nobufs => "No buffer space available.",
            WasiError::Nodev => "No such device.",
            WasiError::Noent => "No such file or directory.",
            WasiError::Noexec => "Executable file format error.",
            WasiError::Nolck => "No locks available.",
            WasiError::Nolink => "Reserved (nolink).",
            WasiError::Nomem => "Not enough space.",
            WasiError::Nomsg => "No message of the desired type.",
            WasiError::Noprotoopt => "Protocol not available.",
            WasiError::Nospc => "No space left on device.",
            WasiError::Nosys => "Function not supported.",
            WasiError::Notconn => "The socket is not connected.",
            WasiError::Notdir => "Not a directory or a symbolic link to a directory.",
            WasiError::Notempty => "Directory not empty.",
            WasiError::Notrecoverable => "State not recoverable.",
            WasiError::Notsock => "Not a socket.",
            WasiError::Notsup => "Not supported, or operation not supported on socket.",
            WasiError::Notty => "Inappropriate I/O control operation.",
            WasiError::Nxio => "No such device or address.",
            WasiError::Overflow => "Value too large to be stored in data type.",
            WasiError::Ownerdead => "Previous owner died.",
            WasiError::Perm => "Operation not permitted.",
            WasiError::Pipe => "Broken pipe.",
            WasiError::Proto => "Protocol error.",
            WasiError::Protonosupport => "Protocol not supported.",
            WasiError::Prototype => "Protocol wrong type for socket.",
            WasiError::Range => "Result too large.",
            WasiError::Rofs => "Read-only file system.",
            WasiError::Spipe => "Invalid seek.",
            WasiError::Srch => "No such process.",
            WasiError::Stale => "Reserved (stale).",
            WasiError::Timedout => "Connection timed out.",
            WasiError::Txtbsy => "Text file busy.",
            WasiError::Xdev => "Cross-device link.",
            WasiError::Notcapable => "Extension: Capabilities insufficient.",
        }
    }

    /// The errno value carrying a given code: defined exactly for codes in
    /// 1..=76.
    pub fn from_code(code: i32) -> (r: Option<WasiError>)
        ensures
            r == WasiError::from_code_spec(code as int),
            r is Some <==> 1 <= code <= 76,
            r matches Some(e) ==> e.code_spec() == code,
    {
        let r = match code {
            1 => Some(WasiError::TooBig),
            2 => Some(WasiError::Access),
            3 => Some(WasiError::AddrNotUse),
            4 => Some(WasiError::AddrNotAvail),
            5 => Some(WasiError::AfNoSupport),
            6 => Some(WasiError::Again),
            7 => Some(WasiError::Already),
            8 => Some(WasiError::Badf),
            9 => Some(WasiError::Badmsg),
            10 => Some(WasiError::Busy),
            11 => Some(WasiError::Canceled),
            12 => Some(WasiError::Child),
            13 => Some(WasiError::Connaborted),
            14 => Some(WasiError::ConnRefused),
            15 => Some(WasiError::ConnReset),
            16 => Some(WasiError::Deadlk),
            17 => Some(WasiError::Destaddrreq),
            18 => Some(WasiError::Dom),
            19 => Some(WasiError::Dquot),
            20 => Some(WasiError::Exist),
            21 => Some(WasiError::Fault),
            22 => Some(WasiError::Fbig),
            23 => Some(WasiError::Hostunreach),
            24 => Some(WasiError::Idrm),
            25 => Some(WasiError::Ilseq),
            26 => Some(WasiError::Inprogress),
            27 => Some(WasiError::Intr),
            28 => Some(WasiError::Inval),
            29 => Some(WasiError::Io),
            30 => Some(WasiError::Isconn),
            31 => Some(WasiError::Isdir),
            32 => Some(WasiError::Loop),
            33 => Some(WasiError::Mfile),
            34 => Some(WasiError::Mlink),
            35 => Some(WasiError::Msgsize),
            36 => Some(WasiError::Multihop),
            37 => Some(WasiError::Nametoolong),
            38 => Some(WasiError::Netdown),
            39 => Some(WasiError::Netreset),
            40 => Some(WasiError::Netunreach),
            41 => Some(WasiError::Nfile),
            42 => Some(WasiError::Nobufs),
            43 => Some(WasiError::Nodev),
            44 => Some(WasiError::Noent),
            45 => Some(WasiError::Noexec),
            46 => Some(WasiError::Nolck),
            47 => Some(WasiError::Nolink),
            48 => Some(WasiError::Nomem),
            49 => Some(WasiError::Nomsg),
            50 => Some(WasiError::Noprotoopt),
            51 => Some(WasiError::Nospc),
            52 => Some(WasiError::Nosys),
            53 => Some(WasiError::Notconn),
            54 => Some(WasiError::Notdir),
            55 => Some(WasiError::Notempty),
            56 => Some(WasiError::Notrecoverable),
            57 => Some(WasiError::Notsock),
            58 => Some(WasiError::Notsup),
            59 => Some(WasiError::Notty),
            60 => Some(WasiError::Nxio),
            61 => Some(WasiError::Overflow),
            62 => Some(WasiError::Ownerdead),
            63 => Some(WasiError::Perm),
            64 => Some(WasiError::Pipe),
            65 => Some(WasiError::Proto),
            66 => Some(WasiError::Protonosupport),
            67 => Some(WasiError::Prototype),
            68 => Some(WasiError::Range),
            69 => Some(WasiError::Rofs),
            70 => Some(WasiError::Spipe),
            71 => Some(WasiError::Srch),
            72 => Some(WasiError::Stale),
            73 => Some(WasiError::Timedout),
            74 => Some(WasiError::Txtbsy),
            75 => Some(WasiError::Xdev),
            76 => Some(WasiError::Notcapable),
            _ => None,
        };
        proof {
            lemma_from_code_inverts(code as int);
        }
        r
    }
}

/// The description belonging to a code in 1..=76, as a sequence of
/// characters; the empty sequence outside that range.
pub open spec fn errno_message(code: int) -> Seq<char> {
    match WasiError::from_code_spec(code) {
        Some(e) => e.message_spec(),
        None => Seq::empty(),
    }
}

/// From a code in range, `from_code_spec` yields the value whose own code is
/// that code.
pub proof fn lemma_from_code_inverts(code: int)
    ensures
        1 <= code <= 76 ==> (WasiError::from_code_spec(code) matches Some(e) && e.code_spec()
            == code),
        !(1 <= code <= 76) ==> WasiError::from_code_spec(code) is None,
{
}

/// The description of a status code: `"Success"` for 0, the fixed table
/// entry for 1..=76, and an internal-consistency error for any other code —
/// the host interface defines no code outside that range, so such a code is
/// never given a default description.
pub fn describe(code: i32) -> (r: Result<&'static str, ShimError>)
    ensures
        code == 0 ==> (r matches Ok(m) && m@ == "Success"@),
        1 <= code <= 76 ==> (r matches Ok(m) && m@ == errno_message(code as int)),
        !(0 <= code <= 76) ==> r == Result::<&'static str, ShimError>::Err(
            ShimError::Internal(code),
        ),
{
    if code == 0 {
        Ok("Success")
    } else {
        match WasiError::from_code(code) {
            Some(e) => Ok(e.message()),
            None => Err(ShimError::Internal(code)),
        }
    }
}

/// A small integer computed from a description's length and three of its
/// characters; over the 76 descriptions in the table it takes 76 distinct
/// values, which is how the distinctness law below is established.
spec fn message_fingerprint(s: Seq<char>) -> int
    recommends
        s.len() >= 10,
{
    ((s.len() * 0x100 + s[0] as int) * 0x100 + s[1] as int) * 0x100 + s[s.len() - 4] as int
}

/// The fingerprint of the description belonging to each code in 1..=76.
spec fn code_fingerprint(code: int) -> int {
    if code == 1 {
        390165103
    } else if code == 2 {
        307258729
    } else if code == 3 {
        255943797
    } else if code == 4 {
        373384290
    } else if code == 5 {
        507602021
    } else if code == 6 {
        793929071
    } else if code == 7 {
        524513125
    } else if code == 8 {
        339894644
    } else if code == 9 {
        205676897
    } else if code == 10 {
        407135605
    } else if code == 11 {
        323973228
    } else if code == 12 {
        323907443
    } else if code == 13 {
        323186548
    } else if code == 14 {
        323186547
    } else if code == 15 {
        289632115
    } else if code == 16 {
        508716387
    } else if code == 17 {
        491021682
    } else if code == 18 {
        793600361
    } else if code == 19 {
        290612591
    } else if code == 20 {
        205941107
    } else if code == 21 {
        205676901
    } else if code == 22 {
        256272754
    } else if code == 23 {
        340291426
    } else if code == 24 {
        323576950
    } else if code == 25 {
        373910638
    } else if code == 26 {
        374304869
    } else if code == 27 {
        357133929
    } else if code == 28 {
        290025061
    } else if code == 29 {
        172568434
    } else if code == 30 {
        341012340
    } else if code == 31 {
        256471919
    } else if code == 32 {
        575958894
    } else if code == 33 {
        541485426
    } else if code == 34 {
        257191790
    } else if code == 35 {
        307062130
    } else if code == 36 {
        340944239
    } else if code == 37 {
        306604399
    } else if code == 38 {
        273573231
    } else if code == 39 {
        507735919
    } else if code == 40 {
        340682082
    } else if code == 41 {
        508850036
    } else if code == 42 {
        441347938
    } else if code == 43 {
        256798569
    } else if code == 44 {
        441347951
    } else if code == 45 {
        491092082
    } else if code == 46 {
        323907426
    } else if code == 47 {
        307389806
    } else if code == 48 {
        290352993
    } else if code == 49 {
        525234041
    } else if code == 50 {
        391148130
    } else if code == 51 {
        407793513
    } else if code == 52 {
        390493556
    } else if code == 53 {
        475293812
    } else if code == 54 {
        844001135
    } else if code == 55 {
        340027760
    } else if code == 56 {
        374568034
    } else if code == 57 {
        223244139
    } else if code == 58 {
        877555563
    } else if code == 59 {
        608792169
    } else if code == 60 {
        441347941
    } else if code == 61 {
        710304121
    } else if code == 62 {
        340816489
    } else if code == 63 {
        407859316
    } else if code == 64 {
        205681257
    } else if code == 65 {
        256930418
    } else if code == 66 {
        391148148
    } else if code == 67 {
        525365867
    } else if code == 68 {
        290612594
    } else if code == 69 {
        374498676
    } else if code == 70 {
        222916197
    } else if code == 71 {
        273575781
    } else if code == 72 {
        290612588
    } else if code == 73 {
        356740975
    } else if code == 74 {
        257189237
    } else if code == 75 {
        306410089
    } else if code == 76 {
        625309797
    } else {
        0
    }
}

/// Each code's description has at least ten characters, and its fingerprint
/// is the literal recorded for that code.
proof fn lemma_message_fingerprint(code: int)
    requires
        1 <= code <= 76,
    ensures
        errno_message(code).len() >= 10,
        message_fingerprint(errno_message(code)) == code_fingerprint(code),
{
    reveal_strlit("Argument list too long.");
    reveal_strlit("Permission denied.");
    reveal_strlit("Address in use.");
    reveal_strlit("Address not available.");
    reveal_strlit("Address family not supported..");
    reveal_strlit("Resource unavailable, or operation would block.");
    reveal_strlit("Connection already in progress.");
    reveal_strlit("Bad file descriptor.");
    reveal_strlit("Bad message.");
    reveal_strlit("Device or resource busy.");
    reveal_strlit("Operation canceled.");
    reveal_strlit("No child processes.");
    reveal_strlit("Connection aborted.");
    reveal_strlit("Connection refused.");
    reveal_strlit("Connection reset.");
    reveal_strlit("Resource deadlock would occur.");
    reveal_strlit("Destination address required.");
    reveal_strlit("Mathematics argument out of domain of function.");
    reveal_strlit("Reserved (dquot).");
    reveal_strlit("File exists.");
    reveal_strlit("Bad address.");
    reveal_strlit("File too large.");
    reveal_strlit("Host is unreachable.");
    reveal_strlit("Identifier removed.");
    reveal_strlit("Illegal byte sequence.");
    reveal_strlit("Operation in progress.");
    reveal_strlit("Interrupted function.");
    reveal_strlit("Invalid argument.");
    reveal_strlit("I/O error.");
    reveal_strlit("Socket is connected.");
    reveal_strlit("Is a directory.");
    reveal_strlit("Too many levels of symbolic links.");
    reveal_strlit("File descriptor value too large.");
    reveal_strlit("Too many links.");
    reveal_strlit("Message too large.");
    reveal_strlit("Reserved (multihop).");
    reveal_strlit("Filename too long.");
    reveal_strlit("Network is down.");
    reveal_strlit("Connection aborted by network.");
    reveal_strlit("Network unreachable.");
    reveal_strlit("Too many files open in system.");
    reveal_strlit("No buffer space available.");
    reveal_strlit("No such device.");
    reveal_strlit("No such file or directory.");
    reveal_strlit("Executable file format error.");
    reveal_strlit("No locks available.");
    reveal_strlit("Reserved (nolink).");
    reveal_strlit("Not enough space.");
    reveal_strlit("No message of the desired type.");
    reveal_strlit("Protocol not available.");
    reveal_strlit("No space left on device.");
    reveal_strlit("Function not supported.");
    reveal_strlit("The socket is not connected.");
    reveal_strlit("Not a directory or a symbolic link to a directory.");
    reveal_strlit("Directory not empty.");
    reveal_strlit("State not recoverable.");
    reveal_strlit("Not a socket.");
    reveal_strlit("Not supported, or operation not supported on socket.");
    reveal_strlit("Inappropriate I/O control operation.");
    reveal_strlit("No such device or address.");
    reveal_strlit("Value too large to be stored in data type.");
    reveal_strlit("Previous owner died.");
    reveal_strlit("Operation not permitted.");
    reveal_strlit("Broken pipe.");
    reveal_strlit("Protocol error.");
    reveal_strlit("Protocol not supported.");
    reveal_strlit("Protocol wrong type for socket.");
    reveal_strlit("Result too large.");
    reveal_strlit("Read-only file system.");
    reveal_strlit("Invalid seek.");
    reveal_strlit("No such process.");
    reveal_strlit("Reserved (stale).");
    reveal_strlit("Connection timed out.");
    reveal_strlit("Text file busy.");
    reveal_strlit("Cross-device link.");
    reveal_strlit("Extension: Capabilities insufficient.");
    if code == 1 {
        assert(errno_message(1).len() >= 10 && message_fingerprint(errno_message(1)) == code_fingerprint(1));
    } else if code == 2 {
        assert(errno_message(2).len() >= 10 && message_fingerprint(errno_message(2)) == code_fingerprint(2));
    } else if code == 3 {
        assert(errno_message(3).len() >= 10 && message_fingerprint(errno_message(3)) == code_fingerprint(3));
    } else if code == 4 {
        assert(errno_message(4).len() >= 10 && message_fingerprint(errno_message(4)) == code_fingerprint(4));
    } else if code == 5 {
        assert(errno_message(5).len() >= 10 && message_fingerprint(errno_message(5)) == code_fingerprint(5));
    } else if code == 6 {
        assert(errno_message(6).len() >= 10 && message_fingerprint(errno_message(6)) == code_fingerprint(6));
    } else if code == 7 {
        assert(errno_message(7).len() >= 10 && message_fingerprint(errno_message(7)) == code_fingerprint(7));
    } else if code == 8 {
        assert(errno_message(8).len() >= 10 && message_fingerprint(errno_message(8)) == code_fingerprint(8));
    } else if code == 9 {
        assert(errno_message(9).len() >= 10 && message_fingerprint(errno_message(9)) == code_fingerprint(9));
    } else if code == 10 {
        assert(errno_message(10).len() >= 10 && message_fingerprint(errno_message(10)) == code_fingerprint(10));
    } else if code == 11 {
        assert(errno_message(11).len() >= 10 && message_fingerprint(errno_message(11)) == code_fingerprint(11));
    } else if code == 12 {
        assert(errno_message(12).len() >= 10 && message_fingerprint(errno_message(12)) == code_fingerprint(12));
    } else if code == 13 {
        assert(errno_message(13).len() >= 10 && message_fingerprint(errno_message(13)) == code_fingerprint(13));
    } else if code == 14 {
        assert(errno_message(14).len() >= 10 && message_fingerprint(errno_message(14)) == code_fingerprint(14));
    } else if code == 15 {
        assert(errno_message(15).len() >= 10 && message_fingerprint(errno_message(15)) == code_fingerprint(15));
    } else if code == 16 {
        assert(errno_message(16).len() >= 10 && message_fingerprint(errno_message(16)) == code_fingerprint(16));
    } else if code == 17 {
        assert(errno_message(17).len() >= 10 && message_fingerprint(errno_message(17)) == code_fingerprint(17));
    } else if code == 18 {
        assert(errno_message(18).len() >= 10 && message_fingerprint(errno_message(18)) == code_fingerprint(18));
    } else if code == 19 {
        assert(errno_message(19).len() >= 10 && message_fingerprint(errno_message(19)) == code_fingerprint(19));
    } else if code == 20 {
        assert(errno_message(20).len() >= 10 && message_fingerprint(errno_message(20)) == code_fingerprint(20));
    } else if code == 21 {
        assert(errno_message(21).len() >= 10 && message_fingerprint(errno_message(21)) == code_fingerprint(21));
    } else if code == 22 {
        assert(errno_message(22).len() >= 10 && message_fingerprint(errno_message(22)) == code_fingerprint(22));
    } else if code == 23 {
        assert(errno_message(23).len() >= 10 && message_fingerprint(errno_message(23)) == code_fingerprint(23));
    } else if code == 24 {
        assert(errno_message(24).len() >= 10 && message_fingerprint(errno_message(24)) == code_fingerprint(24));
    } else if code == 25 {
        assert(errno_message(25).len() >= 10 && message_fingerprint(errno_message(25)) == code_fingerprint(25));
    } else if code == 26 {
        assert(errno_message(26).len() >= 10 && message_fingerprint(errno_message(26)) == code_fingerprint(26));
    } else if code == 27 {
        assert(errno_message(27).len() >= 10 && message_fingerprint(errno_message(27)) == code_fingerprint(27));
    } else if code == 28 {
        assert(errno_message(28).len() >= 10 && message_fingerprint(errno_message(28)) == code_fingerprint(28));
    } else if code == 29 {
        assert(errno_message(29).len() >= 10 && message_fingerprint(errno_message(29)) == code_fingerprint(29));
    } else if code == 30 {
        assert(errno_message(30).len() >= 10 && message_fingerprint(errno_message(30)) == code_fingerprint(30));
    } else if code == 31 {
        assert(errno_message(31).len() >= 10 && message_fingerprint(errno_message(31)) == code_fingerprint(31));
    } else if code == 32 {
        assert(errno_message(32).len() >= 10 && message_fingerprint(errno_message(32)) == code_fingerprint(32));
    } else if code == 33 {
        assert(errno_message(33).len() >= 10 && message_fingerprint(errno_message(33)) == code_fingerprint(33));
    } else if code == 34 {
        assert(errno_message(34).len() >= 10 && message_fingerprint(errno_message(34)) == code_fingerprint(34));
    } else if code == 35 {
        assert(errno_message(35).len() >= 10 && message_fingerprint(errno_message(35)) == code_fingerprint(35));
    } else if code == 36 {
        assert(errno_message(36).len() >= 10 && message_fingerprint(errno_message(36)) == code_fingerprint(36));
    } else if code == 37 {
        assert(errno_message(37).len() >= 10 && message_fingerprint(errno_message(37)) == code_fingerprint(37));
    } else if code == 38 {
        assert(errno_message(38).len() >= 10 && message_fingerprint(errno_message(38)) == code_fingerprint(38));
    } else if code == 39 {
        assert(errno_message(39).len() >= 10 && message_fingerprint(errno_message(39)) == code_fingerprint(39));
    } else if code == 40 {
        assert(errno_message(40).len() >= 10 && message_fingerprint(errno_message(40)) == code_fingerprint(40));
    } else if code == 41 {
        assert(errno_message(41).len() >= 10 && message_fingerprint(errno_message(41)) == code_fingerprint(41));
    } else if code == 42 {
        assert(errno_message(42).len() >= 10 && message_fingerprint(errno_message(42)) == code_fingerprint(42));
    } else if code == 43 {
        assert(errno_message(43).len() >= 10 && message_fingerprint(errno_message(43)) == code_fingerprint(43));
    } else if code == 44 {
        assert(errno_message(44).len() >= 10 && message_fingerprint(errno_message(44)) == code_fingerprint(44));
    } else if code == 45 {
        assert(errno_message(45).len() >= 10 && message_fingerprint(errno_message(45)) == code_fingerprint(45));
    } else if code == 46 {
        assert(errno_message(46).len() >= 10 && message_fingerprint(errno_message(46)) == code_fingerprint(46));
    } else if code == 47 {
        assert(errno_message(47).len() >= 10 && message_fingerprint(errno_message(47)) == code_fingerprint(47));
    } else if code == 48 {
        assert(errno_message(48).len() >= 10 && message_fingerprint(errno_message(48)) == code_fingerprint(48));
    } else if code == 49 {
        assert(errno_message(49).len() >= 10 && message_fingerprint(errno_message(49)) == code_fingerprint(49));
    } else if code == 50 {
        assert(errno_message(50).len() >= 10 && message_fingerprint(errno_message(50)) == code_fingerprint(50));
    } else if code == 51 {
        assert(errno_message(51).len() >= 10 && message_fingerprint(errno_message(51)) == code_fingerprint(51));
    } else if code == 52 {
        assert(errno_message(52).len() >= 10 && message_fingerprint(errno_message(52)) == code_fingerprint(52));
    } else if code == 53 {
        assert(errno_message(53).len() >= 10 && message_fingerprint(errno_message(53)) == code_fingerprint(53));
    } else if code == 54 {
        assert(errno_message(54).len() >= 10 && message_fingerprint(errno_message(54)) == code_fingerprint(54));
    } else if code == 55 {
        assert(errno_message(55).len() >= 10 && message_fingerprint(errno_message(55)) == code_fingerprint(55));
    } else if code == 56 {
        assert(errno_message(56).len() >= 10 && message_fingerprint(errno_message(56)) == code_fingerprint(56));
    } else if code == 57 {
        assert(errno_message(57).len() >= 10 && message_fingerprint(errno_message(57)) == code_fingerprint(57));
    } else if code == 58 {
        assert(errno_message(58).len() >= 10 && message_fingerprint(errno_message(58)) == code_fingerprint(58));
    } else if code == 59 {
        assert(errno_message(59).len() >= 10 && message_fingerprint(errno_message(59)) == code_fingerprint(59));
    } else if code == 60 {
        assert(errno_message(60).len() >= 10 && message_fingerprint(errno_message(60)) == code_fingerprint(60));
    } else if code == 61 {
        assert(errno_message(61).len() >= 10 && message_fingerprint(errno_message(61)) == code_fingerprint(61));
    } else if code == 62 {
        assert(errno_message(62).len() >= 10 && message_fingerprint(errno_message(62)) == code_fingerprint(62));
    } else if code == 63 {
        assert(errno_message(63).len() >= 10 && message_fingerprint(errno_message(63)) == code_fingerprint(63));
    } else if code == 64 {
        assert(errno_message(64).len() >= 10 && message_fingerprint(errno_message(64)) == code_fingerprint(64));
    } else if code == 65 {
        assert(errno_message(65).len() >= 10 && message_fingerprint(errno_message(65)) == code_fingerprint(65));
    } else if code == 66 {
        assert(errno_message(66).len() >= 10 && message_fingerprint(errno_message(66)) == code_fingerprint(66));
    } else if code == 67 {
        assert(errno_message(67).len() >= 10 && message_fingerprint(errno_message(67)) == code_fingerprint(67));
    } else if code == 68 {
        assert(errno_message(68).len() >= 10 && message_fingerprint(errno_message(68)) == code_fingerprint(68));
    } else if code == 69 {
        assert(errno_message(69).len() >= 10 && message_fingerprint(errno_message(69)) == code_fingerprint(69));
    } else if code == 70 {
        assert(errno_message(70).len() >= 10 && message_fingerprint(errno_message(70)) == code_fingerprint(70));
    } else if code == 71 {
        assert(errno_message(71).len() >= 10 && message_fingerprint(errno_message(71)) == code_fingerprint(71));
    } else if code == 72 {
        assert(errno_message(72).len() >= 10 && message_fingerprint(errno_message(72)) == code_fingerprint(72));
    } else if code == 73 {
        assert(errno_message(73).len() >= 10 && message_fingerprint(errno_message(73)) == code_fingerprint(73));
    } else if code == 74 {
        assert(errno_message(74).len() >= 10 && message_fingerprint(errno_message(74)) == code_fingerprint(74));
    } else if code == 75 {
        assert(errno_message(75).len() >= 10 && message_fingerprint(errno_message(75)) == code_fingerprint(75));
    } else if code == 76 {
        assert(errno_message(76).len() >= 10 && message_fingerprint(errno_message(76)) == code_fingerprint(76));
    }
}

/// The 76 recorded fingerprints are pairwise distinct.
proof fn lemma_code_fingerprint_injective(a: int, b: int)
    requires
        1 <= a <= 76,
        1 <= b <= 76,
        a != b,
    ensures
        code_fingerprint(a) != code_fingerprint(b),
{
}

/// Two distinct codes in 1..=76 never share a description, and no
/// description is empty.
pub proof fn lemma_errno_messages_distinct(a: int, b: int)
    requires
        1 <= a <= 76,
        1 <= b <= 76,
    ensures
        a != b ==> errno_message(a) != errno_message(b),
        errno_message(a).len() > 0,
{
    lemma_message_fingerprint(a);
    if a != b {
        lemma_message_fingerprint(b);
        lemma_code_fingerprint_injective(a, b);
    }
}

} // verus!
