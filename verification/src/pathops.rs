//! The path-addressed operations: opening, creating, removing, linking and
//! renaming files by path relative to a directory handle, and the
//! directory-prestat name lookup.
//!
//! As with the descriptor's bound operations, each call has a verified
//! planning half (argument marshalling) and a verified completion half
//! (status translation and payload decoding); the host call stands between
//! them, performed by the embedding program.

use vstd::prelude::*;

use crate::bytes_le::le_to_nat;
use crate::descriptor::Descriptor;
use crate::error::{ArgShape, DecodeFault, Op, ShimError, ValidationFault};
use crate::lasterr::{process_error, slot_after, status_outcome_spec, LastError};
use crate::script::ScriptValue;
use vstd::utf8::{decode_utf8, valid_utf8};

verus! {

/// A planned open: every raw value the open call takes.
#[derive(Debug)]
pub struct OpenPlan {
    /// The directory handle the path is relative to.
    pub dirfd: i32,
    /// Lookup flags: whether to follow symbolic links.
    pub lookup_flags: i32,
    /// The path to open.
    pub path: String,
    /// Open flags: create, directory, exclusive, truncate.
    pub oflags: i32,
    /// The rights of the opened handle.
    pub rights_base: i64,
    /// The rights handles derived from it inherit.
    pub rights_inheriting: i64,
    /// The handle's flag word: append, sync, non-blocking.
    pub fdflags: i32,
}

/// The mathematical value of a planned open.
pub struct OpenPlanSpec {
    /// The directory handle the path is relative to.
    pub dirfd: i32,
    /// Lookup flags.
    pub lookup_flags: i32,
    /// The path, as characters.
    pub path: Seq<char>,
    /// Open flags.
    pub oflags: i32,
    /// The rights of the opened handle.
    pub rights_base: i64,
    /// The rights derived handles inherit.
    pub rights_inheriting: i64,
    /// The handle's flag word.
    pub fdflags: i32,
}

impl View for OpenPlan {
    type V = OpenPlanSpec;

    open spec fn view(&self) -> OpenPlanSpec {
        OpenPlanSpec {
            dirfd: self.dirfd,
            lookup_flags: self.lookup_flags,
            path: self.path@,
            oflags: self.oflags,
            rights_base: self.rights_base,
            rights_inheriting: self.rights_inheriting,
            fdflags: self.fdflags,
        }
    }
}

/// What planning an open from the argument list yields. The integer
/// arguments are checked first, in their argument order, and the path last,
/// as its own faults — wrong shape or invalid UTF-8 — come after theirs.
pub open spec fn open_plan_spec(args: Seq<ScriptValue>) -> Result<OpenPlanSpec, ShimError> {
    if args.len() < 7 {
        Err(
            ShimError::Validation(
                Op::Open,
                ValidationFault::Arity { expected: 7, got: args.len() as usize },
            ),
        )
    } else {
        match args[0].as_int32_spec() {
            None => Err(wrong_type(Op::Open, 0, ArgShape::Int32)),
            Some(dirfd) => match args[1].as_int32_spec() {
                None => Err(wrong_type(Op::Open, 1, ArgShape::Int32)),
                Some(lookup_flags) => match args[3].as_int32_spec() {
                    None => Err(wrong_type(Op::Open, 3, ArgShape::Int32)),
                    Some(oflags) => match args[4].as_int64_spec() {
                        None => Err(wrong_type(Op::Open, 4, ArgShape::Int64)),
                        Some(rights_base) => match args[5].as_int64_spec() {
                            None => Err(wrong_type(Op::Open, 5, ArgShape::Int64)),
                            Some(rights_inheriting) => match args[6].as_int32_spec() {
                                None => Err(wrong_type(Op::Open, 6, ArgShape::Int32)),
                                Some(fdflags) => match text_arg_spec(args[2], Op::Open, 2) {
                                    Err(e) => Err(e),
                                    Ok(path) => Ok(
                                        OpenPlanSpec {
                                            dirfd,
                                            lookup_flags,
                                            path,
                                            oflags,
                                            rights_base,
                                            rights_inheriting,
                                            fdflags,
                                        },
                                    ),
                                },
                            },
                        },
                    },
                },
            },
        }
    }
}

/// The wrong-type fault for an argument position.
pub open spec fn wrong_type(op: Op, index: usize, wanted: ArgShape) -> ShimError {
    ShimError::Validation(op, ValidationFault::WrongType { index, wanted })
}

/// What marshalling one text argument yields: its characters, or the exact
/// fault.
pub open spec fn text_arg_spec(v: ScriptValue, op: Op, index: usize) -> Result<
    Seq<char>,
    ShimError,
> {
    match v.text_bytes_spec() {
        None => Err(wrong_type(op, index, ArgShape::Text)),
        Some(b) => if !valid_utf8(b) {
            Err(ShimError::Validation(op, ValidationFault::InvalidUtf8 { index }))
        } else {
            Ok(decode_utf8(b))
        },
    }
}

/// Plans an open from the argument list.
pub fn open_plan(args: &Vec<ScriptValue>) -> (r: Result<OpenPlan, ShimError>)
    ensures
        match open_plan_spec(args@) {
            Ok(p) => r matches Ok(q) && q@ == p,
            Err(e) => r matches Err(d) && d == e,
        },
{
    if args.len() < 7 {
        return Err(
            ShimError::Validation(Op::Open, ValidationFault::Arity { expected: 7, got: args.len() }),
        );
    }
    let dirfd = args[0].marshal_int32(Op::Open, 0)?;
    let lookup_flags = args[1].marshal_int32(Op::Open, 1)?;
    let oflags = args[3].marshal_int32(Op::Open, 3)?;
    let rights_base = args[4].marshal_int64(Op::Open, 4)?;
    let rights_inheriting = args[5].marshal_int64(Op::Open, 5)?;
    let fdflags = args[6].marshal_int32(Op::Open, 6)?;
    let path = args[2].marshal_text(Op::Open, 2)?;
    Ok(OpenPlan { dirfd, lookup_flags, path, oflags, rights_base, rights_inheriting, fdflags })
}

/// Completes an open: on success the returned raw handle is wrapped in a
/// fresh descriptor capability; on failure the host's error — for instance
/// not-found or permission, per the requested flags — is raised and
/// recorded.
pub fn open_outcome(last: &mut LastError, status: i32, opened_fd: i32) -> (r: Result<
    Descriptor,
    ShimError,
>)
    ensures
        slot_after(*old(last), *final(last), status as int),
        match status_outcome_spec(status as int) {
            Ok(u) => r matches Ok(d) && d.raw_spec() == opened_fd,
            Err(e) => r matches Err(d) && d == e,
        },
{
    process_error(last, status)?;
    Ok(Descriptor::new(opened_fd))
}

/// A planned operation on one path: create, remove or unlink.
#[derive(Debug)]
pub struct PathPlan {
    /// The directory handle the path is relative to.
    pub dirfd: i32,
    /// The path operated on.
    pub path: String,
}

/// The mathematical value of a one-path plan.
pub struct PathPlanSpec {
    /// The directory handle the path is relative to.
    pub dirfd: i32,
    /// The path, as characters.
    pub path: Seq<char>,
}

impl View for PathPlan {
    type V = PathPlanSpec;

    open spec fn view(&self) -> PathPlanSpec {
        PathPlanSpec { dirfd: self.dirfd, path: self.path@ }
    }
}

/// What planning a one-path operation from the argument list yields.
pub open spec fn path_plan_spec(args: Seq<ScriptValue>, op: Op) -> Result<PathPlanSpec, ShimError> {
    if args.len() < 2 {
        Err(
            ShimError::Validation(
                op,
                ValidationFault::Arity { expected: 2, got: args.len() as usize },
            ),
        )
    } else {
        match args[0].as_int32_spec() {
            None => Err(wrong_type(op, 0, ArgShape::Int32)),
            Some(dirfd) => match text_arg_spec(args[1], op, 1) {
                Err(e) => Err(e),
                Ok(path) => Ok(PathPlanSpec { dirfd, path }),
            },
        }
    }
}

/// Plans a one-path operation: the directory handle and the path.
fn path_plan(args: &Vec<ScriptValue>, op: Op) -> (r: Result<PathPlan, ShimError>)
    ensures
        match path_plan_spec(args@, op) {
            Ok(p) => r matches Ok(q) && q@ == p,
            Err(e) => r matches Err(d) && d == e,
        },
{
    if args.len() < 2 {
        return Err(
            ShimError::Validation(op, ValidationFault::Arity { expected: 2, got: args.len() }),
        );
    }
    let dirfd = args[0].marshal_int32(op, 0)?;
    let path = args[1].marshal_text(op, 1)?;
    Ok(PathPlan { dirfd, path })
}

/// Plans creating a directory at the path; the directory must not exist.
pub fn create_directory_plan(args: &Vec<ScriptValue>) -> (r: Result<PathPlan, ShimError>)
    ensures
        match path_plan_spec(args@, Op::CreateDirectory) {
            Ok(p) => r matches Ok(q) && q@ == p,
            Err(e) => r matches Err(d) && d == e,
        },
{
    path_plan(args, Op::CreateDirectory)
}

/// Plans removing the directory at the path.
pub fn remove_directory_plan(args: &Vec<ScriptValue>) -> (r: Result<PathPlan, ShimError>)
    ensures
        match path_plan_spec(args@, Op::RemoveDirectory) {
            Ok(p) => r matches Ok(q) && q@ == p,
            Err(e) => r matches Err(d) && d == e,
        },
{
    path_plan(args, Op::RemoveDirectory)
}

/// Plans unlinking the file at the path.
pub fn unlink_file_plan(args: &Vec<ScriptValue>) -> (r: Result<PathPlan, ShimError>)
    ensures
        match path_plan_spec(args@, Op::UnlinkFile) {
            Ok(p) => r matches Ok(q) && q@ == p,
            Err(e) => r matches Err(d) && d == e,
        },
{
    path_plan(args, Op::UnlinkFile)
}

/// A planned symbolic link: the target path and the link's place.
#[derive(Debug)]
pub struct SymlinkPlan {
    /// The path the link will point to.
    pub old_path: String,
    /// The directory handle the link is created under.
    pub dirfd: i32,
    /// The link's own path.
    pub new_path: String,
}

/// The mathematical value of a symbolic-link plan.
pub struct SymlinkPlanSpec {
    /// The path the link will point to.
    pub old_path: Seq<char>,
    /// The directory handle the link is created under.
    pub dirfd: i32,
    /// The link's own path.
    pub new_path: Seq<char>,
}

impl View for SymlinkPlan {
    type V = SymlinkPlanSpec;

    open spec fn view(&self) -> SymlinkPlanSpec {
        SymlinkPlanSpec { old_path: self.old_path@, dirfd: self.dirfd, new_path: self.new_path@ }
    }
}

/// What planning a symbolic link from the argument list yields.
pub open spec fn symlink_plan_spec(args: Seq<ScriptValue>) -> Result<SymlinkPlanSpec, ShimError> {
    if args.len() < 3 {
        Err(
            ShimError::Validation(
                Op::Symlink,
                ValidationFault::Arity { expected: 3, got: args.len() as usize },
            ),
        )
    } else {
        match text_arg_spec(args[0], Op::Symlink, 0) {
            Err(e) => Err(e),
            Ok(old_path) => match args[1].as_int32_spec() {
                None => Err(wrong_type(Op::Symlink, 1, ArgShape::Int32)),
                Some(dirfd) => match text_arg_spec(args[2], Op::Symlink, 2) {
                    Err(e) => Err(e),
                    Ok(new_path) => Ok(SymlinkPlanSpec { old_path, dirfd, new_path }),
                },
            },
        }
    }
}

/// Plans a symbolic link from the argument list.
pub fn symlink_plan(args: &Vec<ScriptValue>) -> (r: Result<SymlinkPlan, ShimError>)
    ensures
        match symlink_plan_spec(args@) {
            Ok(p) => r matches Ok(q) && q@ == p,
            Err(e) => r matches Err(d) && d == e,
        },
{
    if args.len() < 3 {
        return Err(
            ShimError::Validation(
                Op::Symlink,
                ValidationFault::Arity { expected: 3, got: args.len() },
            ),
        );
    }
    let old_path = args[0].marshal_text(Op::Symlink, 0)?;
    let dirfd = args[1].marshal_int32(Op::Symlink, 1)?;
    let new_path = args[2].marshal_text(Op::Symlink, 2)?;
    Ok(SymlinkPlan { old_path, dirfd, new_path })
}

/// A planned hard link: where the existing file is and where the new name
/// goes.
#[derive(Debug)]
pub struct LinkPlan {
    /// The directory handle the existing path is relative to.
    pub old_dirfd: i32,
    /// Lookup flags for resolving the existing path.
    pub lookup_flags: i32,
    /// The existing file's path.
    pub old_path: String,
    /// The directory handle the new path is relative to.
    pub new_dirfd: i32,
    /// The new name's path.
    pub new_path: String,
}

/// The mathematical value of a hard-link plan.
pub struct LinkPlanSpec {
    /// The directory handle the existing path is relative to.
    pub old_dirfd: i32,
    /// Lookup flags for resolving the existing path.
    pub lookup_flags: i32,
    /// The existing file's path.
    pub old_path: Seq<char>,
    /// The directory handle the new path is relative to.
    pub new_dirfd: i32,
    /// The new name's path.
    pub new_path: Seq<char>,
}

impl View for LinkPlan {
    type V = LinkPlanSpec;

    open spec fn view(&self) -> LinkPlanSpec {
        LinkPlanSpec {
            old_dirfd: self.old_dirfd,
            lookup_flags: self.lookup_flags,
            old_path: self.old_path@,
            new_dirfd: self.new_dirfd,
            new_path: self.new_path@,
        }
    }
}

/// What planning a hard link from the argument list yields.
pub open spec fn link_plan_spec(args: Seq<ScriptValue>) -> Result<LinkPlanSpec, ShimError> {
    if args.len() < 5 {
        Err(
            ShimError::Validation(
                Op::Link,
                ValidationFault::Arity { expected: 5, got: args.len() as usize },
            ),
        )
    } else {
        match args[0].as_int32_spec() {
            None => Err(wrong_type(Op::Link, 0, ArgShape::Int32)),
            Some(old_dirfd) => match args[1].as_int32_spec() {
                None => Err(wrong_type(Op::Link, 1, ArgShape::Int32)),
                Some(lookup_flags) => match text_arg_spec(args[2], Op::Link, 2) {
                    Err(e) => Err(e),
                    Ok(old_path) => match args[3].as_int32_spec() {
                        None => Err(wrong_type(Op::Link, 3, ArgShape::Int32)),
                        Some(new_dirfd) => match text_arg_spec(args[4], Op::Link, 4) {
                            Err(e) => Err(e),
                            Ok(new_path) => Ok(
                                LinkPlanSpec {
                                    old_dirfd,
                                    lookup_flags,
                                    old_path,
                                    new_dirfd,
                                    new_path,
                                },
                            ),
                        },
                    },
                },
            },
        }
    }
}

/// Plans a hard link from the argument list.
pub fn link_plan(args: &Vec<ScriptValue>) -> (r: Result<LinkPlan, ShimError>)
    ensures
        match link_plan_spec(args@) {
            Ok(p) => r matches Ok(q) && q@ == p,
            Err(e) => r matches Err(d) && d == e,
        },
{
    if args.len() < 5 {
        return Err(
            ShimError::Validation(Op::Link, ValidationFault::Arity { expected: 5, got: args.len() }),
        );
    }
    let old_dirfd = args[0].marshal_int32(Op::Link, 0)?;
    let lookup_flags = args[1].marshal_int32(Op::Link, 1)?;
    let old_path = args[2].marshal_text(Op::Link, 2)?;
    let new_dirfd = args[3].marshal_int32(Op::Link, 3)?;
    let new_path = args[4].marshal_text(Op::Link, 4)?;
    Ok(LinkPlan { old_dirfd, lookup_flags, old_path, new_dirfd, new_path })
}

/// A planned rename: the old and the new place of the file.
#[derive(Debug)]
pub struct RenamePlan {
    /// The directory handle the old path is relative to.
    pub old_dirfd: i32,
    /// The old path.
    pub old_path: String,
    /// The directory handle the new path is relative to.
    pub new_dirfd: i32,
    /// The new path.
    pub new_path: String,
}

/// The mathematical value of a rename plan.
pub struct RenamePlanSpec {
    /// The directory handle the old path is relative to.
    pub old_dirfd: i32,
    /// The old path.
    pub old_path: Seq<char>,
    /// The directory handle the new path is relative to.
    pub new_dirfd: i32,
    /// The new path.
    pub new_path: Seq<char>,
}

impl View for RenamePlan {
    type V = RenamePlanSpec;

    open spec fn view(&self) -> RenamePlanSpec {
        RenamePlanSpec {
            old_dirfd: self.old_dirfd,
            old_path: self.old_path@,
            new_dirfd: self.new_dirfd,
            new_path: self.new_path@,
        }
    }
}

/// What planning a rename from the argument list yields.
pub open spec fn rename_plan_spec(args: Seq<ScriptValue>) -> Result<RenamePlanSpec, ShimError> {
    if args.len() < 4 {
        Err(
            ShimError::Validation(
                Op::Rename,
                ValidationFault::Arity { expected: 4, got: args.len() as usize },
            ),
        )
    } else {
        match args[0].as_int32_spec() {
            None => Err(wrong_type(Op::Rename, 0, ArgShape::Int32)),
            Some(old_dirfd) => match text_arg_spec(args[1], Op::Rename, 1) {
                Err(e) => Err(e),
                Ok(old_path) => match args[2].as_int32_spec() {
                    None => Err(wrong_type(Op::Rename, 2, ArgShape::Int32)),
                    Some(new_dirfd) => match text_arg_spec(args[3], Op::Rename, 3) {
                        Err(e) => Err(e),
                        Ok(new_path) => Ok(
                            RenamePlanSpec { old_dirfd, old_path, new_dirfd, new_path },
                        ),
                    },
                },
            },
        }
    }
}

/// Plans a rename from the argument list.
pub fn rename_plan(args: &Vec<ScriptValue>) -> (r: Result<RenamePlan, ShimError>)
    ensures
        match rename_plan_spec(args@) {
            Ok(p) => r matches Ok(q) && q@ == p,
            Err(e) => r matches Err(d) && d == e,
        },
{
    if args.len() < 4 {
        return Err(
            ShimError::Validation(
                Op::Rename,
                ValidationFault::Arity { expected: 4, got: args.len() },
            ),
        );
    }
    let old_dirfd = args[0].marshal_int32(Op::Rename, 0)?;
    let old_path = args[1].marshal_text(Op::Rename, 1)?;
    let new_dirfd = args[2].marshal_int32(Op::Rename, 2)?;
    let new_path = args[3].marshal_text(Op::Rename, 3)?;
    Ok(RenamePlan { old_dirfd, old_path, new_dirfd, new_path })
}

/// A planned path-addressed stat.
#[derive(Debug)]
pub struct PathStatPlan {
    /// The directory handle the path is relative to.
    pub dirfd: i32,
    /// Lookup flags: whether to follow symbolic links.
    pub lookup_flags: i32,
    /// The path whose status is asked for.
    pub path: String,
}

/// The mathematical value of a path-addressed stat plan.
pub struct PathStatPlanSpec {
    /// The directory handle the path is relative to.
    pub dirfd: i32,
    /// Lookup flags.
    pub lookup_flags: i32,
    /// The path whose status is asked for.
    pub path: Seq<char>,
}

impl View for PathStatPlan {
    type V = PathStatPlanSpec;

    open spec fn view(&self) -> PathStatPlanSpec {
        PathStatPlanSpec {
            dirfd: self.dirfd,
            lookup_flags: self.lookup_flags,
            path: self.path@,
        }
    }
}

/// What planning a path-addressed stat from the argument list yields.
pub open spec fn path_stat_plan_spec(args: Seq<ScriptValue>) -> Result<PathStatPlanSpec, ShimError> {
    if args.len() < 3 {
        Err(
            ShimError::Validation(
                Op::PathFilestat,
                ValidationFault::Arity { expected: 3, got: args.len() as usize },
            ),
        )
    } else {
        match args[0].as_int32_spec() {
            None => Err(wrong_type(Op::PathFilestat, 0, ArgShape::Int32)),
            Some(dirfd) => match args[1].as_int32_spec() {
                None => Err(wrong_type(Op::PathFilestat, 1, ArgShape::Int32)),
                Some(lookup_flags) => match text_arg_spec(args[2], Op::PathFilestat, 2) {
                    Err(e) => Err(e),
                    Ok(path) => Ok(PathStatPlanSpec { dirfd, lookup_flags, path }),
                },
            },
        }
    }
}

/// Plans a path-addressed stat from the argument list.
pub fn path_stat_plan(args: &Vec<ScriptValue>) -> (r: Result<PathStatPlan, ShimError>)
    ensures
        match path_stat_plan_spec(args@) {
            Ok(p) => r matches Ok(q) && q@ == p,
            Err(e) => r matches Err(d) && d == e,
        },
{
    if args.len() < 3 {
        return Err(
            ShimError::Validation(
                Op::PathFilestat,
                ValidationFault::Arity { expected: 3, got: args.len() },
            ),
        );
    }
    let dirfd = args[0].marshal_int32(Op::PathFilestat, 0)?;
    let lookup_flags = args[1].marshal_int32(Op::PathFilestat, 1)?;
    let path = args[2].marshal_text(Op::PathFilestat, 2)?;
    Ok(PathStatPlan { dirfd, lookup_flags, path })
}

/// What marshalling a lone handle argument yields.
pub open spec fn handle_plan_spec(args: Seq<ScriptValue>, op: Op) -> Result<i32, ShimError> {
    if args.len() < 1 {
        Err(
            ShimError::Validation(
                op,
                ValidationFault::Arity { expected: 1, got: args.len() as usize },
            ),
        )
    } else {
        match args[0].as_int32_spec() {
            None => Err(wrong_type(op, 0, ArgShape::Int32)),
            Some(fd) => Ok(fd),
        }
    }
}

/// Plans closing a raw handle given as the lone argument.
pub fn close_plan(args: &Vec<ScriptValue>) -> (r: Result<i32, ShimError>)
    ensures
        r == handle_plan_spec(args@, Op::Close),
{
    handle_plan(args, Op::Close)
}

/// Plans the prestat name lookup for the directory handle given as the lone
/// argument.
pub fn prestat_dir_name_plan(args: &Vec<ScriptValue>) -> (r: Result<i32, ShimError>)
    ensures
        r == handle_plan_spec(args@, Op::PrestatDirName),
{
    handle_plan(args, Op::PrestatDirName)
}

/// Marshals a lone handle argument.
fn handle_plan(args: &Vec<ScriptValue>, op: Op) -> (r: Result<i32, ShimError>)
    ensures
        r == handle_plan_spec(args@, op),
{
    if args.len() < 1 {
        return Err(
            ShimError::Validation(op, ValidationFault::Arity { expected: 1, got: args.len() }),
        );
    }
    let fd = args[0].marshal_int32(op, 0)?;
    Ok(fd)
}

/// The name length recorded in a prestat record: the record is eight bytes,
/// and its second little-endian 32-bit field is the length of the
/// directory's name.
pub fn prestat_name_len(b: &Vec<u8>) -> (r: Result<u32, ShimError>)
    ensures
        b@.len() == 8 ==> (r matches Ok(n) && n as nat == le_to_nat(b@.subrange(4, 8))),
        b@.len() != 8 ==> r == Err::<u32, ShimError>(
            ShimError::Decode(DecodeFault::WrongLength { expected: 8, got: b@.len() as usize }),
        ),
{
    if b.len() != 8 {
        return Err(ShimError::Decode(DecodeFault::WrongLength { expected: 8, got: b.len() }));
    }
    Ok(crate::bytes_le::read_u32_le(b, 4))
}

} // verus!
