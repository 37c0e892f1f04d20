//! A capability shim that lets a sandboxed scripting environment perform
//! filesystem-like operations through a syscall-style host interface of
//! integer-only imports.
//!
//! The shim marshals script-level values into the raw forms the host expects,
//! wraps an open file's raw handle in a [`descriptor::Descriptor`] capability,
//! translates raw status codes through the [`errno`] taxonomy, and decodes the
//! packed byte records the host writes (file-status records and directory
//! entry streams). The host calls themselves are integer-only imports that an
//! embedding program performs; every decision around them — validation,
//! clamping, decoding, error translation — lives here.

mod b64;
mod bytes_le;
mod descriptor;
mod dirent;
mod errno;
mod error;
mod filestat;
mod filetype;
mod http_status;
mod lasterr;
mod pathops;
mod random;
mod script;

pub use b64::{b64_decode, b64_decode_of, b64_encode, b64_of};
pub use bytes_le::{le_to_nat, nat_to_le, read_u32_le, read_u64_le};
pub use descriptor::{advise_plan_spec, allocate_plan_spec, complete_with, io_plan_spec, one_time_plan_spec, read_all_step, text_outcome, readdir_step, seek_plan_spec, set_flags_plan_spec, stat_outcome, truncate_plan_spec, AdvisePlan, AllocatePlan, Descriptor, IoPlan, Iovec, SeekPlan, SetFlagsPlan, TimesPlan, TruncatePlan, FSTFLAGS_ATIM, FSTFLAGS_ATIM_NOW, FSTFLAGS_MTIM, FSTFLAGS_MTIM_NOW};
pub use dirent::{decode_directory_stream, dirent_names_spec, lemma_dirent_entry, DIRENT_HEADER_LEN};
pub use errno::{describe, errno_message, lemma_errno_messages_distinct, WasiError};
pub use error::{ArgShape, DecodeFault, Op, ShimError, ValidationFault};
pub use filestat::{decode_filestat, decode_filestat_spec, encode_filestat, filestat_bytes, lemma_filestat_roundtrip, lemma_stat_deterministic, Filestat, FILESTAT_LEN};
pub use filetype::FileType;
pub use pathops::{close_plan, create_directory_plan, handle_plan_spec, link_plan, link_plan_spec, open_outcome, open_plan, open_plan_spec, path_plan_spec, path_stat_plan, path_stat_plan_spec, prestat_dir_name_plan, prestat_name_len, remove_directory_plan, rename_plan, rename_plan_spec, symlink_plan, symlink_plan_spec, text_arg_spec, unlink_file_plan, LinkPlan, LinkPlanSpec, OpenPlan, OpenPlanSpec, PathPlan, PathPlanSpec, PathStatPlan, PathStatPlanSpec, RenamePlan, RenamePlanSpec, SymlinkPlan, SymlinkPlanSpec};
pub use http_status::{get_status_text, status_text_spec};
pub use lasterr::{process_error, slot_after, status_outcome_spec, LastError};
pub use random::{get_random_values, random_fill_range, random_fill_range_spec};
pub use script::{clamp_size, clamp_size_spec, opt_value, ScriptValue};
