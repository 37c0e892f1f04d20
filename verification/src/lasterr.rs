//! The last-error slot: a diagnostic value recording the errno and message
//! of the most recently completed operation, overwritten on every operation,
//! success included, and readable by the script at any time.
//!
//! The slot is threaded through calls explicitly rather than held in global
//! mutable state; the embedding program owns one slot per script context.

use vstd::prelude::*;

use crate::errno::{errno_message, WasiError};
use crate::error::ShimError;

verus! {

/// The most recent operation's status: its errno and the matching
/// description.
#[derive(Clone, Debug)]
pub struct LastError {
    /// The status code the host returned, 0 for success.
    pub errno: i32,
    /// The description belonging to that code.
    pub message: String,
}

impl LastError {
    /// The slot holds exactly the given status and its description.
    pub open spec fn records(self, code: int) -> bool {
        &&& self.errno == code
        &&& self.message@ == if code == 0 {
            "Success"@
        } else {
            errno_message(code)
        }
    }

    /// A fresh slot, before any operation: it records success.
    pub fn new() -> (r: LastError)
        ensures
            r.records(0),
    {
        LastError { errno: 0, message: "Success".to_owned() }
    }

    /// The recorded errno.
    pub fn errno(&self) -> (c: i32)
        ensures
            c == self.errno,
    {
        self.errno
    }

    /// The recorded description.
    pub fn message(&self) -> (m: &String)
        ensures
            m == &self.message,
    {
        &self.message
    }
}

/// How the slot relates to its old value once an operation with the given
/// status has completed: a status in the defined range is recorded, any
/// other leaves the slot untouched.
pub open spec fn slot_after(prev: LastError, cur: LastError, status: int) -> bool {
    if 0 <= status <= 76 {
        cur.records(status)
    } else {
        cur == prev
    }
}

/// What a completed operation's status translates to: success for 0, the
/// structured host error for a defined errno, and an internal-consistency
/// error for anything else.
pub open spec fn status_outcome_spec(status: int) -> Result<(), ShimError> {
    if status == 0 {
        Ok(())
    } else if 1 <= status <= 76 {
        Err(ShimError::Host(WasiError::from_code_spec(status).unwrap()))
    } else {
        Err(ShimError::Internal(status as i32))
    }
}

/// Records a completed operation's status in the slot — success included —
/// and translates it: a non-zero defined status becomes the structured host
/// error carrying its errno, and a status outside the defined range is an
/// internal-consistency error that leaves the slot untouched.
pub fn process_error(last: &mut LastError, status: i32) -> (r: Result<(), ShimError>)
    ensures
        r == status_outcome_spec(status as int),
        slot_after(*old(last), *final(last), status as int),
{
    if status == 0 {
        last.errno = 0;
        last.message = "Success".to_owned();
        Ok(())
    } else {
        match WasiError::from_code(status) {
            Some(e) => {
                last.errno = status;
                last.message = e.message().to_owned();
                Err(ShimError::Host(e))
            },
            None => Err(ShimError::Internal(status)),
        }
    }
}

} // verus!
