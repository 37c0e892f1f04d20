//! Script-level argument values and their marshalling into the raw forms the
//! host interface requires.
//!
//! The scripting environment's dynamically-typed values are decoded once, at
//! the boundary, into this typed union; every marshaller here validates one
//! argument shape and fails with a fault naming the operation and the
//! offending argument.

use vstd::prelude::*;

use crate::error::{ArgShape, Op, ShimError, ValidationFault};
use vstd::utf8::{decode_utf8, encode_utf8, valid_utf8};

verus! {

/// A script-level argument value, decoded once from the host's dynamic value
/// domain.
pub enum ScriptValue {
    /// The script's null or undefined: an absent optional argument.
    Null,
    /// A number representable as a signed 32-bit integer.
    Int(i32),
    /// An arbitrary-precision integer, carried by its 64-bit value.
    Big(i64),
    /// A text value, as the raw bytes the script host handed over; whether
    /// they decode as UTF-8 is checked here, not at the edge.
    Text(Vec<u8>),
    /// A fixed-size byte buffer backing a read or write.
    Buffer(Vec<u8>),
}

impl ScriptValue {
    /// The value as a 32-bit handle or flag word, when it has that shape.
    pub open spec fn as_int32_spec(&self) -> Option<i32> {
        match *self {
            ScriptValue::Int(i) => Some(i),
            _ => None,
        }
    }

    /// The value as a 64-bit offset or rights mask: a plain number is
    /// widened, an arbitrary-precision integer is taken as it is.
    pub open spec fn as_int64_spec(&self) -> Option<i64> {
        match *self {
            ScriptValue::Int(i) => Some(i as i64),
            ScriptValue::Big(b) => Some(b),
            _ => None,
        }
    }

    /// The raw bytes of a text value, when it is one.
    pub open spec fn text_bytes_spec(&self) -> Option<Seq<u8>> {
        match *self {
            ScriptValue::Text(ref b) => Some(b@),
            _ => None,
        }
    }

    /// Marshal the value as a 32-bit handle or flag word.
    pub fn marshal_int32(&self, op: Op, index: usize) -> (r: Result<i32, ShimError>)
        ensures
            r is Ok <==> self.as_int32_spec() is Some,
            r matches Ok(i) ==> self.as_int32_spec() == Some(i),
            r matches Err(e) ==> e == ShimError::Validation(
                op,
                ValidationFault::WrongType { index, wanted: ArgShape::Int32 },
            ),
    {
        match *self {
            ScriptValue::Int(i) => Ok(i),
            _ => Err(
                ShimError::Validation(
                    op,
                    ValidationFault::WrongType { index, wanted: ArgShape::Int32 },
                ),
            ),
        }
    }

    /// Marshal the value as a genuine 64-bit integer, accepting either a
    /// plain number or an arbitrary-precision integer: the script's value
    /// domain cannot always carry 64-bit magnitudes as plain numbers.
    pub fn marshal_int64(&self, op: Op, index: usize) -> (r: Result<i64, ShimError>)
        ensures
            r is Ok <==> self.as_int64_spec() is Some,
            r matches Ok(i) ==> self.as_int64_spec() == Some(i),
            r matches Err(e) ==> e == ShimError::Validation(
                op,
                ValidationFault::WrongType { index, wanted: ArgShape::Int64 },
            ),
    {
        match *self {
            ScriptValue::Int(i) => Ok(i as i64),
            ScriptValue::Big(b) => Ok(b),
            _ => Err(
                ShimError::Validation(
                    op,
                    ValidationFault::WrongType { index, wanted: ArgShape::Int64 },
                ),
            ),
        }
    }

    /// Marshal the value as text: it must be a text value and its bytes must
    /// decode as UTF-8; a wrong shape and an invalid byte sequence are
    /// distinct faults.
    pub fn marshal_text(&self, op: Op, index: usize) -> (r: Result<String, ShimError>)
        ensures
            r is Ok <==> (self.text_bytes_spec() matches Some(b) && valid_utf8(b)),
            r matches Ok(s) ==> s@ == decode_utf8(self.text_bytes_spec().unwrap()),
            self.text_bytes_spec() is None ==> r == Result::<String, ShimError>::Err(
                ShimError::Validation(
                    op,
                    ValidationFault::WrongType { index, wanted: ArgShape::Text },
                ),
            ),
            (self.text_bytes_spec() matches Some(b) && !valid_utf8(b)) ==> r == Result::<
                String,
                ShimError,
            >::Err(ShimError::Validation(op, ValidationFault::InvalidUtf8 { index })),
    {
        match *self {
            ScriptValue::Text(ref b) => match utf8_to_string(b) {
                Some(s) => Ok(s),
                None => Err(ShimError::Validation(op, ValidationFault::InvalidUtf8 { index })),
            },
            _ => Err(
                ShimError::Validation(
                    op,
                    ValidationFault::WrongType { index, wanted: ArgShape::Text },
                ),
            ),
        }
    }

    /// Marshal the value as the byte buffer backing a transfer.
    pub fn marshal_buffer(&self, op: Op, index: usize) -> (r: Result<&Vec<u8>, ShimError>)
        ensures
            r is Ok <==> self is Buffer,
            r matches Ok(b) ==> (self matches ScriptValue::Buffer(bb) && b == bb),
            r matches Err(e) ==> e == ShimError::Validation(
                op,
                ValidationFault::WrongType { index, wanted: ArgShape::Buffer },
            ),
    {
        match *self {
            ScriptValue::Buffer(ref b) => Ok(b),
            _ => Err(
                ShimError::Validation(
                    op,
                    ValidationFault::WrongType { index, wanted: ArgShape::Buffer },
                ),
            ),
        }
    }
}

/// Relies on `String::from_utf8`: it returns the bytes as a string exactly
/// when they are valid UTF-8, and the string then holds those very bytes,
/// whose character reading is their UTF-8 decoding.
#[verifier::external_body]
pub(crate) fn utf8_to_string(bytes: &Vec<u8>) -> (r: Option<String>)
    ensures
        r is Some <==> valid_utf8(bytes@),
        r matches Some(s) ==> s@ == decode_utf8(bytes@) && encode_utf8(s@) == bytes@,
{
    match String::from_utf8(bytes.clone()) {
        Ok(s) => Some(s),
        Err(_) => None,
    }
}

/// What the optional size argument refers to, seen through the reference.
pub open spec fn opt_value(o: Option<&ScriptValue>) -> Option<ScriptValue> {
    match o {
        None => None,
        Some(v) => Some(*v),
    }
}

/// The transfer size a read or write uses, given the optional explicit size
/// argument and the backing buffer's length: an absent or null size defaults
/// to the whole buffer, an explicit size is clamped to the buffer's length —
/// never beyond it, as a safety policy — a negative size is a validation
/// fault, and a non-numeric one is a wrong-type fault.
pub open spec fn clamp_size_spec(size_arg: Option<ScriptValue>, buffer_len: int, op: Op) -> Result<
    int,
    ShimError,
> {
    match size_arg {
        None => Ok(buffer_len),
        Some(v) => match v {
            ScriptValue::Null => Ok(buffer_len),
            ScriptValue::Int(s) => if s < 0 {
                Err(ShimError::Validation(op, ValidationFault::NegativeSize))
            } else if s > buffer_len {
                Ok(buffer_len)
            } else {
                Ok(s as int)
            },
            _ => Err(
                ShimError::Validation(
                    op,
                    ValidationFault::WrongType { index: 1, wanted: ArgShape::Int32 },
                ),
            ),
        },
    }
}

/// Clamps the requested transfer size to the backing buffer, as
/// [`clamp_size_spec`] says.
pub fn clamp_size(size_arg: Option<&ScriptValue>, buffer_len: usize, op: Op) -> (r: Result<
    usize,
    ShimError,
>)
    ensures
        match clamp_size_spec(opt_value(size_arg), buffer_len as int, op) {
            Ok(n) => r matches Ok(m) && m == n && m <= buffer_len,
            Err(e) => r == Err::<usize, ShimError>(e),
        },
{
    match size_arg {
        None => Ok(buffer_len),
        Some(v) => match *v {
            ScriptValue::Null => Ok(buffer_len),
            ScriptValue::Int(s) => {
                if s < 0 {
                    Err(ShimError::Validation(op, ValidationFault::NegativeSize))
                } else if s as usize > buffer_len {
                    Ok(buffer_len)
                } else {
                    Ok(s as usize)
                }
            },
            _ => Err(
                ShimError::Validation(
                    op,
                    ValidationFault::WrongType { index: 1, wanted: ArgShape::Int32 },
                ),
            ),
        },
    }
}

} // verus!
