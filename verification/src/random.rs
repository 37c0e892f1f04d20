//! The random-fill binding: overwriting a range of a caller-supplied buffer
//! with random bytes.
//!
//! The bytes come from the rand crate's securely seeded generator; what is
//! verified here is the marshalling of the range, its bounds check, and
//! that nothing outside the range is touched.

use vstd::prelude::*;

use crate::error::{ArgShape, Op, ShimError, ValidationFault};
use crate::script::ScriptValue;

verus! {

/// Relies on `rand::rng()` and `Rng::fill_bytes`: a securely seeded
/// generator fills the whole slice. Nothing is promised of the byte values;
/// two calls with the same count may differ.
#[verifier::external_body]
fn random_bytes(n: usize) -> (r: Vec<u8>)
    ensures
        r@.len() == n,
{
    let mut buf = vec![0u8; n];
    let mut rng = rand::rng();
    rand::Rng::fill_bytes(&mut rng, buf.as_mut_slice());
    buf
}

/// What marshalling the random-fill range arguments yields: the offset and
/// length, each a non-negative number.
pub open spec fn random_fill_range_spec(args: Seq<ScriptValue>) -> Result<(usize, usize), ShimError> {
    if args.len() < 3 {
        Err(
            ShimError::Validation(
                Op::RandomFill,
                ValidationFault::Arity { expected: 3, got: args.len() as usize },
            ),
        )
    } else {
        match args[1].as_int64_spec() {
            None => Err(
                ShimError::Validation(
                    Op::RandomFill,
                    ValidationFault::WrongType { index: 1, wanted: ArgShape::Int64 },
                ),
            ),
            Some(offset) => match args[2].as_int64_spec() {
                None => Err(
                    ShimError::Validation(
                        Op::RandomFill,
                        ValidationFault::WrongType { index: 2, wanted: ArgShape::Int64 },
                    ),
                ),
                Some(length) => if offset < 0 || length < 0 {
                    Err(ShimError::Validation(Op::RandomFill, ValidationFault::NegativeSize))
                } else {
                    Ok((offset as usize, length as usize))
                },
            },
        }
    }
}

/// Marshals the random-fill range: the buffer stands first in the argument
/// list, then the offset and the length into it.
pub fn random_fill_range(args: &Vec<ScriptValue>) -> (r: Result<(usize, usize), ShimError>)
    ensures
        r == random_fill_range_spec(args@),
{
    if args.len() < 3 {
        return Err(
            ShimError::Validation(
                Op::RandomFill,
                ValidationFault::Arity { expected: 3, got: args.len() },
            ),
        );
    }
    let offset = args[1].marshal_int64(Op::RandomFill, 1)?;
    let length = args[2].marshal_int64(Op::RandomFill, 2)?;
    if offset < 0 || length < 0 {
        return Err(ShimError::Validation(Op::RandomFill, ValidationFault::NegativeSize));
    }
    Ok((offset as usize, length as usize))
}

/// Overwrites `length` bytes of the buffer starting at `offset` with random
/// bytes. A range reaching beyond the buffer is a validation fault that
/// leaves the buffer untouched; bytes outside the range are never touched.
pub fn get_random_values(data: &mut Vec<u8>, offset: usize, length: usize) -> (r: Result<
    (),
    ShimError,
>)
    ensures
        offset + length <= old(data)@.len() ==> {
            &&& r is Ok
            &&& final(data)@.len() == old(data)@.len()
            &&& forall|i: int|
                0 <= i < old(data)@.len() && !(offset <= i < offset + length) ==> final(data)@[i]
                    == old(data)@[i]
        },
        offset + length > old(data)@.len() ==> r == Err::<(), ShimError>(
            ShimError::Validation(
                Op::RandomFill,
                ValidationFault::OutOfBuffer {
                    offset,
                    length,
                    buffer_len: old(data)@.len() as usize,
                },
            ),
        ) && *final(data) == *old(data),
{
    if length > data.len() || offset > data.len() - length {
        return Err(
            ShimError::Validation(
                Op::RandomFill,
                ValidationFault::OutOfBuffer { offset, length, buffer_len: data.len() },
            ),
        );
    }
    let n = data.len();
    let fresh = random_bytes(length);
    let mut i: usize = 0;
    while i < length
        invariant
            i <= length,
            n == data@.len(),
            offset + length <= n,
            fresh@.len() == length,
            data@.len() == old(data)@.len(),
            forall|k: int|
                0 <= k < old(data)@.len() && !(offset <= k < offset + i) ==> data@[k] == old(
                    data,
                )@[k],
        decreases length - i,
    {
        data.set(offset + i, fresh[i]);
        i = i + 1;
    }
    Ok(())
}

} // verus!
