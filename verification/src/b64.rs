//! The base64 binding: encoding a slice of a caller-supplied buffer and
//! decoding a base64 string back to bytes.
//!
//! The codec itself is the base64 crate's standard-alphabet engine; what is
//! verified here is the bounds-checked slicing of the caller's buffer and
//! the exact translation of the engine's results and failures.

use vstd::prelude::*;

use crate::error::{DecodeFault, Op, ShimError, ValidationFault};
use vstd::slice::slice_subrange;

verus! {

/// The standard base64 encoding, with padding, of a byte sequence.
pub uninterp spec fn b64_of(b: Seq<u8>) -> Seq<char>;

/// The standard base64 decoding of a character sequence: bytes exactly for
/// well-formed standard base64, nothing otherwise.
pub uninterp spec fn b64_decode_of(s: Seq<char>) -> Option<Seq<u8>>;

/// Relies on base64's `Engine::encode` with the standard alphabet: the
/// result depends on the input bytes alone, and with padding it has four
/// characters for every three input bytes begun. The length bound keeps the
/// engine's output-size arithmetic within the machine word.
#[verifier::external_body]
fn b64_encode_raw(b: &[u8]) -> (r: String)
    requires
        b@.len() <= usize::MAX as nat / 4,
    ensures
        r@ == b64_of(b@),
        r@.len() == 4 * ((b@.len() + 2) / 3),
{
    base64::Engine::encode(&base64::engine::general_purpose::STANDARD, b)
}

/// Relies on base64's `Engine::decode` with the standard alphabet: the
/// result depends on the input characters alone, and decoding returns bytes
/// exactly when the input is well-formed standard base64.
#[verifier::external_body]
fn b64_decode_raw(s: &str) -> (r: Option<Vec<u8>>)
    ensures
        match r {
            Some(v) => b64_decode_of(s@) == Some(v@),
            None => b64_decode_of(s@) is None,
        },
{
    match base64::Engine::decode(&base64::engine::general_purpose::STANDARD, s) {
        Ok(v) => Some(v),
        Err(_) => None,
    }
}

/// Encodes `length` bytes of the buffer starting at `offset` as standard
/// base64. A range reaching beyond the buffer is a validation fault, never
/// a read past its end.
pub fn b64_encode(buffer: &Vec<u8>, offset: usize, length: usize) -> (r: Result<String, ShimError>)
    requires
        buffer@.len() <= usize::MAX as nat / 4,
    ensures
        offset + length <= buffer@.len() ==> (r matches Ok(s) && s@ == b64_of(
            buffer@.subrange(offset as int, offset as int + length as int),
        )),
        offset + length > buffer@.len() ==> r == Err::<String, ShimError>(
            ShimError::Validation(
                Op::Base64Encode,
                ValidationFault::OutOfBuffer { offset, length, buffer_len: buffer@.len() as usize },
            ),
        ),
{
    if length > buffer.len() || offset > buffer.len() - length {
        return Err(
            ShimError::Validation(
                Op::Base64Encode,
                ValidationFault::OutOfBuffer { offset, length, buffer_len: buffer.len() },
            ),
        );
    }
    let part = slice_subrange(buffer.as_slice(), offset, offset + length);
    Ok(b64_encode_raw(part))
}

/// Decodes a standard base64 string into the bytes it denotes; a string
/// that is not well-formed base64 is a decode fault.
pub fn b64_decode(s: &str) -> (r: Result<Vec<u8>, ShimError>)
    ensures
        match b64_decode_of(s@) {
            Some(b) => r matches Ok(v) && v@ == b,
            None => r == Err::<Vec<u8>, ShimError>(ShimError::Decode(DecodeFault::Base64)),
        },
{
    match b64_decode_raw(s) {
        Some(v) => Ok(v),
        None => Err(ShimError::Decode(DecodeFault::Base64)),
    }
}

} // verus!
