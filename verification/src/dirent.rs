//! The directory-entry stream decoder: a flat byte buffer filled by repeated
//! host reads, walked by fixed-offset headers into discrete entry names.

use vstd::prelude::*;

use crate::bytes_le::{le_to_nat, read_u32_le};
use crate::error::{DecodeFault, ShimError};
use crate::script::utf8_to_string;
use vstd::slice::{slice_subrange, slice_to_vec};
use vstd::utf8::{decode_utf8, valid_utf8};

verus! {

/// The byte count of an entry header: eight bytes of cookie, eight of inode,
/// a four-byte little-endian name length, and four of type code and padding;
/// the name's bytes follow.
pub const DIRENT_HEADER_LEN: usize = 24;

/// What decoding a directory-entry stream yields: each entry's name, in
/// stream order, by walking the headers. An empty buffer is exactly
/// consumed and yields no names; a buffer that ends inside a header, a
/// header that declares more name bytes than remain, and name bytes that are
/// not UTF-8 are each a decode fault, never an out-of-bounds read.
pub open spec fn dirent_names_spec(b: Seq<u8>) -> Result<Seq<Seq<char>>, DecodeFault>
    decreases b.len(),
{
    if b.len() == 0 {
        Ok(Seq::empty())
    } else if b.len() < 24 {
        Err(DecodeFault::TruncatedEntryHeader { remaining: b.len() as usize })
    } else {
        let namlen = le_to_nat(b.subrange(16, 20));
        if namlen + 24 > b.len() {
            Err(
                DecodeFault::NameOverrun {
                    declared: namlen as usize,
                    remaining: (b.len() - 24) as usize,
                },
            )
        } else {
            let name = b.subrange(24, 24 + namlen as int);
            if !valid_utf8(name) {
                Err(DecodeFault::InvalidUtf8)
            } else {
                match dirent_names_spec(b.skip(24 + namlen as int)) {
                    Ok(rest) => Ok(seq![decode_utf8(name)] + rest),
                    Err(f) => Err(f),
                }
            }
        }
    }
}

/// Decodes a directory-entry stream into its entry names, in order.
pub fn decode_directory_stream(b: &Vec<u8>) -> (r: Result<Vec<String>, ShimError>)
    ensures
        match dirent_names_spec(b@) {
            Ok(names) => r matches Ok(v) && v.deep_view() == names,
            Err(f) => r == Err::<Vec<String>, ShimError>(ShimError::Decode(f)),
        },
{
    let n = b.len();
    let mut off: usize = 0;
    let mut out: Vec<String> = Vec::new();
    proof {
        assert(b@.skip(0) =~= b@);
    }
    while off < n
        invariant
            n == b@.len(),
            off <= n,
            match dirent_names_spec(b@.skip(off as int)) {
                Ok(rest) => dirent_names_spec(b@) == Ok::<Seq<Seq<char>>, DecodeFault>(
                    out.deep_view() + rest,
                ),
                Err(f) => dirent_names_spec(b@) == Err::<Seq<Seq<char>>, DecodeFault>(f),
            },
        decreases n - off,
    {
        let ghost o = off as int;
        let ghost tail = b@.skip(o);
        let remaining = n - off;
        if remaining < DIRENT_HEADER_LEN {
            proof {
                assert(tail.len() == remaining);
            }
            return Err(
                ShimError::Decode(DecodeFault::TruncatedEntryHeader { remaining }),
            );
        }
        proof {
            assert(tail.subrange(16, 20) =~= b@.subrange(o + 16, o + 20));
        }
        let namlen = read_u32_le(b, off + 16) as usize;
        if namlen > remaining - DIRENT_HEADER_LEN {
            return Err(
                ShimError::Decode(
                    DecodeFault::NameOverrun {
                        declared: namlen,
                        remaining: remaining - DIRENT_HEADER_LEN,
                    },
                ),
            );
        }
        proof {
            assert(tail.subrange(24, 24 + namlen as int) =~= b@.subrange(
                o + 24,
                o + 24 + namlen as int,
            ));
        }
        let name_slice = slice_subrange(b.as_slice(), off + 24, off + 24 + namlen);
        let name_bytes = slice_to_vec(name_slice);
        let name = match utf8_to_string(&name_bytes) {
            Some(s) => s,
            None => {
                return Err(ShimError::Decode(DecodeFault::InvalidUtf8));
            },
        };
        let ghost prev_out = out.deep_view();
        out.push(name);
        off = off + DIRENT_HEADER_LEN + namlen;
        proof {
            assert(tail.skip(24 + namlen as int) =~= b@.skip(off as int));
            assert(out.deep_view() =~= prev_out + seq![decode_utf8(tail.subrange(
                24,
                24 + namlen as int,
            ))]);
            match dirent_names_spec(b@.skip(off as int)) {
                Ok(rest) => {
                    assert(out.deep_view() + rest =~= prev_out + (seq![decode_utf8(
                        tail.subrange(24, 24 + namlen as int),
                    )] + rest));
                },
                Err(_) => {},
            }
        }
    }
    proof {
        assert(b@.skip(off as int) =~= Seq::<u8>::empty());
        assert(out.deep_view() + Seq::<Seq<char>>::empty() =~= out.deep_view());
    }
    Ok(out)
}

/// One packed entry at the head of a stream decodes to its name followed by
/// the rest of the stream's names: for any 24-byte header whose name-length
/// field counts the name's bytes, whatever the cookie, inode and type bytes
/// hold.
pub proof fn lemma_dirent_entry(header: Seq<u8>, name: Seq<u8>, rest: Seq<u8>)
    requires
        header.len() == 24,
        le_to_nat(header.subrange(16, 20)) == name.len(),
        valid_utf8(name),
    ensures
        dirent_names_spec(header + name + rest) == match dirent_names_spec(rest) {
            Ok(tail) => Ok::<Seq<Seq<char>>, DecodeFault>(seq![decode_utf8(name)] + tail),
            Err(f) => Err::<Seq<Seq<char>>, DecodeFault>(f),
        },
{
    let b = header + name + rest;
    assert(b.len() == 24 + name.len() + rest.len());
    assert(b.subrange(16, 20) =~= header.subrange(16, 20));
    assert(b.subrange(24, 24 + name.len() as int) =~= name);
    assert(b.skip(24 + name.len() as int) =~= rest);
}

} // verus!
