//! The file-status record: a fixed-layout aggregate the host writes as
//! exactly 64 bytes, decoded here into a structured value.

use vstd::prelude::*;

use crate::bytes_le::{
    le_to_nat, lemma_le_roundtrip, lemma_le_to_nat_bound, lemma_nat_to_le_len, nat_to_le, pow256,
    push_u64_le, read_u64_le,
};
use crate::error::{DecodeFault, ShimError};

verus! {

/// The byte count of a packed file-status record.
pub const FILESTAT_LEN: usize = 64;

/// A decoded file-status record. The file-type code is one of the eight the
/// host defines; the decoder rejects any other code, so a decoded record
/// always satisfies [`Filestat::wf`].
#[derive(Clone, Copy, Debug, PartialEq, Eq, Structural)]
pub struct Filestat {
    /// Device id the file lives on.
    pub device_id: u64,
    /// Inode number.
    pub inode: u64,
    /// File-type code.
    pub filetype: u8,
    /// Hard-link count.
    pub nlink: u64,
    /// File size in bytes.
    pub size: u64,
    /// Access time.
    pub atim: u64,
    /// Modification time.
    pub mtim: u64,
    /// Change time.
    pub ctim: u64,
}

impl Filestat {
    /// A well-formed record carries a recognized file-type code.
    pub open spec fn wf(self) -> bool {
        self.filetype <= 7
    }
}

/// The packed byte layout of a record: each 64-bit field little-endian at
/// its fixed offset, the file-type code at offset 16, and seven padding
/// bytes after it.
pub open spec fn filestat_bytes(fs: Filestat) -> Seq<u8> {
    nat_to_le(fs.device_id as nat, 8) + nat_to_le(fs.inode as nat, 8) + seq![fs.filetype]
        + nat_to_le(0, 7) + nat_to_le(fs.nlink as nat, 8) + nat_to_le(fs.size as nat, 8)
        + nat_to_le(fs.atim as nat, 8) + nat_to_le(fs.mtim as nat, 8) + nat_to_le(
        fs.ctim as nat,
        8,
    )
}

/// What decoding a byte buffer as a record yields: the structured record for
/// a 64-byte buffer with a recognized file-type code, and the exact fault
/// otherwise. The caller always allocates the exact size, so a wrong length
/// is an internal layout violation, not a user-facing condition.
pub open spec fn decode_filestat_spec(b: Seq<u8>) -> Result<Filestat, DecodeFault> {
    if b.len() != 64 {
        Err(DecodeFault::WrongLength { expected: 64, got: b.len() as usize })
    } else if b[16] > 7 {
        Err(DecodeFault::UnknownFileType { code: b[16] })
    } else {
        Ok(
            Filestat {
                device_id: le_to_nat(b.subrange(0, 8)) as u64,
                inode: le_to_nat(b.subrange(8, 16)) as u64,
                filetype: b[16],
                nlink: le_to_nat(b.subrange(24, 32)) as u64,
                size: le_to_nat(b.subrange(32, 40)) as u64,
                atim: le_to_nat(b.subrange(40, 48)) as u64,
                mtim: le_to_nat(b.subrange(48, 56)) as u64,
                ctim: le_to_nat(b.subrange(56, 64)) as u64,
            },
        )
    }
}

/// 256 to the eighth is exactly one more than the largest 64-bit number.
proof fn lemma_pow256_8()
    ensures
        pow256(8) == 0x1_0000_0000_0000_0000,
{
    assert(pow256(0) == 1);
    assert(pow256(1) == 256);
    assert(pow256(2) == 0x1_0000);
    assert(pow256(3) == 0x100_0000);
    assert(pow256(4) == 0x1_0000_0000);
    assert(pow256(5) == 0x100_0000_0000);
    assert(pow256(6) == 0x1_0000_0000_0000);
    assert(pow256(7) == 0x100_0000_0000_0000);
    assert(pow256(8) == 0x1_0000_0000_0000_0000);
}

/// Decodes a packed record. This is a pure function over exactly the fixed
/// byte count; a buffer of any other length, or an unrecognized file-type
/// code, is a decode fault.
pub fn decode_filestat(b: &Vec<u8>) -> (r: Result<Filestat, ShimError>)
    ensures
        match decode_filestat_spec(b@) {
            Ok(fs) => r == Ok::<Filestat, ShimError>(fs),
            Err(f) => r == Err::<Filestat, ShimError>(ShimError::Decode(f)),
        },
        r matches Ok(fs) ==> fs.wf(),
{
    if b.len() != FILESTAT_LEN {
        return Err(
            ShimError::Decode(DecodeFault::WrongLength { expected: FILESTAT_LEN, got: b.len() }),
        );
    }
    let filetype = b[16];
    if filetype > 7 {
        return Err(ShimError::Decode(DecodeFault::UnknownFileType { code: filetype }));
    }
    proof {
        lemma_pow256_8();
        lemma_le_to_nat_bound(b@.subrange(0, 8));
        lemma_le_to_nat_bound(b@.subrange(8, 16));
        lemma_le_to_nat_bound(b@.subrange(24, 32));
        lemma_le_to_nat_bound(b@.subrange(32, 40));
        lemma_le_to_nat_bound(b@.subrange(40, 48));
        lemma_le_to_nat_bound(b@.subrange(48, 56));
        lemma_le_to_nat_bound(b@.subrange(56, 64));
    }
    Ok(
        Filestat {
            device_id: read_u64_le(b, 0),
            inode: read_u64_le(b, 8),
            filetype,
            nlink: read_u64_le(b, 24),
            size: read_u64_le(b, 32),
            atim: read_u64_le(b, 40),
            mtim: read_u64_le(b, 48),
            ctim: read_u64_le(b, 56),
        },
    )
}

/// Packs a record into its fixed byte layout.
pub fn encode_filestat(fs: &Filestat) -> (r: Vec<u8>)
    ensures
        r@ == filestat_bytes(*fs),
        r@.len() == 64,
{
    let mut out: Vec<u8> = Vec::new();
    push_u64_le(&mut out, fs.device_id);
    push_u64_le(&mut out, fs.inode);
    out.push(fs.filetype);
    out.push(0);
    out.push(0);
    out.push(0);
    out.push(0);
    out.push(0);
    out.push(0);
    out.push(0);
    push_u64_le(&mut out, fs.nlink);
    push_u64_le(&mut out, fs.size);
    push_u64_le(&mut out, fs.atim);
    push_u64_le(&mut out, fs.mtim);
    push_u64_le(&mut out, fs.ctim);
    proof {
        lemma_nat_to_le_len(fs.device_id as nat, 8);
        lemma_nat_to_le_len(fs.inode as nat, 8);
        lemma_nat_to_le_len(fs.nlink as nat, 8);
        lemma_nat_to_le_len(fs.size as nat, 8);
        lemma_nat_to_le_len(fs.atim as nat, 8);
        lemma_nat_to_le_len(fs.mtim as nat, 8);
        lemma_nat_to_le_len(fs.ctim as nat, 8);
        assert(nat_to_le(0, 7) =~= seq![0u8, 0u8, 0u8, 0u8, 0u8, 0u8, 0u8]) by {
            assert(nat_to_le(0, 0) =~= Seq::<u8>::empty());
            assert(nat_to_le(0, 1) =~= seq![0u8] + nat_to_le(0, 0));
            assert(nat_to_le(0, 2) =~= seq![0u8] + nat_to_le(0, 1));
            assert(nat_to_le(0, 3) =~= seq![0u8] + nat_to_le(0, 2));
            assert(nat_to_le(0, 4) =~= seq![0u8] + nat_to_le(0, 3));
            assert(nat_to_le(0, 5) =~= seq![0u8] + nat_to_le(0, 4));
            assert(nat_to_le(0, 6) =~= seq![0u8] + nat_to_le(0, 5));
            assert(nat_to_le(0, 7) =~= seq![0u8] + nat_to_le(0, 6));
        }
        assert(out@ =~= filestat_bytes(*fs));
    }
    out
}

/// Round-trip: packing a well-formed record and decoding the bytes returns
/// the record's field values exactly.
pub proof fn lemma_filestat_roundtrip(fs: Filestat)
    requires
        fs.wf(),
    ensures
        decode_filestat_spec(filestat_bytes(fs)) == Ok::<Filestat, DecodeFault>(fs),
{
    let b = filestat_bytes(fs);
    lemma_pow256_8();
    lemma_nat_to_le_len(fs.device_id as nat, 8);
    lemma_nat_to_le_len(fs.inode as nat, 8);
    lemma_nat_to_le_len(0, 7);
    lemma_nat_to_le_len(fs.nlink as nat, 8);
    lemma_nat_to_le_len(fs.size as nat, 8);
    lemma_nat_to_le_len(fs.atim as nat, 8);
    lemma_nat_to_le_len(fs.mtim as nat, 8);
    lemma_nat_to_le_len(fs.ctim as nat, 8);
    assert(b.len() == 64);
    assert(b[16] == fs.filetype);
    assert(b.subrange(0, 8) =~= nat_to_le(fs.device_id as nat, 8));
    assert(b.subrange(8, 16) =~= nat_to_le(fs.inode as nat, 8));
    assert(b.subrange(24, 32) =~= nat_to_le(fs.nlink as nat, 8));
    assert(b.subrange(32, 40) =~= nat_to_le(fs.size as nat, 8));
    assert(b.subrange(40, 48) =~= nat_to_le(fs.atim as nat, 8));
    assert(b.subrange(48, 56) =~= nat_to_le(fs.mtim as nat, 8));
    assert(b.subrange(56, 64) =~= nat_to_le(fs.ctim as nat, 8));
    lemma_le_roundtrip(fs.device_id as nat, 8);
    lemma_le_roundtrip(fs.inode as nat, 8);
    lemma_le_roundtrip(fs.nlink as nat, 8);
    lemma_le_roundtrip(fs.size as nat, 8);
    lemma_le_roundtrip(fs.atim as nat, 8);
    lemma_le_roundtrip(fs.mtim as nat, 8);
    lemma_le_roundtrip(fs.ctim as nat, 8);
}

/// Without intervening writes the host hands back the same record bytes,
/// and decoding is a pure function of those bytes: two stat calls then
/// return identical records.
pub proof fn lemma_stat_deterministic(b1: Seq<u8>, b2: Seq<u8>)
    requires
        b1 == b2,
    ensures
        decode_filestat_spec(b1) == decode_filestat_spec(b2),
{
}

} // verus!
