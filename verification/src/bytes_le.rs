//! Little-endian byte codecs for the fixed-layout records the host writes.

use vstd::prelude::*;

verus! {

/// The number a byte sequence denotes when read little-endian: the first
/// byte is least significant.
pub open spec fn le_to_nat(s: Seq<u8>) -> nat
    decreases s.len(),
{
    if s.len() == 0 {
        0
    } else {
        (s[0] as nat) + 256 * le_to_nat(s.drop_first())
    }
}

/// The `n`-byte little-endian encoding of a number's low `8 * n` bits.
pub open spec fn nat_to_le(v: nat, n: nat) -> Seq<u8>
    decreases n,
{
    if n == 0 {
        Seq::empty()
    } else {
        seq![(v % 256) as u8] + nat_to_le(v / 256, (n - 1) as nat)
    }
}

/// 256 raised to a power: the number of values a byte width can hold.
pub open spec fn pow256(n: nat) -> nat
    decreases n,
{
    if n == 0 {
        1
    } else {
        256 * pow256((n - 1) as nat)
    }
}

/// A little-endian reading is bounded by what its width can hold.
pub proof fn lemma_le_to_nat_bound(s: Seq<u8>)
    ensures
        le_to_nat(s) < pow256(s.len()),
    decreases s.len(),
{
    if s.len() == 0 {
    } else {
        lemma_le_to_nat_bound(s.drop_first());
    }
}

/// An encoding has exactly the asked-for width.
pub proof fn lemma_nat_to_le_len(v: nat, n: nat)
    ensures
        nat_to_le(v, n).len() == n,
    decreases n,
{
    if n > 0 {
        lemma_nat_to_le_len(v / 256, (n - 1) as nat);
    }
}

/// Encoding a number below the width's capacity and reading it back returns
/// the number.
pub proof fn lemma_le_roundtrip(v: nat, n: nat)
    requires
        v < pow256(n),
    ensures
        le_to_nat(nat_to_le(v, n)) == v,
    decreases n,
{
    if n == 0 {
    } else {
        let s = nat_to_le(v, n);
        lemma_nat_to_le_len(v / 256, (n - 1) as nat);
        assert(s.drop_first() =~= nat_to_le(v / 256, (n - 1) as nat));
        lemma_le_roundtrip(v / 256, (n - 1) as nat);
    }
}

/// Reading a subrange little-endian: the first byte joins the reading of the
/// rest.
pub proof fn lemma_le_to_nat_step(b: Seq<u8>, i: int, j: int)
    requires
        0 <= i < j <= b.len(),
    ensures
        le_to_nat(b.subrange(i, j)) == b[i] + 256 * le_to_nat(b.subrange(i + 1, j)),
{
    assert(b.subrange(i, j).drop_first() =~= b.subrange(i + 1, j));
    assert(b.subrange(i, j)[0] == b[i]);
}

/// Reads the eight bytes at `off` as a little-endian 64-bit number.
pub fn read_u64_le(b: &Vec<u8>, off: usize) -> (r: u64)
    requires
        off + 8 <= b@.len(),
    ensures
        r as nat == le_to_nat(b@.subrange(off as int, off as int + 8)),
{
    let n = b.len();
    let ghost o = off as int;
    let mut r: u64 = b[off + 7] as u64;
    r = r * 256 + b[off + 6] as u64;
    r = r * 256 + b[off + 5] as u64;
    r = r * 256 + b[off + 4] as u64;
    r = r * 256 + b[off + 3] as u64;
    r = r * 256 + b[off + 2] as u64;
    r = r * 256 + b[off + 1] as u64;
    r = r * 256 + b[off] as u64;
    proof {
        lemma_le_to_nat_step(b@, o, o + 8);
        lemma_le_to_nat_step(b@, o + 1, o + 8);
        lemma_le_to_nat_step(b@, o + 2, o + 8);
        lemma_le_to_nat_step(b@, o + 3, o + 8);
        lemma_le_to_nat_step(b@, o + 4, o + 8);
        lemma_le_to_nat_step(b@, o + 5, o + 8);
        lemma_le_to_nat_step(b@, o + 6, o + 8);
        assert(b@.subrange(o + 7, o + 8) =~= seq![b@[o + 7]]);
        assert(seq![b@[o + 7]].drop_first() =~= Seq::<u8>::empty());
        assert(le_to_nat(Seq::<u8>::empty()) == 0);
        assert(le_to_nat(seq![b@[o + 7]]) == b@[o + 7] as nat);
    }
    r
}

/// Reads the four bytes at `off` as a little-endian 32-bit number.
pub fn read_u32_le(b: &Vec<u8>, off: usize) -> (r: u32)
    requires
        off + 4 <= b@.len(),
    ensures
        r as nat == le_to_nat(b@.subrange(off as int, off as int + 4)),
{
    let n = b.len();
    let ghost o = off as int;
    let mut r: u32 = b[off + 3] as u32;
    r = r * 256 + b[off + 2] as u32;
    r = r * 256 + b[off + 1] as u32;
    r = r * 256 + b[off] as u32;
    proof {
        lemma_le_to_nat_step(b@, o, o + 4);
        lemma_le_to_nat_step(b@, o + 1, o + 4);
        lemma_le_to_nat_step(b@, o + 2, o + 4);
        assert(b@.subrange(o + 3, o + 4) =~= seq![b@[o + 3]]);
        assert(seq![b@[o + 3]].drop_first() =~= Seq::<u8>::empty());
        assert(le_to_nat(Seq::<u8>::empty()) == 0);
        assert(le_to_nat(seq![b@[o + 3]]) == b@[o + 3] as nat);
    }
    r
}

/// Appends the eight-byte little-endian encoding of `v` to `out`.
pub fn push_u64_le(out: &mut Vec<u8>, v: u64)
    ensures
        final(out)@ =~= old(out)@ + nat_to_le(v as nat, 8),
{
    let b0 = (v % 256) as u8;
    let v1 = v / 256;
    let b1 = (v1 % 256) as u8;
    let v2 = v1 / 256;
    let b2 = (v2 % 256) as u8;
    let v3 = v2 / 256;
    let b3 = (v3 % 256) as u8;
    let v4 = v3 / 256;
    let b4 = (v4 % 256) as u8;
    let v5 = v4 / 256;
    let b5 = (v5 % 256) as u8;
    let v6 = v5 / 256;
    let b6 = (v6 % 256) as u8;
    let v7 = v6 / 256;
    let b7 = (v7 % 256) as u8;
    out.push(b0);
    out.push(b1);
    out.push(b2);
    out.push(b3);
    out.push(b4);
    out.push(b5);
    out.push(b6);
    out.push(b7);
    proof {
        assert(v7 < 256);
        assert(nat_to_le((v7 as nat) / 256, 0) =~= Seq::<u8>::empty());
        assert(nat_to_le(v7 as nat, 1) =~= seq![b7]);
        assert(nat_to_le(v6 as nat, 2) =~= seq![b6] + nat_to_le(v7 as nat, 1));
        assert(nat_to_le(v5 as nat, 3) =~= seq![b5] + nat_to_le(v6 as nat, 2));
        assert(nat_to_le(v4 as nat, 4) =~= seq![b4] + nat_to_le(v5 as nat, 3));
        assert(nat_to_le(v3 as nat, 5) =~= seq![b3] + nat_to_le(v4 as nat, 4));
        assert(nat_to_le(v2 as nat, 6) =~= seq![b2] + nat_to_le(v3 as nat, 5));
        assert(nat_to_le(v1 as nat, 7) =~= seq![b1] + nat_to_le(v2 as nat, 6));
        assert(nat_to_le(v as nat, 8) =~= seq![b0] + nat_to_le(v1 as nat, 7));
        assert(nat_to_le(v as nat, 8) =~= seq![b0, b1, b2, b3, b4, b5, b6, b7]);
    }
}

} // verus!
