//! Big-endian ("network byte order") integer encodings, as mathematical
//! sequences of bytes, with the lemmas that relate encoding and decoding.
use vstd::prelude::*;
use vstd::arithmetic::div_mod::{lemma_breakdown, lemma_div_denominator, lemma_small_mod};

verus! {

/// `256` raised to the power `n`: the number of values that fit in `n` bytes.
pub open spec fn pow256(n: nat) -> nat
    decreases n,
{
    if n == 0 {
        1
    } else {
        256 * pow256((n - 1) as nat)
    }
}

/// The `n` low-order bytes of `v`, most significant byte first.
pub open spec fn be_bytes(v: nat, n: nat) -> Seq<u8>
    decreases n,
{
    if n == 0 {
        Seq::empty()
    } else {
        be_bytes(v / 256, (n - 1) as nat).push((v % 256) as u8)
    }
}

/// The number that a sequence of bytes denotes, most significant byte first.
pub open spec fn be_value(s: Seq<u8>) -> nat
    decreases s.len(),
{
    if s.len() == 0 {
        0
    } else {
        be_value(s.drop_last()) * 256 + s.last() as nat
    }
}

/// A 16-bit integer in network byte order.
pub open spec fn be16(v: u16) -> Seq<u8> {
    be_bytes(v as nat, 2)
}

/// A 32-bit integer in network byte order.
pub open spec fn be32(v: u32) -> Seq<u8> {
    be_bytes(v as nat, 4)
}

/// A 64-bit integer in network byte order.
pub open spec fn be64(v: u64) -> Seq<u8> {
    be_bytes(v as nat, 8)
}

pub proof fn lemma_pow256_positive(n: nat)
    ensures
        pow256(n) > 0,
    decreases n,
{
    if n > 0 {
        lemma_pow256_positive((n - 1) as nat);
    }
}

pub proof fn lemma_pow256_values()
    ensures
        pow256(2) == 0x1_0000,
        pow256(4) == 0x1_0000_0000,
        pow256(8) == 0x1_0000_0000_0000_0000,
{
    reveal_with_fuel(pow256, 9);
}

/// An encoding in `n` bytes has `n` bytes.
pub broadcast proof fn lemma_be_bytes_len(v: nat, n: nat)
    ensures
        #[trigger] be_bytes(v, n).len() == n,
    decreases n,
{
    if n > 0 {
        lemma_be_bytes_len(v / 256, (n - 1) as nat);
    }
}

/// Big-endian order: byte `i` of the `n`-byte encoding of `v` is digit
/// `n - 1 - i` of `v` in base 256, so the most significant byte comes first.
pub proof fn lemma_be_bytes_index(v: nat, n: nat, i: int)
    requires
        0 <= i < n,
    ensures
        be_bytes(v, n)[i] == (v / pow256((n - 1 - i) as nat)) % 256,
    decreases n,
{
    lemma_be_bytes_len(v / 256, (n - 1) as nat);
    let prev = be_bytes(v / 256, (n - 1) as nat);
    assert(be_bytes(v, n) == prev.push((v % 256) as u8));
    if i < n - 1 {
        lemma_be_bytes_index(v / 256, (n - 1) as nat, i);
        assert(be_bytes(v, n)[i] == prev[i]);
        let q = pow256((n - 2 - i) as nat);
        lemma_pow256_positive((n - 2 - i) as nat);
        lemma_div_denominator(v as int, 256, q as int);
        assert(pow256((n - 1 - i) as nat) == 256 * q);
        assert((v / 256) / q == v / pow256((n - 1 - i) as nat));
    } else {
        assert(be_bytes(v, n)[i] == (v % 256) as u8);
        assert(pow256(0) == 1);
        assert(v / pow256(0) == v);
    }
}

/// Decoding an encoding in `n` bytes gives back the value modulo `256^n`.
pub proof fn lemma_be_value_of_bytes(v: nat, n: nat)
    ensures
        be_value(be_bytes(v, n)) == v % pow256(n),
    decreases n,
{
    lemma_pow256_positive(n);
    if n == 0 {
    } else {
        let p = pow256((n - 1) as nat);
        lemma_pow256_positive((n - 1) as nat);
        lemma_be_value_of_bytes(v / 256, (n - 1) as nat);
        let s = be_bytes(v, n);
        assert(s.drop_last() =~= be_bytes(v / 256, (n - 1) as nat));
        lemma_breakdown(v as int, 256, p as int);
    }
}

/// A value that fits in `n` bytes is given back by decoding its encoding.
pub proof fn lemma_be_roundtrip(v: nat, n: nat)
    requires
        v < pow256(n),
    ensures
        be_value(be_bytes(v, n)) == v,
        be_bytes(v, n).len() == n,
{
    lemma_be_value_of_bytes(v, n);
    lemma_small_mod(v, pow256(n));
    lemma_be_bytes_len(v, n);
}

/// The fixed-width encodings decode to the value they encode.
pub proof fn lemma_be_fixed_roundtrip(a: u16, b: u32, c: u64)
    ensures
        be_value(be16(a)) == a,
        be16(a).len() == 2,
        be_value(be32(b)) == b,
        be32(b).len() == 4,
        be_value(be64(c)) == c,
        be64(c).len() == 8,
{
    lemma_pow256_values();
    lemma_be_roundtrip(a as nat, 2);
    lemma_be_roundtrip(b as nat, 4);
    lemma_be_roundtrip(c as nat, 8);
}

/// Two-byte and four-byte sequences, unfolded.
pub proof fn lemma_be_value_small(s: Seq<u8>)
    ensures
        s.len() == 2 ==> be_value(s) == s[0] as nat * 256 + s[1] as nat,
        s.len() == 4 ==> be_value(s) == ((s[0] as nat * 256 + s[1] as nat) * 256 + s[2] as nat)
            * 256 + s[3] as nat,
{
    reveal_with_fuel(be_value, 5);
    if s.len() == 2 {
        assert(s.drop_last().drop_last().len() == 0);
        assert(s.drop_last()[0] == s[0]);
    }
    if s.len() == 4 {
        let s3 = s.drop_last();
        let s2 = s3.drop_last();
        let s1 = s2.drop_last();
        assert(s1.drop_last().len() == 0);
        assert(s1[0] == s[0]);
        assert(s2[1] == s[1]);
        assert(s3[2] == s[2]);
    }
}

/// The big-endian 16-bit number stored at `pos` in `s`.
pub fn read_be16(s: &[u8], pos: usize) -> (r: u16)
    requires
        pos + 2 <= s@.len(),
    ensures
        r as nat == be_value(s@.subrange(pos as int, pos + 2)),
{
    proof {
        lemma_be_value_small(s@.subrange(pos as int, pos + 2));
    }
    (s[pos] as u16) * 256 + (s[pos + 1] as u16)
}

/// The big-endian 32-bit number stored at `pos` in `s`.
pub fn read_be32(s: &[u8], pos: usize) -> (r: u32)
    requires
        pos + 4 <= s@.len(),
    ensures
        r as nat == be_value(s@.subrange(pos as int, pos + 4)),
{
    proof {
        lemma_be_value_small(s@.subrange(pos as int, pos + 4));
    }
    let a = s[pos] as u32;
    let b = s[pos + 1] as u32;
    let c = s[pos + 2] as u32;
    let d = s[pos + 3] as u32;
    ((a * 256 + b) * 256 + c) * 256 + d
}

} // verus!
