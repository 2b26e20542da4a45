//! Integers as little-endian bytes.
//!
//! Both processes run on the same x86-64 machine, whose native byte order is
//! little-endian.

use vstd::prelude::*;

verus! {

/// The `n` low bytes of `v`, least significant first.
pub open spec fn le_bytes(v: nat, n: nat) -> Seq<u8>
    decreases n,
{
    if n == 0 {
        Seq::empty()
    } else {
        seq![(v % 256) as u8] + le_bytes(v / 256, (n - 1) as nat)
    }
}

/// The number that bytes stand for, least significant first.
pub open spec fn le_value(b: Seq<u8>) -> nat
    decreases b.len(),
{
    if b.len() == 0 {
        0
    } else {
        b[0] as nat + 256 * le_value(b.drop_first())
    }
}

/// The two's complement reading of four bytes.
pub open spec fn le_i32(b: Seq<u8>) -> int {
    let v = le_value(b) as int;
    if v < 0x8000_0000 {
        v
    } else {
        v - 0x1_0000_0000
    }
}

/// The four bytes of the two's complement form of `v`.
pub open spec fn i32_bytes(v: int) -> Seq<u8> {
    le_bytes((if v >= 0 { v } else { v + 0x1_0000_0000 }) as nat, 4)
}

/// `256` to the power `n`.
pub open spec fn pow256(n: nat) -> nat
    decreases n,
{
    if n == 0 {
        1
    } else {
        256 * pow256((n - 1) as nat)
    }
}

/// `le_bytes` has as many bytes as it was asked for.
pub proof fn lemma_le_bytes_len(v: nat, n: nat)
    ensures
        le_bytes(v, n).len() == n,
    decreases n,
{
    if n > 0 {
        lemma_le_bytes_len(v / 256, (n - 1) as nat);
    }
}

/// Reading back the bytes of a number gives the number, as far as the bytes
/// can hold it.
pub proof fn lemma_le_round_trip(v: nat, n: nat)
    requires
        v < pow256(n),
    ensures
        le_value(le_bytes(v, n)) == v,
        le_bytes(v, n).len() == n,
    decreases n,
{
    lemma_le_bytes_len(v, n);
    if n > 0 {
        let m = (n - 1) as nat;
        lemma_le_bytes_len(v / 256, m);
        assert(v / 256 < pow256(m));
        lemma_le_round_trip(v / 256, m);
        assert(le_bytes(v, n).drop_first() =~= le_bytes(v / 256, m));
        assert(le_bytes(v, n)[0] == (v % 256) as u8);
    }
}

/// Bytes never stand for more than they can hold.
pub proof fn lemma_le_value_bound(b: Seq<u8>)
    ensures
        le_value(b) < pow256(b.len()),
    decreases b.len(),
{
    if b.len() > 0 {
        lemma_le_value_bound(b.drop_first());
    }
}

/// The values of `pow256` for the widths in use.
pub proof fn lemma_pow256()
    ensures
        pow256(4) == 0x1_0000_0000,
        pow256(8) == 0x1_0000_0000_0000_0000,
{
    reveal_with_fuel(pow256, 9);
}

/// The `n` low bytes of `v`, least significant first.
pub fn put_le(v: u64, n: usize) -> (r: Vec<u8>)
    ensures
        r@ == le_bytes(v as nat, n as nat),
{
    let mut out: Vec<u8> = Vec::new();
    let mut rest: u64 = v;
    let mut i: usize = 0;
    while i < n
        invariant
            i <= n,
            out@ + le_bytes(rest as nat, (n - i) as nat) =~= le_bytes(v as nat, n as nat),
        decreases n - i,
    {
        let ghost before = out@;
        let ghost tail = le_bytes(rest as nat, (n - i) as nat);
        out.push((rest % 256) as u8);
        proof {
            assert(tail =~= seq![(rest % 256) as u8] + le_bytes(
                (rest / 256) as nat,
                (n - i - 1) as nat,
            ));
            assert(before + tail =~= out@ + le_bytes((rest / 256) as nat, (n - i - 1) as nat));
        }
        rest = rest / 256;
        i = i + 1;
    }
    out
}

/// The number that at most eight bytes stand for.
pub fn get_le(b: &[u8]) -> (r: u64)
    requires
        b@.len() <= 8,
    ensures
        r == le_value(b@),
{
    let mut v: u64 = 0;
    let mut i: usize = b.len();
    proof {
        assert(b@.skip(i as int) =~= Seq::<u8>::empty());
    }
    while i > 0
        invariant
            b@.len() <= 8,
            i <= b@.len(),
            v == le_value(b@.skip(i as int)),
        decreases i,
    {
        proof {
            let s = b@.skip(i - 1);
            assert(s.drop_first() =~= b@.skip(i as int));
            lemma_le_value_bound(s);
            lemma_pow256();
            reveal_with_fuel(pow256, 9);
            assert(s.len() <= 8);
        }
        v = b[i - 1] as u64 + 256 * v;
        i = i - 1;
    }
    proof {
        assert(b@.skip(0) =~= b@);
    }
    v
}

/// The four bytes of the two's complement form of `v`.
pub fn put_i32(v: i32) -> (r: Vec<u8>)
    ensures
        r@ == i32_bytes(v as int),
{
    let u: u64 = if v >= 0 {
        v as u64
    } else {
        (v as i64 + 0x1_0000_0000) as u64
    };
    put_le(u, 4)
}

/// The two's complement reading of four bytes.
pub fn get_i32(b: &[u8]) -> (r: i32)
    requires
        b@.len() == 4,
    ensures
        r == le_i32(b@),
{
    proof {
        lemma_le_value_bound(b@);
        lemma_pow256();
    }
    let v: u64 = get_le(b);
    if v < 0x8000_0000 {
        v as i32
    } else {
        (v as i64 - 0x1_0000_0000) as i32
    }
}

/// Reading back the four bytes of a 32-bit integer gives the integer.
pub proof fn lemma_i32_round_trip(v: i32)
    ensures
        le_i32(i32_bytes(v as int)) == v,
        i32_bytes(v as int).len() == 4,
{
    lemma_pow256();
    lemma_le_round_trip((if v >= 0 { v as int } else { v + 0x1_0000_0000 }) as nat, 4);
}

} // verus!
