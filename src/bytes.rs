//! Little-endian decoding of unsigned integers from byte buffers.
use vstd::prelude::*;

verus! {

/// The unsigned value of `b` read as a little-endian number.
pub open spec fn le_value(b: Seq<u8>) -> nat
    decreases b.len(),
{
    if b.len() == 0 {
        0
    } else {
        b[0] as nat + 256 * le_value(b.drop_first())
    }
}

/// `256` raised to the power `n`.
pub open spec fn pow256(n: nat) -> nat
    decreases n,
{
    if n == 0 {
        1
    } else {
        256 * pow256((n - 1) as nat)
    }
}

/// Peeling the lowest byte off a window of `s`.
pub proof fn lemma_le_value_split(s: Seq<u8>, j: int, e: int)
    requires
        0 <= j < e <= s.len(),
    ensures
        le_value(s.subrange(j, e)) == s[j] as nat + 256 * le_value(s.subrange(j + 1, e)),
{
    assert(s.subrange(j, e).drop_first() =~= s.subrange(j + 1, e));
}

/// A little-endian value of `n` bytes is below `256^n`.
pub proof fn lemma_le_value_bound(b: Seq<u8>)
    ensures
        le_value(b) < pow256(b.len()),
    decreases b.len(),
{
    if b.len() > 0 {
        lemma_le_value_bound(b.drop_first());
    }
}

/// Reads the `w` bytes of `buf` that start at `off` as a little-endian number.
pub fn read_le(buf: &[u8], off: usize, w: usize) -> (r: u64)
    requires
        1 <= w <= 8,
        off + w <= buf.len(),
    ensures
        r as nat == le_value(buf@.subrange(off as int, off + w)),
        w == 1 ==> r < 0x100,
        w == 2 ==> r < 0x1_0000,
        w == 4 ==> r < 0x1_0000_0000,
{
    let mut acc: u64 = 0;
    let mut i: usize = w;
    let end: usize = off + w;
    proof {
        assert(buf@.subrange(off + w, off + w) =~= Seq::<u8>::empty());
        reveal_with_fuel(pow256, 9);
    }
    while i > 0
        invariant
            0 <= i <= w <= 8,
            end == off + w,
            off + w <= buf@.len(),
            acc as nat == le_value(buf@.subrange(off + i, off + w)),
            acc < pow256((w - i) as nat),
            pow256(7) == 0x0100_0000_0000_0000,
        decreases i,
    {
        proof {
            lemma_le_value_split(buf@, off + i - 1, off + w as int);
            reveal_with_fuel(pow256, 2);
            lemma_pow256_mono((w - i) as nat, 7);
        }
        acc = acc * 256 + buf[end - (w - i) - 1] as u64;
        i = i - 1;
    }
    proof {
        lemma_le_value_bound(buf@.subrange(off as int, off + w));
        reveal_with_fuel(pow256, 5);
    }
    acc
}

proof fn lemma_pow256_mono(a: nat, b: nat)
    requires
        a <= b,
    ensures
        pow256(a) <= pow256(b),
    decreases b,
{
    if a < b {
        lemma_pow256_mono(a, (b - 1) as nat);
    }
}

} // verus!
