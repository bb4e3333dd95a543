//! Little-endian integers in byte buffers read from the game's memory.

use vstd::prelude::*;

verus! {

/// The unsigned little-endian value of a byte sequence.
pub open spec fn le_nat(s: Seq<u8>) -> nat
    decreases s.len(),
{
    if s.len() == 0 {
        0
    } else {
        (s[0] as nat) + 256 * le_nat(s.drop_first())
    }
}

/// The two's-complement value of `s` read as a signed `bits`-bit little-endian integer.
pub open spec fn le_signed(s: Seq<u8>, bits: nat) -> int {
    if le_nat(s) >= pow2(bits) / 2 {
        le_nat(s) - pow2(bits)
    } else {
        le_nat(s) as int
    }
}

pub open spec fn pow2(bits: nat) -> nat
    decreases bits,
{
    if bits == 0 {
        1
    } else {
        2 * pow2((bits - 1) as nat)
    }
}

pub open spec fn pow256(n: nat) -> nat
    decreases n,
{
    if n == 0 {
        1
    } else {
        256 * pow256((n - 1) as nat)
    }
}

/// `n` bytes at `off`.
pub open spec fn field(b: Seq<u8>, off: int, n: int) -> Seq<u8> {
    b.subrange(off, off + n)
}

proof fn lemma_pow256_bounds()
    ensures
        pow256(1) == 0x100,
        pow256(2) == 0x1_0000,
        pow256(4) == 0x1_0000_0000,
        pow256(8) == 0x1_0000_0000_0000_0000,
        pow2(16) == 0x1_0000,
        pow2(32) == 0x1_0000_0000,
        pow2(64) == 0x1_0000_0000_0000_0000,
{
    reveal_with_fuel(pow256, 9);
    reveal_with_fuel(pow2, 65);
}

proof fn lemma_pow256_monotone(a: nat, b: nat)
    requires
        a <= b,
    ensures
        pow256(a) <= pow256(b),
    decreases b,
{
    if a < b {
        lemma_pow256_monotone(a, (b - 1) as nat);
    }
}

/// Reads `n <= 8` bytes at `off` as an unsigned little-endian integer.
pub fn read_le(b: &[u8], off: usize, n: usize) -> (v: u64)
    requires
        n <= 8,
        off + n <= b@.len(),
    ensures
        v == le_nat(field(b@, off as int, n as int)),
        v < pow256(n as nat),
{
    let len = b.len();
    let mut acc: u64 = 0;
    let mut i = n;
    proof {
        lemma_pow256_bounds();
        assert(field(b@, off + n, 0) =~= Seq::<u8>::empty());
    }
    while i > 0
        invariant
            0 <= i <= n <= 8,
            off + n <= b@.len(),
            len == b@.len(),
            acc == le_nat(b@.subrange(off + i, off + n)),
            acc < pow256((n - i) as nat),
            pow256(8) == 0x1_0000_0000_0000_0000,
        decreases i,
    {
        let ghost tail = b@.subrange(off + i, off + n);
        let ghost longer = b@.subrange(off + i - 1, off + n);
        assert(longer.drop_first() =~= tail);
        assert(longer[0] == b@[off + i - 1]);
        proof {
            lemma_pow256_monotone((n - i + 1) as nat, 8);
            assert(pow256((n - i + 1) as nat) == 256 * pow256((n - i) as nat));
            assert(256 * acc + b@[off + i - 1] < pow256((n - i + 1) as nat)) by (nonlinear_arith)
                requires
                    acc < pow256((n - i) as nat),
                    b@[off + i - 1] < 256,
                    pow256((n - i + 1) as nat) == 256 * pow256((n - i) as nat),
            ;
        }
        let idx: usize = off + (i - 1);
        acc = acc * 256 + b[idx] as u64;
        i -= 1;
    }
    acc
}

/// The unsigned 64-bit little-endian integer at `off`.
pub fn read_u64_from(b: &[u8], off: usize) -> (v: u64)
    requires
        off + 8 <= b@.len(),
    ensures
        v == le_nat(field(b@, off as int, 8)),
{
    read_le(b, off, 8)
}

/// The unsigned 32-bit little-endian integer at `off`.
pub fn read_u32_from(b: &[u8], off: usize) -> (v: u32)
    requires
        off + 4 <= b@.len(),
    ensures
        v == le_nat(field(b@, off as int, 4)),
{
    proof {
        lemma_pow256_bounds();
    }
    read_le(b, off, 4) as u32
}

/// The unsigned 16-bit little-endian integer at `off`.
pub fn read_u16_from(b: &[u8], off: usize) -> (v: u16)
    requires
        off + 2 <= b@.len(),
    ensures
        v == le_nat(field(b@, off as int, 2)),
{
    proof {
        lemma_pow256_bounds();
    }
    read_le(b, off, 2) as u16
}

/// The signed 32-bit little-endian integer at `off`.
pub fn read_i32_from(b: &[u8], off: usize) -> (v: i32)
    requires
        off + 4 <= b@.len(),
    ensures
        v == le_signed(field(b@, off as int, 4), 32),
{
    proof {
        lemma_pow256_bounds();
    }
    let u = read_le(b, off, 4);
    if u >= 0x8000_0000 {
        ((u - 0x8000_0000) as i32) + i32::MIN
    } else {
        u as i32
    }
}

/// The signed 16-bit little-endian integer at `off`.
pub fn read_i16_from(b: &[u8], off: usize) -> (v: i16)
    requires
        off + 2 <= b@.len(),
    ensures
        v == le_signed(field(b@, off as int, 2), 16),
{
    proof {
        lemma_pow256_bounds();
    }
    let u = read_le(b, off, 2);
    if u >= 0x8000 {
        ((u - 0x8000) as i16) + i16::MIN
    } else {
        u as i16
    }
}

} // verus!
