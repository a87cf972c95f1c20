//! Power-of-two arithmetic on 32-bit sizes: rounding a dimension up to the
//! next power of two, and a bit scan that works by table lookup instead of a
//! hardware count-leading-zeros instruction.

use vstd::prelude::*;
use vstd::arithmetic::power2::{
    lemma2_to64, lemma_pow2_pos, lemma_pow2_strictly_increases, lemma_pow2_unfold, pow2,
};

verus! {

/// `x` is `2^k` for some natural `k`.
pub open spec fn is_power_of_two(x: int) -> bool {
    exists|k: nat| x == #[trigger] pow2(k)
}

/// The least `k` with `x <= 2^k`.
pub open spec fn ceil_log2(x: nat) -> nat
    decreases x,
{
    if x <= 1 {
        0
    } else {
        1 + ceil_log2((x + 1) / 2)
    }
}

/// The smallest power of two that is at least `x`.
pub open spec fn spec_next_power_of_two(x: nat) -> nat {
    pow2(ceil_log2(x))
}

/// The number of zero bits above the highest set bit of a 32-bit value,
/// with the convention of the table scan that zero maps to zero.
pub open spec fn spec_clz(x: nat) -> nat
    recommends
        x < pow2(32),
{
    if x == 0 {
        0
    } else {
        (32 - ceil_log2(x + 1)) as nat
    }
}

/// `2^ceil_log2(x)` reaches `x`, and the power below it does not.
pub proof fn lemma_ceil_log2_bounds(x: nat)
    ensures
        x <= pow2(ceil_log2(x)),
        ceil_log2(x) > 0 ==> pow2((ceil_log2(x) - 1) as nat) < x,
    decreases x,
{
    lemma2_to64();
    if x > 1 {
        let h = (x + 1) / 2;
        let c = ceil_log2(h);
        lemma_ceil_log2_bounds(h);
        lemma_pow2_unfold(c + 1);
        if c > 0 {
            lemma_pow2_unfold(c);
        }
    }
}

/// An exponent whose power reaches `x` while the power below does not is
/// `ceil_log2(x)`.
pub proof fn lemma_ceil_log2_unique(x: nat, k: nat)
    requires
        x <= pow2(k),
        k > 0 ==> pow2((k - 1) as nat) < x,
    ensures
        k == ceil_log2(x),
{
    let c = ceil_log2(x);
    lemma_ceil_log2_bounds(x);
    if k < c {
        if k < c - 1 {
            lemma_pow2_strictly_increases(k, (c - 1) as nat);
        }
    } else if c < k {
        if c < k - 1 {
            lemma_pow2_strictly_increases(c, (k - 1) as nat);
        }
    }
}

/// `spec_next_power_of_two(x)` is a power of two, is at least `x`, and no
/// smaller power of two is.
pub proof fn lemma_next_power_of_two_is_least(x: nat)
    ensures
        is_power_of_two(spec_next_power_of_two(x) as int),
        x <= spec_next_power_of_two(x),
        forall|q: int| is_power_of_two(q) && x <= q ==> spec_next_power_of_two(x) <= q,
{
    let c = ceil_log2(x);
    lemma_ceil_log2_bounds(x);
    assert forall|q: int| is_power_of_two(q) && x <= q implies pow2(c) <= q by {
        let k = choose|k: nat| q == #[trigger] pow2(k);
        if k < c {
            if k < c - 1 {
                lemma_pow2_strictly_increases(k, (c - 1) as nat);
            }
        } else if c < k {
            lemma_pow2_strictly_increases(c, k);
        }
    }
}

/// A power of two is its own next power of two, and its exponent is exact.
pub proof fn lemma_ceil_log2_of_power(k: nat)
    ensures
        ceil_log2(pow2(k)) == k,
        spec_next_power_of_two(pow2(k)) == pow2(k),
{
    lemma_pow2_pos(k);
    if k > 0 {
        lemma_pow2_strictly_increases((k - 1) as nat, k);
    }
    lemma_ceil_log2_unique(pow2(k), k);
}

/// `ceil_log2` never decreases.
pub proof fn lemma_ceil_log2_monotonic(x: nat, y: nat)
    requires
        x <= y,
    ensures
        ceil_log2(x) <= ceil_log2(y),
{
    let cx = ceil_log2(x);
    let cy = ceil_log2(y);
    lemma_ceil_log2_bounds(x);
    lemma_ceil_log2_bounds(y);
    if cy < cx {
        if cy < cx - 1 {
            lemma_pow2_strictly_increases(cy, (cx - 1) as nat);
        }
    }
}

/// Rounds `x` up to the next power of two. Zero rounds up to one.
pub fn next_power_of_two(x: u32) -> (p: u32)
    requires
        x <= 0x8000_0000,
    ensures
        p == spec_next_power_of_two(x as nat),
        is_power_of_two(p as int),
        x <= p,
        forall|q: int| is_power_of_two(q) && x <= q ==> p <= q,
{
    let mut p: u32 = 1;
    let ghost mut k: nat = 0;
    proof {
        lemma2_to64();
    }
    while p < x
        invariant
            x <= 0x8000_0000,
            p == pow2(k),
            k <= 31,
            k > 0 ==> pow2((k - 1) as nat) < x,
        decreases 32 - k,
    {
        proof {
            lemma2_to64();
            if k == 31 {
                assert(false);
            }
            lemma_pow2_unfold(k + 1);
        }
        p = p * 2;
        proof {
            k = k + 1;
        }
    }
    proof {
        lemma_ceil_log2_unique(x as nat, k);
        lemma_next_power_of_two_is_least(x as nat);
    }
    p
}

/// The multiplier of the scan: a de Bruijn sequence, whose 32 windows of
/// five bits are all different.
pub const DE_BRUIJN: u32 = 0x076b_e629;

/// The scan table as a sequence. The entry at the hash of `2^k` is
/// `(32 - k) % 32`.
pub open spec fn spec_scan_table() -> Seq<u32> {
    seq![
        0u32, 31, 9, 30, 3, 8, 13, 29, 2, 5, 7, 21, 12, 24, 28, 19,
        1, 10, 4, 14, 6, 22, 25, 20, 11, 15, 23, 26, 16, 27, 17, 18,
    ]
}

/// The table index of `p`: the top five bits of the wrapped product of `p`
/// and the multiplier.
pub open spec fn scan_hash(p: u32) -> int {
    ((p as nat * DE_BRUIJN as nat) % 0x1_0000_0000) as int / 0x800_0000
}

proof fn lemma_shift_is_division(v: u32)
    by (bit_vector)
    ensures
        v >> 27 == v / 0x800_0000,
{
}

/// The table maps the hash of `2^k` to `(32 - k) % 32`, and the hash of zero
/// to zero.
pub proof fn lemma_scan_of_power(k: nat)
    requires
        k <= 31,
    ensures
        0 <= scan_hash(pow2(k) as u32) < 32,
        spec_scan_table()[scan_hash(pow2(k) as u32)] == (32 - k) % 32,
        scan_hash(0) == 0,
        spec_scan_table()[0] == 0,
{
    lemma2_to64();
}

/// Counts the zero bits above the highest set bit of `x` without a hardware
/// bit scan: `x + 1` is rounded up to a power of two, which wraps to zero
/// past `2^31`, and the result is looked up by its hash. Zero maps to zero.
pub fn clz(x: u32) -> (r: u32)
    ensures
        r == spec_clz(x as nat),
        r <= 31,
        x >= 1 ==> pow2((31 - r) as nat) <= x < pow2((32 - r) as nat),
{
    let table: [u32; 32] = [
        0, 31, 9, 30, 3, 8, 13, 29, 2, 5, 7, 21, 12, 24, 28, 19,
        1, 10, 4, 14, 6, 22, 25, 20, 11, 15, 23, 26, 16, 27, 17, 18,
    ];
    let p: u32 = if x >= 0x8000_0000 {
        0
    } else {
        next_power_of_two(x + 1)
    };
    let product: u32 = p.wrapping_mul(DE_BRUIJN);
    let index: usize = (product >> 27) as usize;
    proof {
        lemma2_to64();
        lemma_shift_is_division(product);
        assert(table@ =~= spec_scan_table());
        let c = ceil_log2((x + 1) as nat);
        lemma_ceil_log2_bounds((x + 1) as nat);
        if x >= 0x8000_0000 {
            lemma_ceil_log2_unique((x + 1) as nat, 32);
            lemma_scan_of_power(0);
        } else {
            if c > 31 {
                lemma_pow2_strictly_increases(31, (c - 1) as nat);
            }
            lemma_scan_of_power(c);
        }
    }
    table[index]
}

} // verus!
