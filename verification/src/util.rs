use vstd::prelude::*;
use crate::error::Error;

verus! {

/// Size of a page of physical memory, in bytes.
pub const PAGE_SIZE: usize = 4096;

/// Whether `n` is a power of two.
pub open spec fn is_pow2(n: int) -> bool
    decreases n,
{
    n == 1 || (n > 1 && n % 2 == 0 && is_pow2(n / 2))
}

/// Doubling a power of two gives a power of two.
pub proof fn lemma_pow2_double(n: int)
    requires
        is_pow2(n),
    ensures
        is_pow2(2 * n),
{
    assert((2 * n) / 2 == n);
    assert((2 * n) % 2 == 0);
}

/// Between a power of two and its double lies no power of two.
pub proof fn lemma_pow2_gap(p: int, q: int)
    requires
        is_pow2(p),
        is_pow2(q),
        p < q,
    ensures
        2 * p <= q,
    decreases q,
{
    if p > 1 {
        lemma_pow2_gap(p / 2, q / 2);
    }
}

/// 65536 is a power of two.
pub proof fn lemma_pow2_65536()
    ensures
        is_pow2(65536),
{
    reveal_with_fuel(is_pow2, 18);
}

/// The `width` lowest bits set, for `width` below 32.
pub open spec fn low_mask(width: u32) -> u32 {
    ((1u32 << width) - 1) as u32
}

/// The field of `width` bits that starts at bit `shift` of `value`.
pub open spec fn spec_extract_bits(value: u32, shift: u32, width: u32) -> u32 {
    (value >> shift) & low_mask(width)
}

/// Reads the field of `width` bits that starts at bit `shift` of `value`.
pub fn extract_bits(value: u32, shift: u32, width: u32) -> (r: u32)
    requires
        shift < 32,
        width < 32,
    ensures
        r == spec_extract_bits(value, shift, width),
        r < pow2_u32(width),
{
    let one: u32 = 1;
    assert(1u32 << width >= 1) by (bit_vector)
        requires
            width < 32,
    ;
    let mask: u32 = (one << width) - 1;
    let r: u32 = (value >> shift) & mask;
    proof {
        lemma_extract_bits(value, shift, width);
    }
    r
}

/// Two to the power `k`, for `k` below 32.
pub open spec fn pow2_u32(k: u32) -> u32 {
    1u32 << k
}

/// A bit field of `width` bits is below two to the power `width`.
pub proof fn lemma_extract_bits(value: u32, shift: u32, width: u32)
    requires
        shift < 32,
        width < 32,
    ensures
        spec_extract_bits(value, shift, width) < pow2_u32(width),
        pow2_u32(width) >= 1,
{
    assert((value >> shift) & low_mask(width) < (1u32 << width)) by (bit_vector)
        requires
            width < 32,
    ;
    assert(1u32 << width >= 1) by (bit_vector)
        requires
            width < 32,
    ;
}

/// The least power of two that is not below `v`, for a positive `v`.
pub open spec fn spec_next_pow2(v: int) -> int {
    choose|p: int| is_pow2(p) && v <= p < 2 * v
}

/// Between a positive number and its double lies at most one power of two.
pub proof fn lemma_next_pow2_unique(v: int, p: int)
    requires
        is_pow2(p),
        v <= p < 2 * v,
    ensures
        spec_next_pow2(v) == p,
{
    let q = spec_next_pow2(v);
    if p < q {
        lemma_pow2_gap(p, q);
    } else if q < p {
        lemma_pow2_gap(q, p);
    }
}

/// A power of two from sixteen on is a multiple of sixteen.
pub proof fn lemma_pow2_multiple_of_16(n: int)
    requires
        is_pow2(n),
        n >= 16,
    ensures
        n % 16 == 0,
    decreases n,
{
    if n > 16 {
        assert(is_pow2(8)) by {
            reveal_with_fuel(is_pow2, 5);
        }
        lemma_pow2_gap(8, n / 2);
        lemma_pow2_multiple_of_16(n / 2);
    }
}

/// A power of two up to sixteen divides sixteen.
pub proof fn lemma_pow2_divides_16(n: int)
    requires
        is_pow2(n),
        n <= 16,
    ensures
        16int % n == 0,
{
    reveal_with_fuel(is_pow2, 6);
    assert(n == 1 || n == 2 || n == 4 || n == 8 || n == 16);
    if n == 1 {
        assert(16int % 1 == 0);
    } else if n == 2 {
        assert(16int % 2 == 0);
    } else if n == 4 {
        assert(16int % 4 == 0);
    } else if n == 8 {
        assert(16int % 8 == 0);
    } else {
        assert(16int % 16 == 0);
    }
}

/// The error that `round_up_to_nearest_pow2` reports.
pub open spec fn out_of_range_message() -> Seq<char> {
    "Out of range"@
}

/// The least power of two that is not below `v`.
///
/// There is none for `0`, and for a `v` above the largest power of two that
/// a `usize` holds the result would not fit: both are reported as errors.
pub fn round_up_to_nearest_pow2(v: usize) -> (r: Result<usize, Error>)
    ensures
        (1 <= v <= usize::MAX / 2 + 1) <==> r is Ok,
        r matches Ok(p) ==> is_pow2(p as int) && v <= p && p < 2 * v && p == spec_next_pow2(
            v as int,
        ),
        r matches Err(e) ==> (e matches Error::Failed(m) && m@ == out_of_range_message()),
{
    if v == 0 || v > usize::MAX / 2 + 1 {
        return Err(Error::Failed("Out of range"));
    }
    let mut p: usize = 1;
    while p < v
        invariant
            1 <= v <= usize::MAX / 2 + 1,
            is_pow2(p as int),
            p == 1 || p < 2 * v,
            p >= 1,
        decreases usize::MAX - p,
    {
        proof {
            lemma_pow2_double(p as int);
        }
        p = p * 2;
    }
    proof {
        lemma_next_pow2_unique(v as int, p as int);
    }
    Ok(p)
}

} // verus!
