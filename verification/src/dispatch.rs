//! Limits that the runtime puts on blocks: the share of a block that normal
//! extrinsics may fill, and the length in bytes that each class of
//! extrinsics may take.
use vstd::prelude::*;

use frame_support::dispatch::DispatchClass;
use frame_system::limits::BlockLength;
use sp_arithmetic::Perbill;

verus! {

/// Parts per billion that make up a whole.
pub const PERBILL_ACCURACY: u32 = 1_000_000_000;

/// Parts per billion of `percent` per cent, a percentage above a hundred
/// counting as a hundred.
pub open spec fn perbill_parts_of_percent(percent: int) -> int {
    (if percent < 100 { percent } else { 100 }) * 10_000_000
}

/// Parts per billion once clamped to a whole.
pub open spec fn perbill_clamp(parts: int) -> int {
    if parts < PERBILL_ACCURACY { parts } else { PERBILL_ACCURACY as int }
}

/// `parts` per billion of `n`, rounded to the nearest integer, a remainder of
/// exactly one half rounding down.
pub open spec fn perbill_mul(parts: int, n: int) -> int {
    let d = PERBILL_ACCURACY as int;
    let rem_mul = (n % d) * parts;
    (n / d) * parts + rem_mul / d + (if rem_mul % d > d / 2 { 1int } else { 0int })
}

/// `Perbill::from_percent`, read back with `Perbill::deconstruct`: the parts
/// per billion of the given percentage, which is capped at a hundred.
#[verifier::external_body]
fn perbill_from_percent(percent: u32) -> (parts: u32)
    ensures
        parts == perbill_parts_of_percent(percent as int),
{
    Perbill::from_percent(percent).deconstruct()
}

/// Maximal length in bytes of the extrinsics of each dispatch class in a block.
pub struct BlockLengthLimits {
    pub normal: u32,
    pub operational: u32,
    pub mandatory: u32,
    pub max_header_size: Option<u32>,
}

/// `BlockLength::max_with_normal_ratio(max, Perbill::from_parts(normal_parts))`,
/// read back class by class: normal extrinsics get `Perbill * max` (the parts
/// clamped to a whole, the product rounded to nearest, halves down),
/// operational and mandatory ones get `max`, and no header size is set.
#[verifier::external_body]
#[allow(deprecated)]
fn block_length_with_normal_ratio(max: u32, normal_parts: u32) -> (limits: BlockLengthLimits)
    ensures
        limits.normal == perbill_mul(perbill_clamp(normal_parts as int), max as int),
        limits.operational == max,
        limits.mandatory == max,
        limits.max_header_size is None,
{
    let length = BlockLength::max_with_normal_ratio(max, Perbill::from_parts(normal_parts));
    BlockLengthLimits {
        normal: *length.max.get(DispatchClass::Normal),
        operational: *length.max.get(DispatchClass::Operational),
        mandatory: *length.max.get(DispatchClass::Mandatory),
        max_header_size: length.max_header_size,
    }
}

/// Share of a block that normal extrinsics may fill: seventy-five per cent,
/// in parts per billion.
pub fn normal_dispatch_ratio() -> (parts: u32)
    ensures
        parts == perbill_parts_of_percent(75),
        parts == 750_000_000,
{
    perbill_from_percent(75)
}

/// Maximal length of a block in bytes: five mebibytes.
pub const MAX_BLOCK_LENGTH: u32 = 5 * 1024 * 1024;

/// The length limits of a block: normal extrinsics may fill the normal
/// dispatch ratio of the maximal block length, the other classes all of it.
pub fn block_length() -> (limits: BlockLengthLimits)
    ensures
        limits.normal == perbill_mul(750_000_000, MAX_BLOCK_LENGTH as int),
        limits.normal == 3_932_160,
        limits.operational == MAX_BLOCK_LENGTH,
        limits.mandatory == MAX_BLOCK_LENGTH,
        limits.max_header_size is None,
        limits.normal <= limits.operational,
{
    let ratio = normal_dispatch_ratio();
    proof {
        assert(MAX_BLOCK_LENGTH == 5_242_880);
        assert(5_242_880int % 1_000_000_000int == 5_242_880int);
        assert(5_242_880int / 1_000_000_000int == 0int);
        assert(5_242_880int * 750_000_000int == 3_932_160_000_000_000int);
        assert(3_932_160_000_000_000int / 1_000_000_000int == 3_932_160int);
        assert(3_932_160_000_000_000int % 1_000_000_000int == 0int);
    }
    block_length_with_normal_ratio(MAX_BLOCK_LENGTH, ratio)
}

/// A share of at most a whole never exceeds what it is taken of: normal
/// extrinsics never get more room than the other classes.
pub proof fn lemma_perbill_mul_at_most_whole(parts: int, n: int)
    requires
        0 <= parts <= PERBILL_ACCURACY,
        0 <= n,
    ensures
        0 <= perbill_mul(parts, n) <= n,
{
    let d = PERBILL_ACCURACY as int;
    let q = n / d;
    let r = n % d;
    let rem_mul = r * parts;
    assert(n == q * d + r && 0 <= r < d) by (nonlinear_arith)
        requires
            d == 1_000_000_000,
            q == n / d,
            r == n % d,
    ;
    assert(0 <= rem_mul <= r * d) by (nonlinear_arith)
        requires
            rem_mul == r * parts,
            0 <= parts <= d,
            0 <= r,
    ;
    assert(q * parts <= q * d && 0 <= q * parts) by (nonlinear_arith)
        requires
            0 <= parts <= d,
            0 <= q,
    ;
    let c = rem_mul / d;
    let m = rem_mul % d;
    assert(rem_mul == c * d + m && 0 <= m < d && 0 <= c) by (nonlinear_arith)
        requires
            d == 1_000_000_000,
            c == rem_mul / d,
            m == rem_mul % d,
            0 <= rem_mul,
    ;
    // c * d + m <= r * d, so c <= r, and c == r only when m == 0
    assert(c < r || (c == r && m == 0)) by (nonlinear_arith)
        requires
            rem_mul == c * d + m,
            rem_mul <= r * d,
            0 <= m < d,
            d > 0,
    ;
}

} // verus!
