//! Weight limits of a block: how much computation (reference time) and proof
//! size a block may take, split between the dispatch classes of extrinsics.
//! A weight is written here as the pair (reference time, proof size).
use vstd::prelude::*;

use frame_support::dispatch::DispatchClass;
use frame_system::limits::BlockWeights;
use sp_arithmetic::Perbill;
use sp_weights::Weight;

use crate::dispatch::{normal_dispatch_ratio, perbill_clamp, perbill_mul};

verus! {

/// Reference time of one second of computation.
pub const WEIGHT_REF_TIME_PER_SECOND: u64 = 1_000_000_000_000;

/// Reference time that a block may take: two seconds of computation.
pub const MAX_BLOCK_REF_TIME: u64 = 2 * WEIGHT_REF_TIME_PER_SECOND;

/// Reference time of executing an empty block.
pub const BLOCK_EXECUTION_REF_TIME: u64 = 431_614_000;

/// Reference time of executing an extrinsic that does nothing.
pub const EXTRINSIC_BASE_REF_TIME: u64 = 108_157_000;

/// Share of the block weight that initializing a block takes on average: ten
/// per cent, in parts per billion.
pub const AVG_BLOCK_INITIALIZATION_PARTS: u32 = 100_000_000;

/// `x - y`, or zero when `y` exceeds `x`.
pub open spec fn saturating_sub(x: int, y: int) -> int {
    if x >= y { x - y } else { 0 }
}

/// Weight limits of the extrinsics of one dispatch class.
pub struct ClassWeightLimits {
    /// Weight of an extrinsic of the class that does nothing.
    pub base_extrinsic: (u64, u64),
    /// Most weight of one extrinsic, beyond its base; `None` for no limit.
    pub max_extrinsic: Option<(u64, u64)>,
    /// Most weight of all extrinsics of the class in a block; `None` for no limit.
    pub max_total: Option<(u64, u64)>,
    /// Weight kept in every block for the class; `None` for none.
    pub reserved: Option<(u64, u64)>,
}

/// Weight limits of a block.
pub struct BlockWeightLimits {
    /// Weight of executing an empty block.
    pub base_block: (u64, u64),
    /// Most weight of all extrinsics in a block.
    pub max_block: (u64, u64),
    pub normal: ClassWeightLimits,
    pub operational: ClassWeightLimits,
    pub mandatory: ClassWeightLimits,
}

/// The share of a weight component `x` that normal extrinsics get, with a
/// normal ratio of `normal_parts` per billion.
pub open spec fn normal_share(normal_parts: int, x: int) -> int {
    perbill_mul(perbill_clamp(normal_parts), x)
}

/// The share of a weight component `x` that initializing a block takes.
pub open spec fn init_share(x: int) -> int {
    perbill_mul(AVG_BLOCK_INITIALIZATION_PARTS as int, x)
}

/// Most weight component of one extrinsic of a class whose total is `total`:
/// what is left once the block initialization `init` and the base extrinsic
/// `base` are taken off, or nothing.
pub open spec fn class_extrinsic_limit(total: int, init: int, base: int) -> int {
    saturating_sub(saturating_sub(total, init), base)
}

/// The conditions under which the weight limits built from an expected block
/// weight (`ref_time`, `proof_size`) and a normal ratio of `normal_parts` per
/// billion pass their validation: every class with a limit can hold its base
/// extrinsic and an extrinsic of positive weight after the block's
/// initialization, a reservation is either empty or above the base
/// extrinsic, and the block fits one extrinsic.
pub open spec fn sensible_block_weights_valid(ref_time: int, proof_size: int, normal_parts: int) -> bool {
    let nr = normal_share(normal_parts, ref_time);
    let np = normal_share(normal_parts, proof_size);
    let ir = init_share(ref_time);
    let ip = init_share(proof_size);
    let br = BLOCK_EXECUTION_REF_TIME as int;
    let xr = EXTRINSIC_BASE_REF_TIME as int;
    &&& (nr > br && np > 0 && nr > xr) || (nr == 0 && np == 0)
    &&& class_extrinsic_limit(nr, ir, xr) > 0
    &&& class_extrinsic_limit(np, ip, 0) > 0
    &&& (ref_time > br && proof_size > 0 && ref_time > xr) || (ref_time == 0 && proof_size == 0)
    &&& class_extrinsic_limit(ref_time, ir, xr) > 0
    &&& class_extrinsic_limit(proof_size, ip, 0) > 0
    &&& (ref_time - nr > xr && proof_size - np > 0) || (ref_time - nr == 0 && proof_size - np == 0)
    &&& ref_time > xr + br
    &&& proof_size > 0
}

/// `BlockWeights::with_sensible_defaults(Weight::from_parts(ref_time, proof_size),
/// Perbill::from_parts(normal_parts))`, read back field by field. With `E` the
/// expected weight, `N = Perbill * E` the normal share (per component) and
/// `I = 10% * E` the block initialization: the base block and base extrinsic
/// weights are the benchmarked constants; the block holds at most `E`;
/// normal extrinsics at most `N` with nothing reserved; operational ones at
/// most `E` with `E - N` reserved; mandatory ones are unlimited; a single
/// normal or operational extrinsic takes at most its class total less `I`
/// less the base extrinsic weight (saturating). The function panics unless
/// `sensible_block_weights_valid` holds.
#[verifier::external_body]
fn sensible_block_weights(ref_time: u64, proof_size: u64, normal_parts: u32) -> (w: BlockWeightLimits)
    requires
        sensible_block_weights_valid(ref_time as int, proof_size as int, normal_parts as int),
    ensures
        w.base_block == (BLOCK_EXECUTION_REF_TIME, 0u64),
        w.max_block == (ref_time, proof_size),
        w.normal.base_extrinsic == (EXTRINSIC_BASE_REF_TIME, 0u64),
        w.normal.max_total is Some && w.normal.max_total.unwrap().0 == normal_share(normal_parts as int, ref_time as int) && w.normal.max_total.unwrap().1 == normal_share(normal_parts as int, proof_size as int),
        w.normal.reserved == Some((0u64, 0u64)),
        w.normal.max_extrinsic is Some && w.normal.max_extrinsic.unwrap().0 == class_extrinsic_limit(normal_share(normal_parts as int, ref_time as int), init_share(ref_time as int), EXTRINSIC_BASE_REF_TIME as int) && w.normal.max_extrinsic.unwrap().1 == class_extrinsic_limit(normal_share(normal_parts as int, proof_size as int), init_share(proof_size as int), 0),
        w.operational.base_extrinsic == (EXTRINSIC_BASE_REF_TIME, 0u64),
        w.operational.max_total == Some((ref_time, proof_size)),
        w.operational.reserved is Some && w.operational.reserved.unwrap().0 == ref_time - normal_share(normal_parts as int, ref_time as int) && w.operational.reserved.unwrap().1 == proof_size - normal_share(normal_parts as int, proof_size as int),
        w.operational.max_extrinsic is Some && w.operational.max_extrinsic.unwrap().0 == class_extrinsic_limit(ref_time as int, init_share(ref_time as int), EXTRINSIC_BASE_REF_TIME as int) && w.operational.max_extrinsic.unwrap().1 == class_extrinsic_limit(proof_size as int, init_share(proof_size as int), 0),
        w.mandatory.base_extrinsic == (EXTRINSIC_BASE_REF_TIME, 0u64),
        w.mandatory.max_total is None,
        w.mandatory.reserved is None,
        w.mandatory.max_extrinsic is None,
{
    let w = BlockWeights::with_sensible_defaults(Weight::from_parts(ref_time, proof_size), Perbill::from_parts(normal_parts));
    let p = |x: Weight| (x.ref_time(), x.proof_size());
    let class = |c: DispatchClass| {
        let x = w.get(c);
        ClassWeightLimits { base_extrinsic: p(x.base_extrinsic), max_extrinsic: x.max_extrinsic.map(p), max_total: x.max_total.map(p), reserved: x.reserved.map(p) }
    };
    BlockWeightLimits { base_block: p(w.base_block), max_block: p(w.max_block), normal: class(DispatchClass::Normal), operational: class(DispatchClass::Operational), mandatory: class(DispatchClass::Mandatory) }
}

/// The weight limits of a block of this runtime: two seconds of computation
/// and no limit on proof size, of which normal extrinsics may use the normal
/// dispatch ratio and the rest is kept for operational ones.
pub fn block_weights() -> (w: BlockWeightLimits)
    ensures
        w.base_block == (BLOCK_EXECUTION_REF_TIME, 0u64),
        w.max_block == (MAX_BLOCK_REF_TIME, u64::MAX),
        w.normal.base_extrinsic == (EXTRINSIC_BASE_REF_TIME, 0u64),
        w.normal.max_total == Some((1_500_000_000_000u64, 13_835_058_055_282_163_711u64)),
        w.normal.reserved == Some((0u64, 0u64)),
        w.normal.max_extrinsic == Some((1_299_891_843_000u64, 11_990_383_647_911_208_550u64)),
        w.operational.base_extrinsic == (EXTRINSIC_BASE_REF_TIME, 0u64),
        w.operational.max_total == Some((MAX_BLOCK_REF_TIME, u64::MAX)),
        w.operational.reserved == Some((500_000_000_000u64, 4_611_686_018_427_387_904u64)),
        w.operational.max_extrinsic == Some((1_799_891_843_000u64, 16_602_069_666_338_596_454u64)),
        w.mandatory.base_extrinsic == (EXTRINSIC_BASE_REF_TIME, 0u64),
        w.mandatory.max_total is None,
        w.mandatory.reserved is None,
        w.mandatory.max_extrinsic is None,
{
    let ratio = normal_dispatch_ratio();
    proof {
        lemma_runtime_weight_shares();
    }
    sensible_block_weights(MAX_BLOCK_REF_TIME, u64::MAX, ratio)
}

/// Normal extrinsics never get more than the whole block, so the room left
/// for operational extrinsics is never negative and, with the normal share,
/// makes up the whole block.
pub proof fn lemma_normal_share_within_block(normal_parts: int, x: int)
    requires
        0 <= normal_parts,
        0 <= x,
    ensures
        0 <= normal_share(normal_parts, x) <= x,
        normal_share(normal_parts, x) + (x - normal_share(normal_parts, x)) == x,
{
    crate::dispatch::lemma_perbill_mul_at_most_whole(perbill_clamp(normal_parts), x);
}

/// The shares of the runtime's expected block weight that the normal ratio
/// and the block initialization take.
proof fn lemma_runtime_weight_shares()
    ensures
        perbill_mul(750_000_000, 2_000_000_000_000) == 1_500_000_000_000,
        perbill_mul(750_000_000, 18_446_744_073_709_551_615) == 13_835_058_055_282_163_711,
        perbill_mul(100_000_000, 2_000_000_000_000) == 200_000_000_000,
        perbill_mul(100_000_000, 18_446_744_073_709_551_615) == 1_844_674_407_370_955_161,
{
    assert(2_000_000_000_000int / 1_000_000_000int == 2_000int);
    assert(2_000_000_000_000int % 1_000_000_000int == 0int);
    assert(18_446_744_073_709_551_615int / 1_000_000_000int == 18_446_744_073int);
    assert(18_446_744_073_709_551_615int % 1_000_000_000int == 709_551_615int);
    assert(709_551_615int * 750_000_000int == 532_163_711_250_000_000int);
    assert(532_163_711_250_000_000int / 1_000_000_000int == 532_163_711int);
    assert(532_163_711_250_000_000int % 1_000_000_000int == 250_000_000int);
    assert(709_551_615int * 100_000_000int == 70_955_161_500_000_000int);
    assert(70_955_161_500_000_000int / 1_000_000_000int == 70_955_161int);
    assert(70_955_161_500_000_000int % 1_000_000_000int == 500_000_000int);
    assert(0int * 750_000_000int == 0int);
}

} // verus!
