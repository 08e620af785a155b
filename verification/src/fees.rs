//! How the runtime turns the weight and the length of a transaction into a
//! fee: one unit of balance per unit of reference time, one per byte, with a
//! constant fee multiplier of one.
use vstd::prelude::*;

use sp_arithmetic::traits::One;
use sp_arithmetic::FixedU128;
use sp_weights::{IdentityFee, Weight, WeightToFee};

use crate::units::Balance;

verus! {

/// Fee of a weight under the identity conversion: its reference time, taken
/// as a balance.
pub open spec fn identity_fee_of(ref_time: int, proof_size: int) -> int {
    ref_time
}

/// `IdentityFee::<u128>::weight_to_fee` on `Weight::from_parts(ref_time, proof_size)`:
/// the reference time converted to a `u128` (which always fits); the proof
/// size plays no part.
#[verifier::external_body]
fn identity_fee(ref_time: u64, proof_size: u64) -> (fee: u128)
    ensures
        fee == identity_fee_of(ref_time as int, proof_size as int),
        fee == ref_time,
{
    <IdentityFee<u128> as WeightToFee>::weight_to_fee(&Weight::from_parts(ref_time, proof_size))
}

/// `<FixedU128 as One>::one`, read back with `into_inner`: the fixed-point
/// one, whose inner value is the accuracy 10^18.
#[verifier::external_body]
fn fixed_u128_one_inner() -> (inner: u128)
    ensures
        inner == 1_000_000_000_000_000_000u128,
{
    <FixedU128 as One>::one().into_inner()
}

/// The fee the runtime charges for a weight.
pub fn weight_to_fee(ref_time: u64, proof_size: u64) -> (fee: Balance)
    ensures
        fee == identity_fee_of(ref_time as int, proof_size as int),
        fee == ref_time,
{
    identity_fee(ref_time, proof_size)
}

/// The fee the runtime charges for the length of a transaction: the length
/// is taken as a weight of that much reference time and no proof size.
pub fn length_to_fee(length: u32) -> (fee: Balance)
    ensures
        fee == identity_fee_of(length as int, 0),
        fee == length,
{
    identity_fee(length as u64, 0)
}

/// The constant fee multiplier, as the inner value of a `FixedU128`: one.
pub fn fee_multiplier_inner() -> (inner: u128)
    ensures
        inner == 1_000_000_000_000_000_000u128,
{
    fixed_u128_one_inner()
}

/// Operational transactions pay their fee five times over as a tip for priority.
pub const OPERATIONAL_FEE_MULTIPLIER: u8 = 5;

/// Every weight is charged exactly its reference time, one unit of fee per
/// unit of reference time, whatever its proof size.
pub proof fn lemma_fee_is_reference_time(ref_time: u64, proof_size: u64)
    ensures
        identity_fee_of(ref_time as int, proof_size as int) == ref_time as int,
        identity_fee_of(ref_time as int, proof_size as int) == identity_fee_of(ref_time as int, 0),
        ref_time < u64::MAX ==> identity_fee_of(ref_time as int + 1, proof_size as int) == identity_fee_of(ref_time as int, proof_size as int) + 1,
{
}

/// The fee of a weight is its reference time: it does not depend on the proof
/// size, and more reference time never costs less.
pub proof fn lemma_weight_fee_by_ref_time(ref_a: int, proof_a: int, ref_b: int, proof_b: int)
    ensures
        identity_fee_of(ref_a, proof_a) == identity_fee_of(ref_a, proof_b),
        ref_a <= ref_b ==> identity_fee_of(ref_a, proof_a) <= identity_fee_of(ref_b, proof_b),
{
}

} // verus!
