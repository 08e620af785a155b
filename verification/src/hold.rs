//! Reasons for which the runtime places a hold on funds.
use vstd::prelude::*;

verus! {

/// A reason for placing a hold on funds.
#[derive(Copy, Clone, PartialEq, Eq, Structural, PartialOrd, Ord, Debug)]
pub enum HoldReason {
    /// Used by the NFT Fractionalization Pallet.
    NftFractionalization,
}

/// Number of distinct hold reasons: the most holds an account can carry.
pub const MAX_HOLDS: u32 = 1;

/// Every hold reason is the one of NFT fractionalization, so an account needs
/// at most one hold.
pub proof fn lemma_single_hold_reason(reason: HoldReason)
    ensures
        reason == HoldReason::NftFractionalization,
        MAX_HOLDS == 1,
{
}

} // verus!
