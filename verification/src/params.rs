//! Parameters that the runtime hands to the pallets it is composed of.
use vstd::prelude::*;

use crate::units::{BlockNumber, DAYS, SLOT_DURATION};

verus! {

/// Number of block number to block hash mappings kept (oldest pruned first).
pub const BLOCK_HASH_COUNT: BlockNumber = 2400;

/// Identifier of the chain in SS58 addresses.
pub const SS58_PREFIX: u16 = 666;

/// Most consumers that an account may have.
pub const MAX_CONSUMERS: u32 = 16;

/// Most block authorities (Aura) and finality authorities (GRANDPA).
pub const MAX_AUTHORITIES: u32 = 32;

/// Whether Aura lets one author produce several blocks in one slot.
pub const ALLOW_MULTIPLE_BLOCKS_PER_SLOT: bool = false;

/// Most entries kept that map a GRANDPA set id to a session.
pub const MAX_SET_ID_SESSION_ENTRIES: u64 = 0;

/// Minimum period between timestamps, in milliseconds: half a slot.
pub const MINIMUM_PERIOD: u64 = SLOT_DURATION / 2;

/// Most locks on an account's balance.
pub const MAX_LOCKS: u32 = 50;

/// Most additional fields of an identity.
pub const MAX_ADDITIONAL_FIELDS: u32 = 100;

/// Most sub-accounts of an identity.
pub const MAX_SUB_ACCOUNTS: u32 = 100;

/// Most identity registrars.
pub const MAX_REGISTRARS: u32 = 20;

/// Most items removed in one call when an asset class is destroyed.
pub const REMOVE_ITEMS_LIMIT: u32 = 1000;

/// Longest NFT string, in bytes.
pub const NFTS_STRING_LIMIT: u32 = 50;

/// Longest NFT attribute key, in bytes.
pub const NFTS_KEY_LIMIT: u32 = 50;

/// Longest NFT attribute value, in bytes.
pub const NFTS_VALUE_LIMIT: u32 = 50;

/// Most approvals of one NFT.
pub const NFTS_APPROVALS_LIMIT: u32 = 10;

/// Most accounts approved to set attributes of one NFT.
pub const NFTS_ITEM_ATTRIBUTES_APPROVALS_LIMIT: u32 = 2;

/// Most tips paid in one NFT purchase.
pub const NFTS_MAX_TIPS: u32 = 10;

/// Most attributes set in one call.
pub const NFTS_MAX_ATTRIBUTES_PER_CALL: u32 = 2;

/// Longest deadline of an NFT swap, in blocks: twelve months of thirty days.
pub const NFTS_MAX_DEADLINE_DURATION: BlockNumber = 12 * 30 * DAYS;

/// The timestamp period is half a slot, and an NFT deadline may reach 360 days
/// of blocks.
pub proof fn lemma_period_and_deadline()
    ensures
        MINIMUM_PERIOD * 2 == SLOT_DURATION,
        NFTS_MAX_DEADLINE_DURATION == 360 * DAYS,
{
    crate::units::lemma_time_units_agree();
}

} // verus!
