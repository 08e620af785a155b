//! Units of time (counted in blocks) and of currency (counted in the
//! smallest balance unit) used throughout the runtime.
use vstd::prelude::*;

verus! {

/// An index to a block.
pub type BlockNumber = u32;

/// Balance of an account.
pub type Balance = u128;

/// Index of a transaction in the chain.
pub type Nonce = u32;

/// The average expected block time, in milliseconds.
pub const MILLISECS_PER_BLOCK: u64 = 6000;

/// Blocks are produced at a minimum duration of one slot.
pub const SLOT_DURATION: u64 = MILLISECS_PER_BLOCK;

/// Number of blocks in a minute: sixty seconds of blocks of `MILLISECS_PER_BLOCK`.
pub const MINUTES: BlockNumber = 10;

/// Number of blocks in an hour.
pub const HOURS: BlockNumber = MINUTES * 60;

/// Number of blocks in a day.
pub const DAYS: BlockNumber = HOURS * 24;

/// One thousandth of a cent.
pub const MILLICENTS: Balance = 1_000_000_000;

/// Roughly one cent.
pub const CENTS: Balance = 1_000 * MILLICENTS;

/// One hundred cents.
pub const DOLLARS: Balance = 100 * CENTS;

/// The smallest unit of balance.
pub const UNITS: Balance = 1;

/// The minimum balance an account must hold to exist.
pub const EXISTENTIAL_DEPOSIT: u128 = 1000;

/// Milliseconds that the given number of blocks take at the expected block time.
pub open spec fn blocks_to_millis(blocks: int) -> int {
    blocks * MILLISECS_PER_BLOCK
}

/// The time units agree with the block time: a minute of blocks lasts sixty
/// seconds, an hour sixty minutes and a day twenty-four hours.
pub proof fn lemma_time_units_agree()
    ensures
        blocks_to_millis(MINUTES as int) == 60_000,
        blocks_to_millis(HOURS as int) == 60 * 60_000,
        blocks_to_millis(DAYS as int) == 24 * 60 * 60_000,
        SLOT_DURATION == MILLISECS_PER_BLOCK,
{
}

} // verus!
