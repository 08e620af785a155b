//! The deposit that the runtime charges for keeping data on chain, and the
//! deposit amounts it configures for the identity, assets and NFT pallets.
use vstd::prelude::*;

use crate::units::{Balance, CENTS, DOLLARS, UNITS};

verus! {

/// Deposit for storing `items` items that take `bytes` bytes in all: one
/// unit of balance per item and a hundred per byte.
pub open spec fn deposit_amount(items: int, bytes: int) -> int {
    items + bytes * 100
}

/// Function used in fee configurations: the deposit for `items` storage items
/// taking `bytes` bytes.
pub fn deposit(items: u32, bytes: u32) -> (amount: Balance)
    ensures
        amount == deposit_amount(items as int, bytes as int),
        amount == items as int + 100 * (bytes as int),
{
    items as Balance + (bytes as Balance) * 100
}

/// Deposits add up: the deposit for two batches of storage is the sum of the
/// deposits for each.
pub proof fn lemma_deposit_additive(items_a: int, bytes_a: int, items_b: int, bytes_b: int)
    ensures
        deposit_amount(items_a, bytes_a) + deposit_amount(items_b, bytes_b) == deposit_amount(
            items_a + items_b,
            bytes_a + bytes_b,
        ),
{
}

/// One item costs one unit and one byte a hundred, and each further item or
/// byte costs as much again as the first.
pub proof fn lemma_deposit_unit_prices(items: int, bytes: int)
    ensures
        deposit_amount(0, 0) == 0,
        deposit_amount(1, 0) == 1,
        deposit_amount(0, 1) == 100,
        deposit_amount(items + 1, bytes) == deposit_amount(items, bytes) + 1,
        deposit_amount(items, bytes + 1) == deposit_amount(items, bytes) + 100,
        deposit_amount(items, bytes) == items + 100 * bytes,
{
}

/// Storing more never costs less: the deposit grows with the number of items
/// and with the number of bytes.
pub proof fn lemma_deposit_monotonic(items_a: int, bytes_a: int, items_b: int, bytes_b: int)
    requires
        items_a <= items_b,
        bytes_a <= bytes_b,
    ensures
        deposit_amount(items_a, bytes_a) <= deposit_amount(items_b, bytes_b),
{
}

/// Deposit for an on-chain identity (about 258 bytes).
pub const BASIC_DEPOSIT: Balance = 1000 * CENTS;

/// Deposit for each additional identity field (about 66 bytes).
pub const FIELD_DEPOSIT: Balance = 250 * CENTS;

/// Deposit for each sub-account of an identity (about 53 bytes).
pub const SUB_ACCOUNT_DEPOSIT: Balance = 200 * CENTS;

/// Deposit for creating an asset class.
pub const ASSET_DEPOSIT: Balance = 100 * DOLLARS;

/// Deposit for an approval to spend an asset.
pub const APPROVAL_DEPOSIT: Balance = 1 * DOLLARS;

/// Base deposit for asset metadata.
pub const METADATA_DEPOSIT_BASE: Balance = 10 * DOLLARS;

/// Deposit for each byte of asset metadata.
pub const METADATA_DEPOSIT_PER_BYTE: Balance = 1 * DOLLARS;

/// Deposit for holding an account of an asset.
pub const ASSET_ACCOUNT_DEPOSIT: Balance = DOLLARS;

/// Deposit for creating a collection of unique items.
pub const UNIQUES_COLLECTION_DEPOSIT: Balance = UNITS / 10;

/// Deposit for minting a unique item.
pub const UNIQUES_ITEM_DEPOSIT: Balance = UNITS / 1_000;

/// Base deposit for the metadata of a unique item: one item of 129 bytes.
pub fn uniques_metadata_deposits_base() -> (amount: Balance)
    ensures
        amount == deposit_amount(1, 129),
        amount == 12_901,
{
    deposit(1, 129)
}

/// Base deposit for an attribute of a unique item: one item of 129 bytes.
pub fn uniques_attribute_deposits_base() -> (amount: Balance)
    ensures
        amount == deposit_amount(1, 129),
        amount == 12_901,
{
    deposit(1, 129)
}

/// Deposit for each byte of unique item data.
pub fn uniques_deposit_per_byte() -> (amount: Balance)
    ensures
        amount == deposit_amount(0, 1),
        amount == 100,
{
    deposit(0, 1)
}

/// Deposit for creating an NFT collection: the same as for a collection of unique items.
pub fn nfts_collection_deposit() -> (amount: Balance)
    ensures
        amount == UNIQUES_COLLECTION_DEPOSIT,
{
    UNIQUES_COLLECTION_DEPOSIT
}

/// Deposit for minting an NFT: the same as for a unique item.
pub fn nfts_item_deposit() -> (amount: Balance)
    ensures
        amount == UNIQUES_ITEM_DEPOSIT,
{
    UNIQUES_ITEM_DEPOSIT
}

/// Base deposit for NFT metadata: the same as for unique item metadata.
pub fn nfts_metadata_deposits_base() -> (amount: Balance)
    ensures
        amount == deposit_amount(1, 129),
        amount == 12_901,
{
    uniques_metadata_deposits_base()
}

/// Base deposit for an NFT attribute: the same as for a unique item attribute.
pub fn nfts_attribute_deposits_base() -> (amount: Balance)
    ensures
        amount == deposit_amount(1, 129),
        amount == 12_901,
{
    uniques_attribute_deposits_base()
}

/// Deposit for each byte of NFT data: the same as for unique item data.
pub fn nfts_deposit_per_byte() -> (amount: Balance)
    ensures
        amount == deposit_amount(0, 1),
        amount == 100,
{
    uniques_deposit_per_byte()
}

/// With one unit as the smallest balance, the collection and item deposits of
/// the NFT pallets round down to nothing, while the metadata, attribute and
/// per-byte deposits follow the deposit formula.
pub proof fn lemma_nft_deposit_values()
    ensures
        UNIQUES_COLLECTION_DEPOSIT == 0,
        UNIQUES_ITEM_DEPOSIT == 0,
        deposit_amount(1, 129) == 12_901,
        deposit_amount(0, 1) == 100,
{
}

} // verus!
