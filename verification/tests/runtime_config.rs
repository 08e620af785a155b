use metaquity_runtime::deposit::{
    deposit, nfts_attribute_deposits_base, nfts_collection_deposit, nfts_deposit_per_byte,
    nfts_item_deposit, nfts_metadata_deposits_base, uniques_attribute_deposits_base,
    uniques_deposit_per_byte, uniques_metadata_deposits_base, APPROVAL_DEPOSIT, ASSET_DEPOSIT,
    BASIC_DEPOSIT, FIELD_DEPOSIT, METADATA_DEPOSIT_BASE, METADATA_DEPOSIT_PER_BYTE,
    SUB_ACCOUNT_DEPOSIT, UNIQUES_COLLECTION_DEPOSIT, UNIQUES_ITEM_DEPOSIT,
};
use metaquity_runtime::dispatch::{block_length, normal_dispatch_ratio, MAX_BLOCK_LENGTH};
use metaquity_runtime::fees::{fee_multiplier_inner, length_to_fee, weight_to_fee};
use metaquity_runtime::fractionalization::{
    bounded_string, new_asset_name, new_asset_symbol, nft_fractionalization_pallet_id,
    string_bytes,
};
use metaquity_runtime::hold::HoldReason;
use metaquity_runtime::params::{MINIMUM_PERIOD, NFTS_MAX_DEADLINE_DURATION};
use metaquity_runtime::units::{
    CENTS, DAYS, DOLLARS, EXISTENTIAL_DEPOSIT, HOURS, MILLICENTS, MILLISECS_PER_BLOCK, MINUTES,
    SLOT_DURATION, UNITS,
};
use metaquity_runtime::version::{native_version, version};
use metaquity_runtime::weights::{block_weights, EXTRINSIC_BASE_REF_TIME, MAX_BLOCK_REF_TIME};

#[test]
fn deposit_charges_one_per_item_and_hundred_per_byte() {
    assert_eq!(deposit(0, 0), 0);
    assert_eq!(deposit(1, 0), 1);
    assert_eq!(deposit(0, 1), 100);
    assert_eq!(deposit(1, 129), 12_901);
    assert_eq!(deposit(3, 7), 703);
}

#[test]
fn deposit_does_not_overflow_at_the_largest_inputs() {
    assert_eq!(deposit(u32::MAX, u32::MAX), 4_294_967_295u128 + 429_496_729_500u128);
}

#[test]
fn deposit_is_additive() {
    assert_eq!(deposit(2, 10) + deposit(5, 3), deposit(7, 13));
}

#[test]
fn deposit_is_monotonic() {
    assert!(deposit(2, 10) <= deposit(3, 10));
    assert!(deposit(2, 10) <= deposit(2, 11));
}

#[test]
fn time_units_agree_with_block_time() {
    assert_eq!(SLOT_DURATION, MILLISECS_PER_BLOCK);
    assert_eq!(MINUTES as u64 * MILLISECS_PER_BLOCK, 60_000);
    assert_eq!(HOURS, 600);
    assert_eq!(DAYS, 14_400);
    assert_eq!(DAYS as u64 * MILLISECS_PER_BLOCK, 86_400_000);
    assert_eq!(MINIMUM_PERIOD * 2, SLOT_DURATION);
    assert_eq!(NFTS_MAX_DEADLINE_DURATION, 360 * DAYS);
}

#[test]
fn currency_units() {
    assert_eq!(CENTS, 1_000 * MILLICENTS);
    assert_eq!(DOLLARS, 100_000_000_000_000);
    assert_eq!(UNITS, 1);
    assert_eq!(EXISTENTIAL_DEPOSIT, 1000);
}

#[test]
fn pallet_deposits() {
    assert_eq!(BASIC_DEPOSIT, 1_000_000_000_000_000);
    assert_eq!(FIELD_DEPOSIT, 250_000_000_000_000);
    assert_eq!(SUB_ACCOUNT_DEPOSIT, 200_000_000_000_000);
    assert_eq!(ASSET_DEPOSIT, 100 * DOLLARS);
    assert_eq!(APPROVAL_DEPOSIT, DOLLARS);
    assert_eq!(METADATA_DEPOSIT_BASE, 10 * DOLLARS);
    assert_eq!(METADATA_DEPOSIT_PER_BYTE, DOLLARS);
}

#[test]
fn nft_deposits_follow_uniques_deposits() {
    assert_eq!(UNIQUES_COLLECTION_DEPOSIT, 0);
    assert_eq!(UNIQUES_ITEM_DEPOSIT, 0);
    assert_eq!(uniques_metadata_deposits_base(), 12_901);
    assert_eq!(uniques_attribute_deposits_base(), 12_901);
    assert_eq!(uniques_deposit_per_byte(), 100);
    assert_eq!(nfts_collection_deposit(), 0);
    assert_eq!(nfts_item_deposit(), 0);
    assert_eq!(nfts_metadata_deposits_base(), 12_901);
    assert_eq!(nfts_attribute_deposits_base(), 12_901);
    assert_eq!(nfts_deposit_per_byte(), 100);
}

#[test]
fn normal_dispatch_ratio_is_three_quarters() {
    assert_eq!(normal_dispatch_ratio(), 750_000_000);
}

#[test]
fn block_length_gives_normal_extrinsics_three_quarters() {
    let limits = block_length();
    assert_eq!(MAX_BLOCK_LENGTH, 5_242_880);
    assert_eq!(limits.normal, 3_932_160);
    assert_eq!(limits.operational, MAX_BLOCK_LENGTH);
    assert_eq!(limits.mandatory, MAX_BLOCK_LENGTH);
    assert_eq!(limits.max_header_size, None);
    assert!(limits.normal <= limits.operational);
}

#[test]
fn block_weights_split_between_classes() {
    let w = block_weights();
    assert_eq!(w.max_block, (2_000_000_000_000, u64::MAX));
    assert_eq!(MAX_BLOCK_REF_TIME, 2_000_000_000_000);
    assert_eq!(w.base_block, (431_614_000, 0));
    assert_eq!(w.normal.base_extrinsic, (EXTRINSIC_BASE_REF_TIME, 0));
    assert_eq!(w.normal.max_total, Some((1_500_000_000_000, 13_835_058_055_282_163_711)));
    assert_eq!(w.normal.reserved, Some((0, 0)));
    assert_eq!(w.normal.max_extrinsic, Some((1_299_891_843_000, 11_990_383_647_911_208_550)));
    assert_eq!(w.operational.max_total, Some((2_000_000_000_000, u64::MAX)));
    assert_eq!(w.operational.reserved, Some((500_000_000_000, 4_611_686_018_427_387_904)));
    assert_eq!(w.operational.max_extrinsic, Some((1_799_891_843_000, 16_602_069_666_338_596_454)));
    assert_eq!(w.mandatory.max_total, None);
    assert_eq!(w.mandatory.reserved, None);
    assert_eq!(w.mandatory.max_extrinsic, None);
    let normal = w.normal.max_total.unwrap();
    let reserved = w.operational.reserved.unwrap();
    assert_eq!(normal.0 + reserved.0, w.max_block.0);
    assert_eq!(normal.1 + reserved.1, w.max_block.1);
}

#[test]
fn weight_fee_is_reference_time() {
    assert_eq!(weight_to_fee(5, 7), 5);
    assert_eq!(weight_to_fee(0, 1_000), 0);
    assert_eq!(weight_to_fee(u64::MAX, 0), u64::MAX as u128);
    assert_eq!(weight_to_fee(42, 1), weight_to_fee(42, 99));
}

#[test]
fn length_fee_is_length() {
    assert_eq!(length_to_fee(0), 0);
    assert_eq!(length_to_fee(1_234), 1_234);
    assert_eq!(length_to_fee(u32::MAX), u32::MAX as u128);
}

#[test]
fn fee_multiplier_is_one() {
    assert_eq!(fee_multiplier_inner(), 1_000_000_000_000_000_000);
}

#[test]
fn fractionalized_asset_name_and_symbol() {
    assert_eq!(string_bytes(new_asset_symbol()), b"FRAC".to_vec());
    assert_eq!(string_bytes(new_asset_name()), b"Frac".to_vec());
    assert_eq!(&nft_fractionalization_pallet_id(), b"fraction");
}

#[test]
fn bounded_string_accepts_up_to_the_limit() {
    let fifty = vec![7u8; 50];
    let bounded = bounded_string(fifty.clone()).ok().unwrap();
    assert_eq!(string_bytes(bounded), fifty);
    let empty = bounded_string(Vec::new()).ok().unwrap();
    assert_eq!(string_bytes(empty), Vec::<u8>::new());
}

#[test]
fn bounded_string_hands_back_longer_strings() {
    let long = vec![1u8; 51];
    match bounded_string(long.clone()) {
        Ok(_) => panic!("a 51-byte string must not fit"),
        Err(back) => assert_eq!(back, long),
    }
}

#[test]
fn hold_reason_is_fractionalization() {
    let r = HoldReason::NftFractionalization;
    assert_eq!(r, HoldReason::NftFractionalization);
    assert!(r <= HoldReason::NftFractionalization);
}

#[test]
fn runtime_version() {
    let v = version();
    assert_eq!(v.spec_name, "metaquity-network");
    assert_eq!(v.impl_name, "metaquity-network");
    assert_eq!(v.authoring_version, 1);
    assert_eq!(v.spec_version, 100);
    assert_eq!(v.impl_version, 0);
    assert_eq!(v.transaction_version, 1);
    assert_eq!(v.state_version, 1);
}

#[test]
fn native_version_authors_only_its_own_spec() {
    let n = native_version();
    assert_eq!(n.runtime_version.spec_name, "metaquity-network");
    assert_eq!(n.runtime_version.spec_version, 100);
    assert!(n.can_author_with.is_empty());
}
