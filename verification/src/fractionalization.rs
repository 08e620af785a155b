//! Parameters of NFT fractionalization: the pallet's account identifier and
//! the name and symbol given to the assets that fractionalized NFTs become.
use vstd::prelude::*;

use bounded_collections::{BoundedVec, ConstU32};

verus! {

#[verifier::external_type_specification]
#[verifier::external_body]
#[verifier::reject_recursive_types(T)]
#[verifier::reject_recursive_types(S)]
pub struct ExBoundedVec<T, S>(BoundedVec<T, S>);

#[verifier::external_type_specification]
#[verifier::external_body]
pub struct ExConstU32<const T: u32>(ConstU32<T>);

/// Longest name or symbol, in bytes, that an asset may carry, in the assets
/// pallet and for fractionalized NFTs alike.
pub const STRING_LIMIT: u32 = 50;

/// The bytes that a bounded byte vector of at most `STRING_LIMIT` bytes holds.
pub uninterp spec fn bounded_bytes(v: BoundedVec<u8, ConstU32<50>>) -> Seq<u8>;

/// `BoundedVec::try_from` on a `Vec<u8>` with the bound `ConstU32<50>`: it
/// succeeds exactly when the vector holds at most 50 bytes, and then keeps
/// them unchanged; otherwise it hands the vector back unchanged.
#[verifier::external_body]
fn bounded_from_vec(bytes: Vec<u8>) -> (res: Result<BoundedVec<u8, ConstU32<50>>, Vec<u8>>)
    ensures
        res is Ok <==> bytes@.len() <= 50,
        res matches Ok(v) ==> bounded_bytes(v) == bytes@,
        res matches Err(back) ==> back@ == bytes@,
{
    BoundedVec::try_from(bytes)
}

/// `BoundedVec::into_inner`: the bytes held, as a `Vec<u8>`.
#[verifier::external_body]
fn bounded_into_inner(v: BoundedVec<u8, ConstU32<50>>) -> (bytes: Vec<u8>)
    ensures
        bytes@ == bounded_bytes(v),
{
    v.into_inner()
}

/// The bytes that a bounded string holds.
pub fn string_bytes(v: BoundedVec<u8, ConstU32<50>>) -> (bytes: Vec<u8>)
    ensures
        bytes@ == bounded_bytes(v),
{
    bounded_into_inner(v)
}

/// Bounds `bytes` by the string limit, or hands them back when they are longer.
pub fn bounded_string(bytes: Vec<u8>) -> (res: Result<BoundedVec<u8, ConstU32<50>>, Vec<u8>>)
    ensures
        res is Ok <==> bytes@.len() <= STRING_LIMIT,
        res matches Ok(v) ==> bounded_bytes(v) == bytes@,
        res matches Err(back) ==> back@ == bytes@,
{
    bounded_from_vec(bytes)
}

/// The name of a newly fractionalized asset: "Frac".
pub fn new_asset_name() -> (name: BoundedVec<u8, ConstU32<50>>)
    ensures
        bounded_bytes(name) == seq![70u8, 114u8, 97u8, 99u8],
{
    let bytes: Vec<u8> = vec![70u8, 114u8, 97u8, 99u8];
    let bounded = bounded_string(bytes);
    bounded.unwrap()
}

/// Identifier of the NFT fractionalization pallet, from which its account is
/// derived: the eight bytes of "fraction".
pub fn nft_fractionalization_pallet_id() -> (id: [u8; 8])
    ensures
        id@ == seq![102u8, 114u8, 97u8, 99u8, 116u8, 105u8, 111u8, 110u8],
{
    [102u8, 114u8, 97u8, 99u8, 116u8, 105u8, 111u8, 110u8]
}

/// The symbol of a newly fractionalized asset: "FRAC".
pub fn new_asset_symbol() -> (symbol: BoundedVec<u8, ConstU32<50>>)
    ensures
        bounded_bytes(symbol) == seq![70u8, 82u8, 65u8, 67u8],
{
    let bytes: Vec<u8> = vec![70u8, 82u8, 65u8, 67u8];
    let bounded = bounded_string(bytes);
    bounded.unwrap()
}

} // verus!
