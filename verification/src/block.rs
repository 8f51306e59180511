//! Assembling the block context of a replay from the fields of a fetched
//! block header.

use vstd::prelude::*;
use crate::primitives::{be_byte, Address, B256, U256};

verus! {

/// The fields of a block header that a replay reads.
#[derive(Clone, Copy, Debug)]
pub struct BlockDetails {
    pub number: U256,
    pub miner: Address,
    pub timestamp: U256,
    pub gas_limit: U256,
    pub base_fee_per_gas: U256,
    pub difficulty: U256,
    pub excess_blob_gas: U256,
}

/// A block's excess blob gas together with the blob gas price derived from it.
#[derive(Clone, Copy, Debug, PartialEq, Eq)]
pub struct BlobExcessGasAndPrice {
    pub excess_blob_gas: u64,
    pub blob_gasprice: u128,
}

/// The block context that the execution engine runs a transaction in.
#[derive(Clone, Copy, Debug)]
pub struct BlockEnv {
    pub number: U256,
    pub beneficiary: Address,
    pub timestamp: U256,
    pub gas_limit: u64,
    pub basefee: u64,
    pub difficulty: U256,
    pub prevrandao: Option<B256>,
    pub blob_excess_gas_and_price: Option<BlobExcessGasAndPrice>,
}

/// A header field that does not fit the 64 bits that the engine gives it.
#[derive(Clone, Copy, Debug, PartialEq, Eq, Structural)]
pub enum NumericOverflowError {
    GasLimit,
    BaseFee,
}

/// The excess blob gas that every block context is given. The engine rejects
/// a context without blob gas, so the floor of 1 stands in for the header's
/// own figure.
pub const BLOB_EXCESS_GAS_FLOOR: u64 = 1;

/// The update fraction from which the blob gas price is derived.
pub const BLOB_BASE_FEE_UPDATE_FRACTION: u64 = 1;

/// `ruint::FromUintError`, the error of the conversions from `Uint` to a
/// primitive integer.
#[verifier::external_type_specification]
#[verifier::external_body]
#[verifier::reject_recursive_types(T)]
pub struct ExFromUintError<T>(revm::primitives::ruint::FromUintError<T>);

/// The blob gas price that `BlobExcessGasAndPrice::new` of
/// `revm::context_interface::block` computes from an excess blob gas and an
/// update fraction.
pub uninterp spec fn blob_gasprice(excess_blob_gas: u64, update_fraction: u64) -> u128;

/// `u64::try_from` on `ruint`'s 256-bit `Uint`: succeeds exactly when the value
/// fits in 64 bits, and then returns it.
#[verifier::external_body]
fn u256_to_u64(x: &U256) -> (r: Result<u64, revm::primitives::ruint::FromUintError<u64>>)
    ensures
        r is Ok <==> x.value() <= u64::MAX,
        r matches Ok(v) ==> v == x.value(),
{
    u64::try_from(revm::primitives::U256::from_limbs(x.limbs))
}

/// `B256::from` on a `U256` of `alloy_primitives`: the 32 bytes of the value,
/// most significant byte first.
#[verifier::external_body]
fn u256_to_b256(x: &U256) -> (r: B256)
    ensures
        forall|i: int| 0 <= i < 32 ==> #[trigger] r.0[i] == be_byte(x.value(), i),
{
    B256(revm::primitives::B256::from(revm::primitives::U256::from_limbs(x.limbs)).0)
}

/// `BlobExcessGasAndPrice::new` of `revm::context_interface::block`: keeps the
/// excess blob gas and derives the price from it. The outside function stops
/// on a zero fraction; with an excess no larger than the fraction none of its
/// intermediate products leaves 128 bits.
#[verifier::external_body]
fn new_blob_excess_gas_and_price(excess_blob_gas: u64, update_fraction: u64) -> (r:
    BlobExcessGasAndPrice)
    requires
        update_fraction > 0,
        excess_blob_gas <= update_fraction,
    ensures
        r.excess_blob_gas == excess_blob_gas,
        r.blob_gasprice == blob_gasprice(excess_blob_gas, update_fraction),
{
    let made = revm::context_interface::block::BlobExcessGasAndPrice::new(
        excess_blob_gas,
        update_fraction,
    );
    BlobExcessGasAndPrice { excess_blob_gas: made.excess_blob_gas, blob_gasprice: made.blob_gasprice }
}

/// The block context for `block_details`, given the two header fields that
/// were narrowed to 64 bits, the randomness seed and the blob gas figures.
pub fn assemble_block_env(
    block_details: &BlockDetails,
    gas_limit: u64,
    basefee: u64,
    prevrandao: B256,
    blob: BlobExcessGasAndPrice,
) -> (env: BlockEnv)
    ensures
        env == (BlockEnv {
            number: block_details.number,
            beneficiary: block_details.miner,
            timestamp: block_details.timestamp,
            gas_limit,
            basefee,
            difficulty: block_details.difficulty,
            prevrandao: Some(prevrandao),
            blob_excess_gas_and_price: Some(blob),
        }),
{
    BlockEnv {
        number: block_details.number,
        beneficiary: block_details.miner,
        timestamp: block_details.timestamp,
        gas_limit,
        basefee,
        difficulty: block_details.difficulty,
        prevrandao: Some(prevrandao),
        blob_excess_gas_and_price: Some(blob),
    }
}

/// What `create_block_env_from_block_details` returns for a header whose gas
/// limit and base fee fit in 64 bits: the header's fields, the difficulty
/// re-read as the randomness seed, and the blob gas floor with its price.
pub open spec fn is_block_env_of(env: BlockEnv, block_details: BlockDetails) -> bool {
    &&& env.number == block_details.number
    &&& env.beneficiary == block_details.miner
    &&& env.timestamp == block_details.timestamp
    &&& env.gas_limit == block_details.gas_limit.value()
    &&& env.basefee == block_details.base_fee_per_gas.value()
    &&& env.difficulty == block_details.difficulty
    &&& env.prevrandao matches Some(seed) && forall|i: int|
        0 <= i < 32 ==> #[trigger] seed.0[i] == be_byte(block_details.difficulty.value(), i)
    &&& env.blob_excess_gas_and_price == Some(
        BlobExcessGasAndPrice {
            excess_blob_gas: BLOB_EXCESS_GAS_FLOOR,
            blob_gasprice: blob_gasprice(BLOB_EXCESS_GAS_FLOOR, BLOB_BASE_FEE_UPDATE_FRACTION),
        },
    )
}

/// Builds the block context from a fetched header. The gas limit is narrowed
/// first, then the base fee; the first of them that does not fit in 64 bits is
/// reported, and no context is built.
pub fn create_block_env_from_block_details(block_details: BlockDetails) -> (r: Result<
    BlockEnv,
    NumericOverflowError,
>)
    ensures
        r == Err::<BlockEnv, NumericOverflowError>(NumericOverflowError::GasLimit)
            <==> block_details.gas_limit.value() > u64::MAX,
        r == Err::<BlockEnv, NumericOverflowError>(NumericOverflowError::BaseFee) <==> {
            &&& block_details.gas_limit.value() <= u64::MAX
            &&& block_details.base_fee_per_gas.value() > u64::MAX
        },
        r matches Ok(env) ==> is_block_env_of(env, block_details),
{
    let gas_limit = match u256_to_u64(&block_details.gas_limit) {
        Ok(v) => v,
        Err(_) => {
            return Err(NumericOverflowError::GasLimit);
        },
    };
    let basefee = match u256_to_u64(&block_details.base_fee_per_gas) {
        Ok(v) => v,
        Err(_) => {
            return Err(NumericOverflowError::BaseFee);
        },
    };
    let prevrandao = u256_to_b256(&block_details.difficulty);
    let blob = new_blob_excess_gas_and_price(BLOB_EXCESS_GAS_FLOOR, BLOB_BASE_FEE_UPDATE_FRACTION);
    Ok(assemble_block_env(&block_details, gas_limit, basefee, prevrandao, blob))
}

} // verus!
