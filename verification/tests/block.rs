use trace_prestate::block::{
    assemble_block_env, create_block_env_from_block_details, BlobExcessGasAndPrice, BlockDetails,
    NumericOverflowError,
};
use trace_prestate::primitives::{Address, B256, U256};

fn header() -> BlockDetails {
    BlockDetails {
        number: U256::from_u64(19_000_000),
        miner: Address([0x11; 20]),
        timestamp: U256::from_u64(1_700_000_000),
        gas_limit: U256::from_u64(30_000_000),
        base_fee_per_gas: U256::from_u64(7),
        difficulty: U256 { limbs: [0x0807060504030201, 0, 0, 0xa1a2a3a4a5a6a7a8] },
        excess_blob_gas: U256::from_u64(393_216),
    }
}

#[test]
fn header_fields_carry_over() {
    let env = create_block_env_from_block_details(header()).unwrap();
    assert_eq!(env.number, U256::from_u64(19_000_000));
    assert_eq!(env.beneficiary, Address([0x11; 20]));
    assert_eq!(env.timestamp, U256::from_u64(1_700_000_000));
    assert_eq!(env.gas_limit, 30_000_000);
    assert_eq!(env.basefee, 7);
    assert_eq!(env.difficulty, header().difficulty);
}

#[test]
fn difficulty_is_reread_as_the_seed_most_significant_byte_first() {
    let env = create_block_env_from_block_details(header()).unwrap();
    let mut expected = [0u8; 32];
    expected[..8].copy_from_slice(&[0xa1, 0xa2, 0xa3, 0xa4, 0xa5, 0xa6, 0xa7, 0xa8]);
    expected[24..].copy_from_slice(&[0x08, 0x07, 0x06, 0x05, 0x04, 0x03, 0x02, 0x01]);
    assert_eq!(env.prevrandao, Some(B256(expected)));
}

#[test]
fn seed_of_a_small_difficulty_ends_in_its_byte() {
    let mut details = header();
    details.difficulty = U256::from_u64(2);
    let env = create_block_env_from_block_details(details).unwrap();
    let mut expected = [0u8; 32];
    expected[31] = 2;
    assert_eq!(env.prevrandao, Some(B256(expected)));
}

#[test]
fn blob_gas_is_floored_at_one_whatever_the_header_says() {
    let env = create_block_env_from_block_details(header()).unwrap();
    assert_eq!(
        env.blob_excess_gas_and_price,
        Some(BlobExcessGasAndPrice { excess_blob_gas: 1, blob_gasprice: 2 })
    );
    let mut other = header();
    other.excess_blob_gas = U256::zero();
    let env = create_block_env_from_block_details(other).unwrap();
    assert_eq!(
        env.blob_excess_gas_and_price,
        Some(BlobExcessGasAndPrice { excess_blob_gas: 1, blob_gasprice: 2 })
    );
}

#[test]
fn largest_gas_limit_and_base_fee_fit() {
    let mut details = header();
    details.gas_limit = U256::from_u64(u64::MAX);
    details.base_fee_per_gas = U256::from_u64(u64::MAX);
    let env = create_block_env_from_block_details(details).unwrap();
    assert_eq!(env.gas_limit, u64::MAX);
    assert_eq!(env.basefee, u64::MAX);
}

#[test]
fn gas_limit_beyond_64_bits_is_refused() {
    let mut details = header();
    details.gas_limit = U256 { limbs: [0, 1, 0, 0] };
    assert_eq!(
        create_block_env_from_block_details(details).err(),
        Some(NumericOverflowError::GasLimit)
    );
    details.gas_limit = U256 { limbs: [5, 0, 0, 1] };
    assert_eq!(
        create_block_env_from_block_details(details).err(),
        Some(NumericOverflowError::GasLimit)
    );
}

#[test]
fn base_fee_beyond_64_bits_is_refused() {
    let mut details = header();
    details.base_fee_per_gas = U256 { limbs: [9, 0, 1, 0] };
    assert_eq!(
        create_block_env_from_block_details(details).err(),
        Some(NumericOverflowError::BaseFee)
    );
}

#[test]
fn gas_limit_is_reported_before_base_fee() {
    let mut details = header();
    details.gas_limit = U256 { limbs: [0, 1, 0, 0] };
    details.base_fee_per_gas = U256 { limbs: [0, 1, 0, 0] };
    assert_eq!(
        create_block_env_from_block_details(details).err(),
        Some(NumericOverflowError::GasLimit)
    );
}

#[test]
fn other_wide_fields_do_not_matter() {
    let mut details = header();
    details.number = U256 { limbs: [1, 2, 3, 4] };
    details.timestamp = U256 { limbs: [u64::MAX; 4] };
    let env = create_block_env_from_block_details(details).unwrap();
    assert_eq!(env.number, U256 { limbs: [1, 2, 3, 4] });
    assert_eq!(env.timestamp, U256 { limbs: [u64::MAX; 4] });
}

#[test]
fn assembled_context_holds_what_it_was_given() {
    let blob = BlobExcessGasAndPrice { excess_blob_gas: 4, blob_gasprice: 9 };
    let env = assemble_block_env(&header(), 10, 20, B256([3; 32]), blob);
    assert_eq!(env.gas_limit, 10);
    assert_eq!(env.basefee, 20);
    assert_eq!(env.prevrandao, Some(B256([3; 32])));
    assert_eq!(env.blob_excess_gas_and_price, Some(blob));
    assert_eq!(env.beneficiary, Address([0x11; 20]));
}

#[test]
fn small_integers_sit_in_the_lowest_limb() {
    assert_eq!(U256::zero().limbs, [0, 0, 0, 0]);
    assert_eq!(U256::from_u64(77).limbs, [77, 0, 0, 0]);
}
