use mining_execution_token_mining::configuration::{CooldownConfig, TokenConfig, TokenMiningConfigurations};
use mining_execution_token_mining::pallet::Module;
use mining_execution_token_mining::types::{
    ensure_signed, Error, Event, MiningSpeedBoostExecutionTokenMining,
    MiningSpeedBoostExecutionTokenMiningExecutionResult, Origin,
};
use mining_execution_token_mining::unique_id::random_value;

const ALICE: u64 = 1;
const BOB: u64 = 2;
const CHARLIE: u64 = 3;

fn configurations_with(config_id: u64, owner: u64, amount: u128, min_amount: u128) -> TokenMiningConfigurations {
    let mut configs = TokenMiningConfigurations::new();
    configs.insert_configuration(config_id, owner);
    configs.set_token_config(
        config_id,
        TokenConfig {
            token_lock_amount: amount,
            token_lock_start_block: 10,
            token_lock_interval_blocks: 20,
        },
    );
    configs.set_cooldown_config(
        config_id,
        CooldownConfig {
            token_lock_min_blocks: 5,
            token_lock_min_amount: min_amount,
        },
    );
    configs
}

#[test]
fn ensure_signed_accepts_only_signed_calls() {
    assert_eq!(ensure_signed(Origin::Signed(ALICE)), Ok(ALICE));
    assert_eq!(ensure_signed(Origin::Root), Err(Error::BadOrigin));
    assert_eq!(ensure_signed(Origin::Unsigned), Err(Error::BadOrigin));
}

#[test]
fn create_with_unique_id_stores_owned_execution() {
    let mut module = Module::new();
    assert_eq!(module.mining_execution_token_mining_count(), 0);
    let r = module.create_with_unique_id(Origin::Signed(ALICE), [7u8; 16]);
    assert_eq!(r, Ok(Event::Created(ALICE, 0)));
    assert_eq!(module.mining_execution_token_mining_count(), 1);
    assert_eq!(module.mining_execution_token_mining(0), Some(MiningSpeedBoostExecutionTokenMining([7u8; 16])));
    assert_eq!(module.mining_execution_token_mining_owner(0), Some(ALICE));
    assert_eq!(module.exists_mining_execution_token_mining(0), Ok(MiningSpeedBoostExecutionTokenMining([7u8; 16])));
    assert_eq!(module.is_mining_execution_token_mining_owner(0, ALICE), Ok(()));
    assert_eq!(module.is_mining_execution_token_mining_owner(0, BOB), Err(Error::NotExecutionOwner));
}

#[test]
fn successive_creates_get_successive_indices() {
    let mut module = Module::new();
    assert_eq!(module.create_with_unique_id(Origin::Signed(ALICE), [1u8; 16]), Ok(Event::Created(ALICE, 0)));
    assert_eq!(module.create_with_unique_id(Origin::Signed(BOB), [2u8; 16]), Ok(Event::Created(BOB, 1)));
    assert_eq!(module.mining_execution_token_mining_count(), 2);
    assert_eq!(module.mining_execution_token_mining_owner(0), Some(ALICE));
    assert_eq!(module.mining_execution_token_mining_owner(1), Some(BOB));
}

#[test]
fn unsigned_create_is_refused_and_changes_nothing() {
    let mut module = Module::new();
    assert_eq!(module.create(Origin::Unsigned, [0u8; 32], Some(0), 5), Err(Error::BadOrigin));
    assert_eq!(module.create_with_unique_id(Origin::Root, [0u8; 16]), Err(Error::BadOrigin));
    assert_eq!(module.mining_execution_token_mining_count(), 0);
    assert_eq!(module.mining_execution_token_mining(0), None);
}

#[test]
fn exists_reports_missing_execution() {
    let module = Module::new();
    assert_eq!(module.exists_mining_execution_token_mining(3), Err(Error::ExecutionDoesNotExist));
    assert_eq!(module.mining_execution_token_mining_owner(3), None);
}

#[test]
fn random_value_hashes_the_scale_encoded_payload() {
    let seed = [9u8; 32];
    let id = random_value(ALICE, seed, Some(2), 300);
    let mut payload: Vec<u8> = seed.to_vec();
    payload.extend_from_slice(&ALICE.to_le_bytes());
    payload.push(1);
    payload.extend_from_slice(&2u32.to_le_bytes());
    payload.extend_from_slice(&300u64.to_le_bytes());
    assert_eq!(payload.len(), 32 + 8 + 5 + 8);
    assert_eq!(id, sp_io::hashing::blake2_128(&payload));
    assert_ne!(id.to_vec(), payload[..16].to_vec());
}

#[test]
fn random_value_encodes_missing_extrinsic_index_as_zero_byte() {
    let seed = [3u8; 32];
    let id = random_value(BOB, seed, None, 7);
    let mut payload: Vec<u8> = seed.to_vec();
    payload.extend_from_slice(&BOB.to_le_bytes());
    payload.push(0);
    payload.extend_from_slice(&7u64.to_le_bytes());
    assert_eq!(id, sp_io::hashing::blake2_128(&payload));
    assert_ne!(random_value(BOB, seed, None, 8), id);
}

#[test]
fn create_uses_random_value_as_unique_id() {
    let mut module = Module::new();
    let seed = [4u8; 32];
    let r = module.create(Origin::Signed(CHARLIE), seed, Some(1), 12);
    assert_eq!(r, Ok(Event::Created(CHARLIE, 0)));
    let expected = random_value(CHARLIE, seed, Some(1), 12);
    assert_eq!(module.mining_execution_token_mining(0), Some(MiningSpeedBoostExecutionTokenMining(expected)));
    assert_eq!(module.mining_execution_token_mining_owner(0), Some(CHARLIE));
}

#[test]
fn transfer_moves_ownership() {
    let mut module = Module::new();
    module.create_with_unique_id(Origin::Signed(ALICE), [1u8; 16]).unwrap();
    assert_eq!(module.transfer(Origin::Signed(ALICE), BOB, 0), Ok(Event::Transferred(ALICE, BOB, 0)));
    assert_eq!(module.mining_execution_token_mining_owner(0), Some(BOB));
    assert_eq!(module.is_mining_execution_token_mining_owner(0, BOB), Ok(()));
    assert_eq!(module.is_mining_execution_token_mining_owner(0, ALICE), Err(Error::NotExecutionOwner));
}

#[test]
fn transfer_by_non_owner_is_refused() {
    let mut module = Module::new();
    module.create_with_unique_id(Origin::Signed(ALICE), [1u8; 16]).unwrap();
    assert_eq!(module.transfer(Origin::Signed(BOB), CHARLIE, 0), Err(Error::OnlyOwnerCanTransfer));
    assert_eq!(module.transfer(Origin::Signed(BOB), CHARLIE, 5), Err(Error::OnlyOwnerCanTransfer));
    assert_eq!(module.transfer(Origin::Root, CHARLIE, 0), Err(Error::BadOrigin));
    assert_eq!(module.mining_execution_token_mining_owner(0), Some(ALICE));
}

#[test]
fn set_execution_result_inserts_then_overwrites() {
    let mut module = Module::new();
    let configs = configurations_with(100, ALICE, 50, 10);
    module.create_with_unique_id(Origin::Signed(ALICE), [1u8; 16]).unwrap();
    assert_eq!(module.has_value_for_mining_execution_token_mining_execution_result_index(100, 0), Err(Error::NoExecutionResultValue));
    assert_eq!(module.exists_mining_execution_token_mining_execution_result(100, 0), Err(Error::ExecutionResultDoesNotExist));
    let r = module.set_mining_execution_token_mining_execution_result(Origin::Signed(ALICE), 100, 0, None, None, 40, &configs);
    assert_eq!(r, Ok(Event::MiningSpeedBoostExecutionTokenMiningExecutionResultSet(ALICE, 100, 0, ALICE, 40, 41)));
    assert_eq!(
        module.mining_execution_token_mining_execution_results((100, 0)),
        Some(MiningSpeedBoostExecutionTokenMiningExecutionResult {
            token_execution_executor_account_id: ALICE,
            token_execution_started_block: 40,
            token_execution_ended_block: 41,
        })
    );
    assert_eq!(module.has_value_for_mining_execution_token_mining_execution_result_index(100, 0), Ok(()));
    assert_eq!(module.exists_mining_execution_token_mining_execution_result(100, 0), Ok(()));
    let r = module.set_mining_execution_token_mining_execution_result(Origin::Signed(ALICE), 100, 0, Some(50), Some(60), 45, &configs);
    assert_eq!(r, Ok(Event::MiningSpeedBoostExecutionTokenMiningExecutionResultSet(ALICE, 100, 0, ALICE, 50, 60)));
    assert_eq!(
        module.mining_execution_token_mining_execution_results((100, 0)),
        Some(MiningSpeedBoostExecutionTokenMiningExecutionResult {
            token_execution_executor_account_id: ALICE,
            token_execution_started_block: 50,
            token_execution_ended_block: 60,
        })
    );
}

#[test]
fn set_execution_result_refusals() {
    let mut module = Module::new();
    let configs = configurations_with(100, ALICE, 50, 10);
    let poor = configurations_with(100, ALICE, 10, 10);
    module.create_with_unique_id(Origin::Signed(ALICE), [1u8; 16]).unwrap();
    module.create_with_unique_id(Origin::Signed(BOB), [2u8; 16]).unwrap();
    assert_eq!(
        module.set_mining_execution_token_mining_execution_result(Origin::Unsigned, 100, 0, None, None, 1, &configs),
        Err(Error::BadOrigin)
    );
    assert_eq!(
        module.set_mining_execution_token_mining_execution_result(Origin::Signed(ALICE), 100, 9, None, None, 1, &configs),
        Err(Error::ExecutionDoesNotExist)
    );
    assert_eq!(
        module.set_mining_execution_token_mining_execution_result(Origin::Signed(ALICE), 100, 1, None, None, 1, &configs),
        Err(Error::OnlyOwnerCanSetExecutionResult)
    );
    assert_eq!(
        module.set_mining_execution_token_mining_execution_result(Origin::Signed(BOB), 100, 1, None, None, 1, &configs),
        Err(Error::OnlyConfigurationOwnerCanExecute)
    );
    assert_eq!(
        module.set_mining_execution_token_mining_execution_result(Origin::Signed(ALICE), 100, 0, None, None, 1, &poor),
        Err(Error::TokenLockAmountCheckFailed)
    );
    assert_eq!(module.mining_execution_token_mining_execution_results((100, 0)), None);
    assert_eq!(module.mining_execution_token_mining_execution_results((100, 1)), None);
}

#[test]
fn lock_checks_follow_the_configuration() {
    let configs = configurations_with(100, ALICE, 50, 10);
    let empty = TokenMiningConfigurations::new();
    assert_eq!(Module::token_execution_started_block_greater_than_current_block(0, 100, 11, &configs), Ok(()));
    assert_eq!(Module::token_execution_started_block_greater_than_current_block(0, 100, 10, &configs), Err(Error::BeforeLockStartBlock));
    assert_eq!(Module::token_execution_started_block_greater_than_current_block(0, 100, 11, &empty), Err(Error::TokenConfigNotFound));
    assert_eq!(Module::token_lock_interval_blocks_greater_than_token_lock_min_blocks(0, 100, &configs), Ok(()));
    assert_eq!(Module::token_lock_amount_greater_than_token_lock_min_amount(0, 100, &configs), Ok(()));
    assert_eq!(Module::token_lock_interval_blocks_greater_than_token_lock_min_blocks(0, 100, &empty), Err(Error::TokenConfigNotFound));
    assert_eq!(Module::token_lock_amount_greater_than_token_lock_min_amount(0, 100, &empty), Err(Error::TokenConfigNotFound));

    let mut no_cooldown = TokenMiningConfigurations::new();
    no_cooldown.set_token_config(7, TokenConfig { token_lock_amount: 5, token_lock_start_block: 0, token_lock_interval_blocks: 5 });
    assert_eq!(Module::token_lock_interval_blocks_greater_than_token_lock_min_blocks(0, 7, &no_cooldown), Err(Error::CooldownConfigNotFound));
    assert_eq!(Module::token_lock_amount_greater_than_token_lock_min_amount(0, 7, &no_cooldown), Err(Error::CooldownConfigNotFound));
    no_cooldown.set_cooldown_config(7, CooldownConfig { token_lock_min_blocks: 5, token_lock_min_amount: 5 });
    assert_eq!(Module::token_lock_interval_blocks_greater_than_token_lock_min_blocks(0, 7, &no_cooldown), Err(Error::LockIntervalNotLongerThanMinimum));
    assert_eq!(Module::token_lock_amount_greater_than_token_lock_min_amount(0, 7, &no_cooldown), Err(Error::LockAmountNotLargerThanMinimum));
}

#[test]
fn execution_always_succeeds() {
    assert_eq!(Module::execution(ALICE, 1, 2, ALICE, 3, 4), Ok(()));
}

#[test]
fn associate_appends_once() {
    let mut module = Module::new();
    assert_eq!(module.token_mining_configuration_execution(100), None);
    assert_eq!(module.associate_token_execution_with_configuration(4, 100), Ok(()));
    assert_eq!(module.associate_token_execution_with_configuration(2, 100), Ok(()));
    assert_eq!(module.token_mining_configuration_execution(100), Some(vec![4, 2]));
    assert_eq!(
        module.associate_token_execution_with_configuration(4, 100),
        Err(Error::ConfigurationAlreadyContainsExecution)
    );
    assert_eq!(module.token_mining_configuration_execution(100), Some(vec![4, 2]));
}

#[test]
fn assign_execution_to_configuration_records_both_ways() {
    let mut module = Module::new();
    let configs = configurations_with(100, ALICE, 50, 10);
    module.create_with_unique_id(Origin::Signed(BOB), [1u8; 16]).unwrap();
    let r = module.assign_execution_to_configuration(Origin::Signed(ALICE), 0, 100, &configs);
    assert_eq!(r, Ok(Event::AssignedTokenMiningExecutionToConfiguration(ALICE, 0, 100)));
    assert_eq!(module.token_mining_execution_configuration(0), Some(100));
    assert_eq!(module.token_mining_configuration_execution(100), Some(vec![0]));
}

#[test]
fn assign_refusals() {
    let mut module = Module::new();
    let configs = configurations_with(100, ALICE, 50, 10);
    assert_eq!(module.assign_execution_to_configuration(Origin::Root, 0, 100, &configs), Err(Error::BadOrigin));
    assert_eq!(module.assign_execution_to_configuration(Origin::Signed(ALICE), 0, 200, &configs), Err(Error::ConfigurationDoesNotExist));
    assert_eq!(module.assign_execution_to_configuration(Origin::Signed(BOB), 0, 100, &configs), Err(Error::OnlyConfigurationOwnerCanAssign));
    assert_eq!(module.token_mining_configuration_execution(100), None);
    // The execution does not exist: refused, but the association stays.
    assert_eq!(module.assign_execution_to_configuration(Origin::Signed(ALICE), 0, 100, &configs), Err(Error::InvalidExecutionId));
    assert_eq!(module.token_mining_configuration_execution(100), Some(vec![0]));
    assert_eq!(module.token_mining_execution_configuration(0), None);
}

#[test]
fn error_messages_match_the_pallet() {
    assert_eq!(Error::OnlyOwnerCanTransfer.message(), "Only owner can transfer mining mining_execution_token_mining");
    assert_eq!(Error::ExecutionDoesNotExist.message(), "MiningSpeedBoostExecutionTokenMining does not exist");
    assert_eq!(Error::ConfigurationAlreadyContainsExecution.message(), "Configuration already contains the given execution id");
    assert_eq!(Error::ExecutionCountOverflow.message(), "MiningSpeedBoostExecutionTokenMining count overflow");
}

#[test]
fn default_execution_result_is_zero() {
    let d = <MiningSpeedBoostExecutionTokenMiningExecutionResult<u64, u64, u64> as Default>::default();
    assert_eq!(d.token_execution_executor_account_id, 0);
    assert_eq!(d.token_execution_started_block, 0);
    assert_eq!(d.token_execution_ended_block, 0);
}

#[test]
fn configuration_queries() {
    let configs = configurations_with(100, ALICE, 50, 10);
    assert!(configs.exists_configuration(100));
    assert!(!configs.exists_configuration(101));
    assert!(configs.is_configuration_owner(100, ALICE));
    assert!(!configs.is_configuration_owner(100, BOB));
    assert_eq!(configs.token_config(101), None);
    assert_eq!(configs.cooldown_config(100), Some(CooldownConfig { token_lock_min_blocks: 5, token_lock_min_amount: 10 }));
}

#[test]
fn stored_execution_survives_transfers() {
    let mut module = Module::new();
    module.create_with_unique_id(Origin::Signed(ALICE), [5u8; 16]).unwrap();
    module.transfer(Origin::Signed(ALICE), BOB, 0).unwrap();
    module.transfer(Origin::Signed(BOB), CHARLIE, 0).unwrap();
    module.transfer(Origin::Signed(CHARLIE), ALICE, 0).unwrap();
    assert_eq!(module.exists_mining_execution_token_mining(0), Ok(MiningSpeedBoostExecutionTokenMining([5u8; 16])));
    assert_eq!(module.mining_execution_token_mining_count(), 1);
    assert_eq!(module.mining_execution_token_mining_owner(0), Some(ALICE));
}

#[test]
fn next_index_follows_each_create() {
    let mut module = Module::new();
    for i in 0..5u64 {
        assert_eq!(module.mining_execution_token_mining_count(), i);
        assert_eq!(module.create_with_unique_id(Origin::Signed(ALICE), [i as u8; 16]), Ok(Event::Created(ALICE, i)));
        assert_eq!(module.mining_execution_token_mining_count(), i + 1);
        assert_eq!(module.mining_execution_token_mining(i + 1), None);
    }
}

#[test]
fn bad_origin_text() {
    assert_eq!(Error::BadOrigin.message(), "Bad origin");
}
