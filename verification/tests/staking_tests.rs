use dregan::codec::{
    decode_pool_config, decode_stake_account, encode_stake_instruction, POOL_CONFIG_LEN,
    STAKE_ACCOUNT_LEN,
};
use dregan::errors::CoreError;
use dregan::ids::Identity;
use dregan::records::{RecordRef, RewardPolicy, StakeInstruction, StakeTier};
use dregan::staking::{self, StakeEvent, StakingOutcome};
use solana_program::program_option::COption;
use solana_program::program_pack::Pack;
use solana_program::pubkey::Pubkey;

const DAY: u64 = 86_400;
const NOW: u64 = 1_000_000;

fn id(n: u8) -> Identity {
    Identity { bytes: [n; 32] }
}

fn pk(i: &Identity) -> Pubkey {
    Pubkey::new_from_array(i.bytes)
}

fn from_pk(p: Pubkey) -> Identity {
    Identity { bytes: p.to_bytes() }
}

fn program() -> Identity {
    id(100)
}

fn token_program_id() -> Identity {
    from_pk(spl_token::id())
}

fn authority() -> Identity {
    id(11)
}

fn mint() -> Identity {
    id(12)
}

fn stake_vault_key() -> Identity {
    id(13)
}

fn reward_vault_key() -> Identity {
    id(14)
}

fn owner() -> Identity {
    id(42)
}

/// A record that only contributes its address and signer flag.
fn key_only(key: Identity, is_signer: bool) -> RecordRef {
    RecordRef { key, owner_program: id(0), is_signer, data: Vec::new() }
}

/// A real 165-byte balance record packed by the token implementation.
fn token_record(key: Identity, mint: &Identity, owner: &Identity, amount: u64) -> RecordRef {
    let account = spl_token::state::Account {
        mint: pk(mint),
        owner: pk(owner),
        amount,
        delegate: COption::None,
        state: spl_token::state::AccountState::Initialized,
        is_native: COption::None,
        delegated_amount: 0,
        close_authority: COption::None,
    };
    let mut data = vec![0u8; 165];
    spl_token::state::Account::pack(account, &mut data).unwrap();
    RecordRef { key, owner_program: token_program_id(), is_signer: false, data }
}

fn stake_pda(owner: &Identity) -> (Identity, u8) {
    let (k, b) = Pubkey::find_program_address(&[b"stake", &owner.bytes], &pk(&program()));
    (from_pk(k), b)
}

fn vault_authority() -> (Identity, u8) {
    let (k, b) = Pubkey::find_program_address(&[b"vault"], &pk(&program()));
    (from_pk(k), b)
}

/// Initialize the pool registry and return its record.
fn init_pool(policy: RewardPolicy) -> RecordRef {
    let accounts = vec![
        RecordRef {
            key: id(10),
            owner_program: program(),
            is_signer: false,
            data: vec![0u8; POOL_CONFIG_LEN],
        },
        key_only(authority(), true),
        key_only(mint(), false),
        key_only(stake_vault_key(), false),
        key_only(reward_vault_key(), false),
    ];
    let out = staking::initialize_pool(&program(), &accounts, 1, policy).unwrap();
    RecordRef {
        key: id(10),
        owner_program: program(),
        is_signer: false,
        data: out.pool_data.unwrap(),
    }
}

/// Initialize an owner's position record at its canonical address.
fn init_stake(owner: &Identity) -> RecordRef {
    let (pda, bump) = stake_pda(owner);
    let accounts = vec![
        RecordRef {
            key: pda,
            owner_program: program(),
            is_signer: false,
            data: vec![0u8; STAKE_ACCOUNT_LEN],
        },
        key_only(*owner, true),
    ];
    let out = staking::initialize_stake(&program(), &accounts, bump).unwrap();
    RecordRef { key: pda, owner_program: program(), is_signer: false, data: out.stake_data.unwrap() }
}

fn stake_accounts(
    stake_rec: &RecordRef,
    pool_rec: &RecordRef,
    owner: &Identity,
    balance: u64,
) -> Vec<RecordRef> {
    vec![
        stake_rec.clone(),
        key_only(*owner, true),
        token_record(id(20), &mint(), owner, balance),
        key_only(stake_vault_key(), false),
        pool_rec.clone(),
        key_only(token_program_id(), false),
    ]
}

fn do_stake(
    stake_rec: &RecordRef,
    pool_rec: &RecordRef,
    owner: &Identity,
    balance: u64,
    amount: u64,
    tier: StakeTier,
    now: u64,
) -> Result<StakingOutcome, CoreError> {
    let data = encode_stake_instruction(&StakeInstruction::Stake { amount, tier });
    staking::process_instruction(
        &program(),
        &stake_accounts(stake_rec, pool_rec, owner, balance),
        &data,
        now,
    )
}

fn unstake_accounts(stake_rec: &RecordRef, pool_rec: &RecordRef, owner: &Identity) -> Vec<
    RecordRef,
> {
    vec![
        stake_rec.clone(),
        key_only(*owner, true),
        key_only(id(20), false),
        key_only(stake_vault_key(), false),
        pool_rec.clone(),
        key_only(vault_authority().0, false),
        key_only(token_program_id(), false),
    ]
}

fn do_unstake(
    stake_rec: &RecordRef,
    pool_rec: &RecordRef,
    owner: &Identity,
    now: u64,
) -> Result<StakingOutcome, CoreError> {
    let data = encode_stake_instruction(&StakeInstruction::Unstake);
    staking::process_instruction(
        &program(),
        &unstake_accounts(stake_rec, pool_rec, owner),
        &data,
        now,
    )
}

fn with_data(rec: &RecordRef, data: Vec<u8>) -> RecordRef {
    RecordRef { key: rec.key, owner_program: rec.owner_program, is_signer: rec.is_signer, data }
}

// ---------------------------------------------------------------------------
// scenario: a 30-day position at 10% annual

#[test]
fn thousand_units_for_thirty_days_freeze_eight_units_of_reward() {
    let pool = init_pool(RewardPolicy::FixedAtStake);
    let stake_rec = init_stake(&owner());
    let out = do_stake(&stake_rec, &pool, &owner(), 5_000, 1_000, StakeTier::Basic, NOW).unwrap();

    let position = decode_stake_account(&out.stake_data.clone().unwrap()).unwrap();
    assert_eq!(position.amount, 1_000);
    assert_eq!(position.frozen_reward, 8);
    assert_eq!(position.stake_timestamp, NOW);
    assert_eq!(position.unlock_timestamp, NOW + 30 * DAY);
    assert_eq!(position.claimed_rewards, 0);

    let pool_after = decode_pool_config(&out.pool_data.clone().unwrap()).unwrap();
    assert_eq!(pool_after.total_staked, 1_000);
    assert_eq!(pool_after.total_positions, 1);

    let transfer = out.transfer.clone().unwrap();
    assert_eq!(transfer.amount, 1_000);
    assert_eq!(transfer.source.bytes, id(20).bytes);
    assert_eq!(transfer.destination.bytes, stake_vault_key().bytes);
    assert!(transfer.authority_bump.is_none());
    assert_eq!(
        out.event,
        StakeEvent::Staked {
            amount: 1_000,
            tier: StakeTier::Basic,
            frozen_reward: 8,
            unlock_at: NOW + 30 * DAY,
        },
    );
}

#[test]
fn unstaking_before_day_thirty_fails_with_the_lock_error_and_no_transfer() {
    let pool = init_pool(RewardPolicy::FixedAtStake);
    let stake_rec = init_stake(&owner());
    let out = do_stake(&stake_rec, &pool, &owner(), 5_000, 1_000, StakeTier::Basic, NOW).unwrap();
    let staked = with_data(&stake_rec, out.stake_data.unwrap());
    let pool = with_data(&pool, out.pool_data.unwrap());

    for early in [NOW, NOW + 15 * DAY, NOW + 30 * DAY - 1] {
        assert_eq!(do_unstake(&staked, &pool, &owner(), early), Err(CoreError::StillLocked));
    }
}

#[test]
fn unstaking_at_day_thirty_pays_principal_plus_frozen_reward_and_closes() {
    let pool = init_pool(RewardPolicy::FixedAtStake);
    let stake_rec = init_stake(&owner());
    let out = do_stake(&stake_rec, &pool, &owner(), 5_000, 1_000, StakeTier::Basic, NOW).unwrap();
    let staked = with_data(&stake_rec, out.stake_data.unwrap());
    let pool = with_data(&pool, out.pool_data.unwrap());

    let out = do_unstake(&staked, &pool, &owner(), NOW + 30 * DAY).unwrap();
    let transfer = out.transfer.clone().unwrap();
    assert_eq!(transfer.amount, 1_008);
    assert_eq!(transfer.source.bytes, stake_vault_key().bytes);
    assert_eq!(transfer.destination.bytes, id(20).bytes);
    assert_eq!(transfer.authority_bump, Some(vault_authority().1));
    assert_eq!(out.event, StakeEvent::Unstaked { principal: 1_000, reward: 8 });

    let closed = decode_stake_account(&out.stake_data.clone().unwrap()).unwrap();
    assert_eq!(closed.amount, 0);
    assert_eq!(closed.stake_timestamp, 0);
    assert_eq!(closed.unlock_timestamp, 0);
    assert!(closed.is_initialized);

    let pool_after = decode_pool_config(&out.pool_data.clone().unwrap()).unwrap();
    assert_eq!(pool_after.total_staked, 0);
    assert_eq!(pool_after.total_positions, 0);
    assert_eq!(pool_after.total_rewards_distributed, 8);
}

#[test]
fn emergency_unstake_at_day_fifteen_pays_principal_only() {
    let pool = init_pool(RewardPolicy::FixedAtStake);
    let stake_rec = init_stake(&owner());
    let out = do_stake(&stake_rec, &pool, &owner(), 5_000, 1_000, StakeTier::Basic, NOW).unwrap();
    let staked = with_data(&stake_rec, out.stake_data.unwrap());
    let pool = with_data(&pool, out.pool_data.unwrap());

    let data = encode_stake_instruction(&StakeInstruction::EmergencyUnstake);
    let out = staking::process_instruction(
        &program(),
        &unstake_accounts(&staked, &pool, &owner()),
        &data,
        NOW + 15 * DAY,
    )
    .unwrap();
    let transfer = out.transfer.clone().unwrap();
    assert_eq!(transfer.amount, 1_000);
    assert_eq!(out.event, StakeEvent::EmergencyUnstaked { principal: 1_000 });

    let closed = decode_stake_account(&out.stake_data.clone().unwrap()).unwrap();
    assert_eq!(closed.amount, 0);
    assert_eq!(closed.frozen_reward, 0);

    let pool_after = decode_pool_config(&out.pool_data.clone().unwrap()).unwrap();
    assert_eq!(pool_after.total_staked, 0);
    // The 8-unit reward was forfeited: nothing was distributed.
    assert_eq!(pool_after.total_rewards_distributed, 0);
}

// ---------------------------------------------------------------------------
// scenario: continuous claims

fn claim_accounts(
    stake_rec: &RecordRef,
    pool_rec: &RecordRef,
    owner: &Identity,
    vault_balance: u64,
) -> Vec<RecordRef> {
    vec![
        stake_rec.clone(),
        key_only(*owner, true),
        key_only(id(20), false),
        token_record(reward_vault_key(), &mint(), &vault_authority().0, vault_balance),
        pool_rec.clone(),
        key_only(vault_authority().0, false),
        key_only(token_program_id(), false),
    ]
}

#[test]
fn a_claim_pays_what_accrued_and_a_second_claim_finds_nothing() {
    let pool = init_pool(RewardPolicy::Continuous);
    let stake_rec = init_stake(&owner());
    let out = do_stake(&stake_rec, &pool, &owner(), 5_000, 1_000, StakeTier::Basic, NOW).unwrap();
    let staked = with_data(&stake_rec, out.stake_data.unwrap());
    let pool = with_data(&pool, out.pool_data.unwrap());

    let data = encode_stake_instruction(&StakeInstruction::ClaimRewards);
    let now = NOW + 30 * DAY;
    let out = staking::process_instruction(
        &program(),
        &claim_accounts(&staked, &pool, &owner(), 100),
        &data,
        now,
    )
    .unwrap();
    assert_eq!(out.event, StakeEvent::RewardsClaimed { amount: 8 });
    assert_eq!(out.transfer.clone().unwrap().amount, 8);
    assert_eq!(out.transfer.clone().unwrap().source.bytes, reward_vault_key().bytes);

    let position = decode_stake_account(&out.stake_data.clone().unwrap()).unwrap();
    assert_eq!(position.claimed_rewards, 8);
    assert_eq!(position.amount, 1_000);
    let pool_after = decode_pool_config(&out.pool_data.clone().unwrap()).unwrap();
    assert_eq!(pool_after.total_rewards_distributed, 8);

    // An immediate second claim against the updated records finds nothing.
    let staked = with_data(&staked, out.stake_data.unwrap());
    let pool = with_data(&pool, out.pool_data.unwrap());
    let again = staking::process_instruction(
        &program(),
        &claim_accounts(&staked, &pool, &owner(), 100),
        &data,
        now,
    );
    assert_eq!(again, Err(CoreError::NothingToClaim));
}

#[test]
fn a_claim_larger_than_the_reward_vault_fails() {
    let pool = init_pool(RewardPolicy::Continuous);
    let stake_rec = init_stake(&owner());
    let out = do_stake(&stake_rec, &pool, &owner(), 5_000, 1_000, StakeTier::Basic, NOW).unwrap();
    let staked = with_data(&stake_rec, out.stake_data.unwrap());
    let pool = with_data(&pool, out.pool_data.unwrap());

    let data = encode_stake_instruction(&StakeInstruction::ClaimRewards);
    let r = staking::process_instruction(
        &program(),
        &claim_accounts(&staked, &pool, &owner(), 5),
        &data,
        NOW + 30 * DAY,
    );
    assert_eq!(r, Err(CoreError::InsufficientFunds));
}

#[test]
fn claiming_under_the_fixed_policy_waits_for_unlock() {
    let pool = init_pool(RewardPolicy::FixedAtStake);
    let stake_rec = init_stake(&owner());
    let out = do_stake(&stake_rec, &pool, &owner(), 5_000, 1_000, StakeTier::Basic, NOW).unwrap();
    let staked = with_data(&stake_rec, out.stake_data.unwrap());
    let pool = with_data(&pool, out.pool_data.unwrap());

    let data = encode_stake_instruction(&StakeInstruction::ClaimRewards);
    let early = staking::process_instruction(
        &program(),
        &claim_accounts(&staked, &pool, &owner(), 100),
        &data,
        NOW + 15 * DAY,
    );
    assert_eq!(early, Err(CoreError::NothingToClaim));

    let due = staking::process_instruction(
        &program(),
        &claim_accounts(&staked, &pool, &owner(), 100),
        &data,
        NOW + 30 * DAY,
    )
    .unwrap();
    assert_eq!(due.event, StakeEvent::RewardsClaimed { amount: 8 });
}

// ---------------------------------------------------------------------------
// conservation over a sequence of operations

#[test]
fn the_pool_aggregate_tracks_the_sum_of_open_principals() {
    let pool = init_pool(RewardPolicy::FixedAtStake);
    let first = owner();
    let second = id(43);
    let first_rec = init_stake(&first);
    let second_rec = init_stake(&second);

    let out = do_stake(&first_rec, &pool, &first, 5_000, 1_000, StakeTier::Basic, NOW).unwrap();
    let first_rec = with_data(&first_rec, out.stake_data.unwrap());
    let pool = with_data(&pool, out.pool_data.unwrap());

    let out = do_stake(&second_rec, &pool, &second, 5_000, 2_500, StakeTier::Pro, NOW).unwrap();
    let second_rec = with_data(&second_rec, out.stake_data.unwrap());
    let pool = with_data(&pool, out.pool_data.unwrap());

    let totals = decode_pool_config(&pool.data).unwrap();
    let a = decode_stake_account(&first_rec.data).unwrap().amount;
    let b = decode_stake_account(&second_rec.data).unwrap().amount;
    assert_eq!(totals.total_staked, a + b);
    assert_eq!(totals.total_positions, 2);

    let out = do_unstake(&first_rec, &pool, &first, NOW + 30 * DAY).unwrap();
    let first_rec = with_data(&first_rec, out.stake_data.unwrap());
    let pool = with_data(&pool, out.pool_data.unwrap());

    let totals = decode_pool_config(&pool.data).unwrap();
    let a = decode_stake_account(&first_rec.data).unwrap().amount;
    let b = decode_stake_account(&second_rec.data).unwrap().amount;
    assert_eq!(a, 0);
    assert_eq!(totals.total_staked, a + b);
    assert_eq!(totals.total_positions, 1);
}

// ---------------------------------------------------------------------------
// validation failures

#[test]
fn every_gate_of_the_stake_operation_rejects() {
    let pool = init_pool(RewardPolicy::FixedAtStake);
    let stake_rec = init_stake(&owner());

    // Not signed by the owner.
    let mut accounts = stake_accounts(&stake_rec, &pool, &owner(), 5_000);
    accounts[1].is_signer = false;
    let data = encode_stake_instruction(&StakeInstruction::Stake {
        amount: 1_000,
        tier: StakeTier::Basic,
    });
    assert_eq!(
        staking::process_instruction(&program(), &accounts, &data, NOW),
        Err(CoreError::MissingRequiredSignature),
    );

    // The position record belongs to another program.
    let mut accounts = stake_accounts(&stake_rec, &pool, &owner(), 5_000);
    accounts[0].owner_program = id(99);
    assert_eq!(
        staking::process_instruction(&program(), &accounts, &data, NOW),
        Err(CoreError::WrongRecordOwner),
    );

    // A fake token program.
    let mut accounts = stake_accounts(&stake_rec, &pool, &owner(), 5_000);
    accounts[5].key = id(66);
    assert_eq!(
        staking::process_instruction(&program(), &accounts, &data, NOW),
        Err(CoreError::IncorrectTokenProgram),
    );

    // A vault other than the configured one.
    let mut accounts = stake_accounts(&stake_rec, &pool, &owner(), 5_000);
    accounts[3].key = id(77);
    assert_eq!(
        staking::process_instruction(&program(), &accounts, &data, NOW),
        Err(CoreError::WrongVault),
    );

    // A balance record that does not belong to the caller.
    let mut accounts = stake_accounts(&stake_rec, &pool, &owner(), 5_000);
    accounts[2] = token_record(id(20), &mint(), &id(55), 5_000);
    assert_eq!(
        staking::process_instruction(&program(), &accounts, &data, NOW),
        Err(CoreError::TokenOwnerMismatch),
    );

    // A balance record in another asset.
    let mut accounts = stake_accounts(&stake_rec, &pool, &owner(), 5_000);
    accounts[2] = token_record(id(20), &id(88), &owner(), 5_000);
    assert_eq!(
        staking::process_instruction(&program(), &accounts, &data, NOW),
        Err(CoreError::WrongMint),
    );

    // A corrupt balance record.
    let mut accounts = stake_accounts(&stake_rec, &pool, &owner(), 5_000);
    accounts[2].data.truncate(100);
    assert_eq!(
        staking::process_instruction(&program(), &accounts, &data, NOW),
        Err(CoreError::InvalidRecordData),
    );

    // Not enough balance.
    let accounts = stake_accounts(&stake_rec, &pool, &owner(), 999);
    assert_eq!(
        staking::process_instruction(&program(), &accounts, &data, NOW),
        Err(CoreError::InsufficientFunds),
    );

    // A zero amount.
    let zero = encode_stake_instruction(&StakeInstruction::Stake {
        amount: 0,
        tier: StakeTier::Basic,
    });
    let accounts = stake_accounts(&stake_rec, &pool, &owner(), 5_000);
    assert_eq!(
        staking::process_instruction(&program(), &accounts, &zero, NOW),
        Err(CoreError::ZeroAmount),
    );

    // Another owner's signature.
    let impostor = id(55);
    let mut accounts = stake_accounts(&stake_rec, &pool, &impostor, 5_000);
    accounts[2] = token_record(id(20), &mint(), &impostor, 5_000);
    assert_eq!(
        staking::process_instruction(&program(), &accounts, &data, NOW),
        Err(CoreError::OwnerMismatch),
    );

    // Too few records.
    assert_eq!(
        staking::process_instruction(&program(), &vec![], &data, NOW),
        Err(CoreError::NotEnoughRecords),
    );

    // An undecodable instruction.
    assert_eq!(
        staking::process_instruction(
            &program(),
            &stake_accounts(&stake_rec, &pool, &owner(), 5_000),
            &vec![200u8, 1, 2],
            NOW,
        ),
        Err(CoreError::InvalidInstructionData),
    );

    // An uninitialized position record.
    let fresh = RecordRef {
        key: stake_rec.key,
        owner_program: program(),
        is_signer: false,
        data: vec![0u8; STAKE_ACCOUNT_LEN],
    };
    let accounts = stake_accounts(&fresh, &pool, &owner(), 5_000);
    assert_eq!(
        staking::process_instruction(&program(), &accounts, &data, NOW),
        Err(CoreError::UninitializedRecord),
    );

    // A corrupt position record.
    let corrupt = with_data(&stake_rec, vec![9u8; 3]);
    let accounts = stake_accounts(&corrupt, &pool, &owner(), 5_000);
    assert_eq!(
        staking::process_instruction(&program(), &accounts, &data, NOW),
        Err(CoreError::InvalidRecordData),
    );
}

#[test]
fn a_second_stake_on_an_open_position_is_rejected() {
    let pool = init_pool(RewardPolicy::FixedAtStake);
    let stake_rec = init_stake(&owner());
    let out = do_stake(&stake_rec, &pool, &owner(), 5_000, 1_000, StakeTier::Basic, NOW).unwrap();
    let staked = with_data(&stake_rec, out.stake_data.unwrap());
    let pool = with_data(&pool, out.pool_data.unwrap());
    assert_eq!(
        do_stake(&staked, &pool, &owner(), 5_000, 500, StakeTier::Pro, NOW + 1),
        Err(CoreError::AlreadyStaked),
    );
}

#[test]
fn unstaking_without_an_open_position_is_rejected() {
    let pool = init_pool(RewardPolicy::FixedAtStake);
    let stake_rec = init_stake(&owner());
    assert_eq!(
        do_unstake(&stake_rec, &pool, &owner(), NOW + 90 * DAY),
        Err(CoreError::NoActiveStake),
    );
}

#[test]
fn a_spoofed_vault_authority_is_rejected() {
    let pool = init_pool(RewardPolicy::FixedAtStake);
    let stake_rec = init_stake(&owner());
    let out = do_stake(&stake_rec, &pool, &owner(), 5_000, 1_000, StakeTier::Basic, NOW).unwrap();
    let staked = with_data(&stake_rec, out.stake_data.unwrap());
    let pool = with_data(&pool, out.pool_data.unwrap());
    let mut accounts = unstake_accounts(&staked, &pool, &owner());
    accounts[5].key = id(66);
    let data = encode_stake_instruction(&StakeInstruction::Unstake);
    assert_eq!(
        staking::process_instruction(&program(), &accounts, &data, NOW + 30 * DAY),
        Err(CoreError::InvalidSeeds),
    );
}

#[test]
fn the_unlock_time_fails_closed_at_the_end_of_time() {
    let pool = init_pool(RewardPolicy::FixedAtStake);
    let stake_rec = init_stake(&owner());
    assert_eq!(
        do_stake(&stake_rec, &pool, &owner(), 5_000, 1_000, StakeTier::Basic, u64::MAX),
        Err(CoreError::ArithmeticOverflow),
    );
}

#[test]
fn initializing_the_pool_twice_is_rejected() {
    let pool = init_pool(RewardPolicy::FixedAtStake);
    let accounts = vec![
        pool.clone(),
        key_only(authority(), true),
        key_only(mint(), false),
        key_only(stake_vault_key(), false),
        key_only(reward_vault_key(), false),
    ];
    assert_eq!(
        staking::initialize_pool(&program(), &accounts, 1, RewardPolicy::FixedAtStake),
        Err(CoreError::AlreadyInitialized),
    );
}

#[test]
fn a_position_record_off_its_canonical_address_is_rejected() {
    let (_, bump) = stake_pda(&owner());
    let accounts = vec![
        RecordRef {
            key: id(77),  // not the derived address
            owner_program: program(),
            is_signer: false,
            data: vec![0u8; STAKE_ACCOUNT_LEN],
        },
        key_only(owner(), true),
    ];
    assert_eq!(
        staking::initialize_stake(&program(), &accounts, bump),
        Err(CoreError::InvalidSeeds),
    );
}

// ---------------------------------------------------------------------------
// admin operations

#[test]
fn pausing_blocks_new_positions_and_resuming_allows_them() {
    let pool = init_pool(RewardPolicy::FixedAtStake);
    let stake_rec = init_stake(&owner());

    let data = encode_stake_instruction(&StakeInstruction::SetPaused { paused: true });
    let accounts = vec![pool.clone(), key_only(authority(), true)];
    let out = staking::process_instruction(&program(), &accounts, &data, NOW).unwrap();
    assert_eq!(out.event, StakeEvent::PausedSet { paused: true });
    let pool = with_data(&pool, out.pool_data.unwrap());

    assert_eq!(
        do_stake(&stake_rec, &pool, &owner(), 5_000, 1_000, StakeTier::Basic, NOW),
        Err(CoreError::PoolPaused),
    );

    let data = encode_stake_instruction(&StakeInstruction::SetPaused { paused: false });
    let accounts = vec![pool.clone(), key_only(authority(), true)];
    let out = staking::process_instruction(&program(), &accounts, &data, NOW).unwrap();
    let pool = with_data(&pool, out.pool_data.unwrap());
    assert!(do_stake(&stake_rec, &pool, &owner(), 5_000, 1_000, StakeTier::Basic, NOW).is_ok());
}

#[test]
fn only_the_authority_may_administer_the_pool() {
    let pool = init_pool(RewardPolicy::FixedAtStake);
    let data = encode_stake_instruction(&StakeInstruction::SetPaused { paused: true });
    let accounts = vec![pool.clone(), key_only(id(55), true)];
    assert_eq!(
        staking::process_instruction(&program(), &accounts, &data, NOW),
        Err(CoreError::NotAuthority),
    );
}

#[test]
fn rate_updates_must_not_decrease_across_classes() {
    let pool = init_pool(RewardPolicy::Continuous);
    let bad = encode_stake_instruction(&StakeInstruction::UpdateRates {
        basic: 2_000,
        pro: 1_500,
        elite: 3_000,
    });
    let accounts = vec![pool.clone(), key_only(authority(), true)];
    assert_eq!(
        staking::process_instruction(&program(), &accounts, &bad, NOW),
        Err(CoreError::InvalidRates),
    );

    let good = encode_stake_instruction(&StakeInstruction::UpdateRates {
        basic: 2_000,
        pro: 2_000,
        elite: 4_000,
    });
    let out = staking::process_instruction(&program(), &accounts, &good, NOW).unwrap();
    assert_eq!(out.event, StakeEvent::RatesUpdated { basic: 2_000, pro: 2_000, elite: 4_000 });
    let updated = decode_pool_config(&out.pool_data.unwrap()).unwrap();
    assert_eq!(updated.rate_basic, 2_000);
    assert_eq!(updated.rate_elite, 4_000);
}

#[test]
fn funding_the_reward_vault_emits_one_transfer() {
    let pool = init_pool(RewardPolicy::Continuous);
    let data = encode_stake_instruction(&StakeInstruction::FundRewards { amount: 500 });
    let accounts = vec![
        token_record(id(21), &mint(), &authority(), 10_000),
        key_only(authority(), true),
        key_only(reward_vault_key(), false),
        pool.clone(),
        key_only(token_program_id(), false),
    ];
    let out = staking::process_instruction(&program(), &accounts, &data, NOW).unwrap();
    assert!(out.pool_data.is_none());
    let transfer = out.transfer.unwrap();
    assert_eq!(transfer.amount, 500);
    assert_eq!(transfer.source.bytes, id(21).bytes);
    assert_eq!(transfer.destination.bytes, reward_vault_key().bytes);

    let zero = encode_stake_instruction(&StakeInstruction::FundRewards { amount: 0 });
    assert_eq!(
        staking::process_instruction(&program(), &accounts, &zero, NOW),
        Err(CoreError::ZeroAmount),
    );
}
