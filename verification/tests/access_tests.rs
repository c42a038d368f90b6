use dregan::access::{self, AccessEvent, AccessOutcome};
use dregan::codec::{
    decode_access_account, encode_access_account, encode_access_instruction, ACCESS_ACCOUNT_LEN,
    ACCESS_CONFIG_LEN,
};
use dregan::errors::CoreError;
use dregan::ids::Identity;
use dregan::records::{AccessAccount, AccessInstruction, RecordRef};
use dregan::tier::AccessTier;
use solana_program::program_option::COption;
use solana_program::program_pack::Pack;
use solana_program::pubkey::Pubkey;

const NOW: u64 = 2_000_000;

fn id(n: u8) -> Identity {
    Identity { bytes: [n; 32] }
}

fn pk(i: &Identity) -> Pubkey {
    Pubkey::new_from_array(i.bytes)
}

fn from_pk(p: Pubkey) -> Identity {
    Identity { bytes: p.to_bytes() }
}

fn program() -> Identity {
    id(101)
}

fn token_program_id() -> Identity {
    from_pk(spl_token::id())
}

fn authority() -> Identity {
    id(11)
}

fn mint() -> Identity {
    id(12)
}

fn owner() -> Identity {
    id(42)
}

fn key_only(key: Identity, is_signer: bool) -> RecordRef {
    RecordRef { key, owner_program: id(0), is_signer, data: Vec::new() }
}

fn token_record(key: Identity, mint: &Identity, owner: &Identity, amount: u64) -> RecordRef {
    let account = spl_token::state::Account {
        mint: pk(mint),
        owner: pk(owner),
        amount,
        delegate: COption::None,
        state: spl_token::state::AccountState::Initialized,
        is_native: COption::None,
        delegated_amount: 0,
        close_authority: COption::None,
    };
    let mut data = vec![0u8; 165];
    spl_token::state::Account::pack(account, &mut data).unwrap();
    RecordRef { key, owner_program: token_program_id(), is_signer: false, data }
}

fn access_pda(owner: &Identity) -> (Identity, u8) {
    let (k, b) = Pubkey::find_program_address(&[b"access", &owner.bytes], &pk(&program()));
    (from_pk(k), b)
}

fn init_config() -> RecordRef {
    let accounts = vec![
        RecordRef {
            key: id(10),
            owner_program: program(),
            is_signer: false,
            data: vec![0u8; ACCESS_CONFIG_LEN],
        },
        key_only(authority(), true),
        key_only(mint(), false),
    ];
    let out = access::initialize_config(&program(), &accounts, 3).unwrap();
    RecordRef {
        key: id(10),
        owner_program: program(),
        is_signer: false,
        data: out.config_data.unwrap(),
    }
}

fn init_access(owner: &Identity) -> RecordRef {
    let (pda, bump) = access_pda(owner);
    let accounts = vec![
        RecordRef {
            key: pda,
            owner_program: program(),
            is_signer: false,
            data: vec![0u8; ACCESS_ACCOUNT_LEN],
        },
        key_only(*owner, true),
    ];
    let out = access::initialize_access(&program(), &accounts, bump).unwrap();
    RecordRef {
        key: pda,
        owner_program: program(),
        is_signer: false,
        data: out.access_data.unwrap(),
    }
}

fn with_data(rec: &RecordRef, data: Vec<u8>) -> RecordRef {
    RecordRef { key: rec.key, owner_program: rec.owner_program, is_signer: rec.is_signer, data }
}

fn do_verify(
    access_rec: &RecordRef,
    config_rec: &RecordRef,
    owner: &Identity,
    token: RecordRef,
    now: u64,
) -> Result<AccessOutcome, CoreError> {
    let data = encode_access_instruction(&AccessInstruction::VerifyAccess);
    let accounts = vec![access_rec.clone(), key_only(*owner, true), token, config_rec.clone()];
    access::process_instruction(&program(), &accounts, &data, now)
}

#[test]
fn a_fresh_access_record_grants_no_tier() {
    let access_rec = init_access(&owner());
    let record = decode_access_account(&access_rec.data).unwrap();
    assert!(record.is_initialized);
    assert_eq!(record.current_tier, AccessTier::NoAccess);
    assert_eq!(record.last_verified_balance, 0);
    assert_eq!(record.owner.bytes, owner().bytes);
}

#[test]
fn verification_derives_the_tier_from_the_authoritative_balance() {
    let config = init_config();
    let access_rec = init_access(&owner());
    let token = token_record(id(20), &mint(), &owner(), 600_000_000);
    let out = do_verify(&access_rec, &config, &owner(), token, NOW).unwrap();
    assert_eq!(
        out.event,
        AccessEvent::Verified { balance: 600_000_000, tier: AccessTier::Pro, at: NOW },
    );
    let record = decode_access_account(&out.access_data.unwrap()).unwrap();
    assert_eq!(record.current_tier, AccessTier::Pro);
    assert_eq!(record.last_verified_balance, 600_000_000);
    assert_eq!(record.verification_timestamp, NOW);
}

#[test]
fn verifying_twice_with_an_unchanged_balance_changes_only_the_timestamp() {
    let config = init_config();
    let access_rec = init_access(&owner());
    let token = token_record(id(20), &mint(), &owner(), 150_000_000);
    let out = do_verify(&access_rec, &config, &owner(), token.clone(), NOW).unwrap();
    let first = decode_access_account(&out.access_data.clone().unwrap()).unwrap();

    let access_rec = with_data(&access_rec, out.access_data.unwrap());
    let out = do_verify(&access_rec, &config, &owner(), token, NOW + 500).unwrap();
    let second = decode_access_account(&out.access_data.unwrap()).unwrap();

    assert_eq!(second.current_tier, first.current_tier);
    assert_eq!(second.last_verified_balance, first.last_verified_balance);
    assert_eq!(first.verification_timestamp, NOW);
    assert_eq!(second.verification_timestamp, NOW + 500);
}

#[test]
fn a_spoofed_tier_claim_is_overwritten_by_the_authoritative_read() {
    let config = init_config();
    let access_rec = init_access(&owner());
    // A record doctored to claim the highest tier on a large balance.
    let spoofed = AccessAccount {
        is_initialized: true,
        owner: owner(),
        current_tier: AccessTier::Elite,
        last_verified_balance: 2_000_000_000,
        verification_timestamp: NOW - 1,
        bump: access_pda(&owner()).1,
    };
    let access_rec = with_data(&access_rec, encode_access_account(&spoofed));
    // The authoritative balance is far below every threshold.
    let token = token_record(id(20), &mint(), &owner(), 50);
    let out = do_verify(&access_rec, &config, &owner(), token, NOW).unwrap();
    let record = decode_access_account(&out.access_data.unwrap()).unwrap();
    assert_eq!(record.current_tier, AccessTier::NoAccess);
    assert_eq!(record.last_verified_balance, 50);
}

#[test]
fn check_tier_projects_the_stored_record_without_mutation() {
    let config = init_config();
    let access_rec = init_access(&owner());
    let token = token_record(id(20), &mint(), &owner(), 1_500_000_000);
    let out = do_verify(&access_rec, &config, &owner(), token, NOW).unwrap();
    let access_rec = with_data(&access_rec, out.access_data.unwrap());

    let data = encode_access_instruction(&AccessInstruction::CheckTier);
    let out = access::process_instruction(&program(), &vec![access_rec], &data, NOW + 10).unwrap();
    assert!(out.access_data.is_none());
    assert!(out.config_data.is_none());
    assert_eq!(
        out.event,
        AccessEvent::TierChecked {
            tier: AccessTier::Elite,
            balance: 1_500_000_000,
            verified_at: NOW,
        },
    );
}

#[test]
fn every_gate_of_the_verification_rejects() {
    let config = init_config();
    let access_rec = init_access(&owner());

    // Not signed.
    let data = encode_access_instruction(&AccessInstruction::VerifyAccess);
    let token = token_record(id(20), &mint(), &owner(), 100);
    let accounts = vec![
        access_rec.clone(),
        key_only(owner(), false),
        token.clone(),
        config.clone(),
    ];
    assert_eq!(
        access::process_instruction(&program(), &accounts, &data, NOW),
        Err(CoreError::MissingRequiredSignature),
    );

    // The access record belongs to another program.
    let mut wrong = access_rec.clone();
    wrong.owner_program = id(99);
    assert_eq!(
        do_verify(&wrong, &config, &owner(), token.clone(), NOW),
        Err(CoreError::WrongRecordOwner),
    );

    // Another caller's record.
    let impostor = id(55);
    let accounts = vec![
        access_rec.clone(),
        key_only(impostor, true),
        token_record(id(20), &mint(), &impostor, 100),
        config.clone(),
    ];
    assert_eq!(
        access::process_instruction(&program(), &accounts, &data, NOW),
        Err(CoreError::OwnerMismatch),
    );

    // A balance record not owned by the token program.
    let mut fake = token.clone();
    fake.owner_program = id(66);
    assert_eq!(
        do_verify(&access_rec, &config, &owner(), fake, NOW),
        Err(CoreError::IncorrectTokenProgram),
    );

    // A balance record of another holder.
    let other = token_record(id(20), &mint(), &id(55), 100);
    assert_eq!(
        do_verify(&access_rec, &config, &owner(), other, NOW),
        Err(CoreError::TokenOwnerMismatch),
    );

    // A balance record in another asset.
    let wrong_mint = token_record(id(20), &id(88), &owner(), 100);
    assert_eq!(
        do_verify(&access_rec, &config, &owner(), wrong_mint, NOW),
        Err(CoreError::WrongMint),
    );

    // A corrupt balance record.
    let mut corrupt = token.clone();
    corrupt.data[108] = 0; // uninitialized state byte
    assert_eq!(
        do_verify(&access_rec, &config, &owner(), corrupt, NOW),
        Err(CoreError::InvalidRecordData),
    );

    // Too few records.
    assert_eq!(
        access::process_instruction(&program(), &vec![], &data, NOW),
        Err(CoreError::NotEnoughRecords),
    );
}

#[test]
fn uninitialized_records_are_rejected() {
    let config = init_config();
    let blank = RecordRef {
        key: access_pda(&owner()).0,
        owner_program: program(),
        is_signer: false,
        data: vec![0u8; ACCESS_ACCOUNT_LEN],
    };
    let token = token_record(id(20), &mint(), &owner(), 100);
    assert_eq!(
        do_verify(&blank, &config, &owner(), token, NOW),
        Err(CoreError::UninitializedRecord),
    );

    let data = encode_access_instruction(&AccessInstruction::CheckTier);
    assert_eq!(
        access::process_instruction(&program(), &vec![blank], &data, NOW),
        Err(CoreError::UninitializedRecord),
    );
}

#[test]
fn initializing_an_access_record_twice_is_rejected() {
    let access_rec = init_access(&owner());
    let (_, bump) = access_pda(&owner());
    let accounts = vec![access_rec, key_only(owner(), true)];
    assert_eq!(
        access::initialize_access(&program(), &accounts, bump),
        Err(CoreError::AlreadyInitialized),
    );
}

#[test]
fn an_access_record_off_its_canonical_address_is_rejected() {
    let (_, bump) = access_pda(&owner());
    let accounts = vec![
        RecordRef {
            key: id(77),
            owner_program: program(),
            is_signer: false,
            data: vec![0u8; ACCESS_ACCOUNT_LEN],
        },
        key_only(owner(), true),
    ];
    assert_eq!(
        access::initialize_access(&program(), &accounts, bump),
        Err(CoreError::InvalidSeeds),
    );
}

#[test]
fn initializing_the_config_twice_is_rejected() {
    let config = init_config();
    let accounts = vec![config, key_only(authority(), true), key_only(mint(), false)];
    assert_eq!(
        access::initialize_config(&program(), &accounts, 3),
        Err(CoreError::AlreadyInitialized),
    );
}
