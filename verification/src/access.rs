//! The access verification flow: a per-owner record whose tier is always
//! re-derived from an authoritative balance read — never from a number a
//! caller supplies — plus its configuration and a read-only projection.

use vstd::prelude::*;

use crate::codec::{
    decode_access_account, decode_access_config, decode_access_instruction, encode_access_account,
    encode_access_config, spec_access_account_bytes, spec_access_config_bytes,
    spec_decode_access_account, spec_decode_access_config, spec_decode_access_instruction,
};
use crate::errors::CoreError;
use crate::ids::{identity_eq, Identity};
use crate::ledger::{is_token_program, spec_is_token_program_id, spec_unpack_token,
    unpack_token_account};
use crate::records::{
    views_of, AccessAccount, AccessConfig, AccessConfigView, AccessInstruction, AccessView,
    RecordRef, RecordView,
};
use crate::tier::{spec_classify, AccessTier};
use crate::validate::{
    access_seed, check_canonical, owned_by_program, spec_access_seed, spec_canonical_ok,
};

verus! {

/// What an access operation did, for the host to index and notify on.
#[derive(Clone, Copy, Debug, PartialEq, Eq, Structural)]
pub enum AccessEvent {
    ConfigInitialized,
    AccessRecordInitialized,
    Verified { balance: u64, tier: AccessTier, at: u64 },
    TierChecked { tier: AccessTier, balance: u64, verified_at: u64 },
}

/// The committed effects of an access operation: the new bytes of the
/// access and configuration records (where mutated) and an event.  The
/// access flow never transfers balances.
#[derive(Clone, Debug, PartialEq, Eq)]
pub struct AccessOutcome {
    pub access_data: Option<Vec<u8>>,
    pub config_data: Option<Vec<u8>>,
    pub event: AccessEvent,
}

/// Mathematical view of an access outcome.
#[verifier::ext_equal]
pub struct AccessOutcomeView {
    pub access_data: Option<Seq<u8>>,
    pub config_data: Option<Seq<u8>>,
    pub event: AccessEvent,
}

impl View for AccessOutcome {
    type V = AccessOutcomeView;

    open spec fn view(&self) -> AccessOutcomeView {
        AccessOutcomeView {
            access_data: match self.access_data {
                Some(d) => Some(d@),
                None => None,
            },
            config_data: match self.config_data {
                Some(d) => Some(d@),
                None => None,
            },
            event: self.event,
        }
    }
}

// ---------------------------------------------------------------------------
// initialize the configuration

/// What initializing the configuration does.  Records: `[config_account,
/// authority, token_mint]`.  The authority must sign and the record must
/// belong to the program and not be initialized yet.
pub open spec fn spec_initialize_config(
    program: Seq<u8>,
    accs: Seq<RecordView>,
    bump: u8,
) -> Result<AccessOutcomeView, CoreError> {
    if accs.len() < 3 {
        Err(CoreError::NotEnoughRecords)
    } else {
        let config_rec = accs[0];
        let authority = accs[1];
        let token_mint = accs[2];
        if !authority.is_signer {
            Err(CoreError::MissingRequiredSignature)
        } else if config_rec.owner_program != program {
            Err(CoreError::WrongRecordOwner)
        } else {
            match spec_decode_access_config(config_rec.data) {
                Option::None => Err(CoreError::InvalidRecordData),
                Option::Some(cfg) => {
                    if cfg.is_initialized {
                        Err(CoreError::AlreadyInitialized)
                    } else {
                        let new_cfg = AccessConfigView {
                            is_initialized: true,
                            authority: authority.key,
                            token_mint: token_mint.key,
                            bump,
                        };
                        Ok(
                            AccessOutcomeView {
                                access_data: Option::None,
                                config_data: Option::Some(spec_access_config_bytes(new_cfg)),
                                event: AccessEvent::ConfigInitialized,
                            },
                        )
                    }
                },
            }
        }
    }
}

/// Create the access configuration.
pub fn initialize_config(program_id: &Identity, accounts: &Vec<RecordRef>, bump: u8) -> (r: Result<
    AccessOutcome,
    CoreError,
>)
    ensures
        match r {
            Ok(out) => spec_initialize_config(program_id@, views_of(accounts@), bump)
                == Result::<AccessOutcomeView, CoreError>::Ok(out@),
            Err(e) => spec_initialize_config(program_id@, views_of(accounts@), bump)
                == Result::<AccessOutcomeView, CoreError>::Err(e),
        },
{
    if accounts.len() < 3 {
        return Err(CoreError::NotEnoughRecords);
    }
    let config_rec = &accounts[0];
    let authority = &accounts[1];
    let token_mint = &accounts[2];
    if !authority.is_signer {
        return Err(CoreError::MissingRequiredSignature);
    }
    if !owned_by_program(config_rec, program_id) {
        return Err(CoreError::WrongRecordOwner);
    }
    let existing = match decode_access_config(&config_rec.data) {
        Option::Some(cfg) => cfg,
        Option::None => {
            return Err(CoreError::InvalidRecordData);
        },
    };
    if existing.is_initialized {
        return Err(CoreError::AlreadyInitialized);
    }
    let new_cfg = AccessConfig {
        is_initialized: true,
        authority: authority.key,
        token_mint: token_mint.key,
        bump,
    };
    let out = AccessOutcome {
        access_data: Option::None,
        config_data: Option::Some(encode_access_config(&new_cfg)),
        event: AccessEvent::ConfigInitialized,
    };
    proof {
        let s = spec_initialize_config(program_id@, views_of(accounts@), bump);
        assert(s matches Ok(o) && o =~~= out@);
    }
    Ok(out)
}

// ---------------------------------------------------------------------------
// initialize an access record

/// What initializing an access record does.  Records: `[access_account,
/// owner]`.  The owner must sign; the record must belong to the program,
/// sit at the canonical address derived from `("access", owner)` with the
/// given bump, and not be initialized yet.  The fresh record grants no
/// tier.
pub open spec fn spec_initialize_access(
    program: Seq<u8>,
    accs: Seq<RecordView>,
    bump: u8,
) -> Result<AccessOutcomeView, CoreError> {
    if accs.len() < 2 {
        Err(CoreError::NotEnoughRecords)
    } else {
        let access_rec = accs[0];
        let owner = accs[1];
        if !owner.is_signer {
            Err(CoreError::MissingRequiredSignature)
        } else if access_rec.owner_program != program {
            Err(CoreError::WrongRecordOwner)
        } else if !spec_canonical_ok(access_rec.key, spec_access_seed(), owner.key, program, bump) {
            Err(CoreError::InvalidSeeds)
        } else {
            match spec_decode_access_account(access_rec.data) {
                Option::None => Err(CoreError::InvalidRecordData),
                Option::Some(ad) => {
                    if ad.is_initialized {
                        Err(CoreError::AlreadyInitialized)
                    } else {
                        let fresh = AccessView {
                            is_initialized: true,
                            owner: owner.key,
                            current_tier: AccessTier::NoAccess,
                            last_verified_balance: 0,
                            verification_timestamp: 0,
                            bump,
                        };
                        Ok(
                            AccessOutcomeView {
                                access_data: Option::Some(spec_access_account_bytes(fresh)),
                                config_data: Option::None,
                                event: AccessEvent::AccessRecordInitialized,
                            },
                        )
                    }
                },
            }
        }
    }
}

/// Create an owner's access record at its canonical address.
pub fn initialize_access(program_id: &Identity, accounts: &Vec<RecordRef>, bump: u8) -> (r: Result<
    AccessOutcome,
    CoreError,
>)
    ensures
        match r {
            Ok(out) => spec_initialize_access(program_id@, views_of(accounts@), bump)
                == Result::<AccessOutcomeView, CoreError>::Ok(out@),
            Err(e) => spec_initialize_access(program_id@, views_of(accounts@), bump)
                == Result::<AccessOutcomeView, CoreError>::Err(e),
        },
{
    if accounts.len() < 2 {
        return Err(CoreError::NotEnoughRecords);
    }
    let access_rec = &accounts[0];
    let owner = &accounts[1];
    if !owner.is_signer {
        return Err(CoreError::MissingRequiredSignature);
    }
    if !owned_by_program(access_rec, program_id) {
        return Err(CoreError::WrongRecordOwner);
    }
    if !check_canonical(access_rec, access_seed(), &owner.key, program_id, bump) {
        return Err(CoreError::InvalidSeeds);
    }
    let existing = match decode_access_account(&access_rec.data) {
        Option::Some(ad) => ad,
        Option::None => {
            return Err(CoreError::InvalidRecordData);
        },
    };
    if existing.is_initialized {
        return Err(CoreError::AlreadyInitialized);
    }
    let fresh = AccessAccount {
        is_initialized: true,
        owner: owner.key,
        current_tier: AccessTier::NoAccess,
        last_verified_balance: 0,
        verification_timestamp: 0,
        bump,
    };
    let out = AccessOutcome {
        access_data: Option::Some(encode_access_account(&fresh)),
        config_data: Option::None,
        event: AccessEvent::AccessRecordInitialized,
    };
    proof {
        let s = spec_initialize_access(program_id@, views_of(accounts@), bump);
        assert(s matches Ok(o) && o =~~= out@);
    }
    Ok(out)
}

// ---------------------------------------------------------------------------
// verify

/// What verification does.  Records: `[access_account, owner,
/// user_token_account, config_account]`.  After validation (owner signed,
/// access and configuration records owned by the program and initialized,
/// access record owned by the caller, the balance record owned by the
/// token program, belonging to the caller and denominated in the
/// configured asset), the tier is re-derived from the balance read out of
/// the authoritative record — a caller-supplied number plays no part — and
/// the record stores that tier, that balance and the time of verification.
pub open spec fn spec_verify_access(program: Seq<u8>, accs: Seq<RecordView>, now: u64) -> Result<
    AccessOutcomeView,
    CoreError,
> {
    if accs.len() < 4 {
        Err(CoreError::NotEnoughRecords)
    } else {
        let access_rec = accs[0];
        let owner = accs[1];
        let user_token = accs[2];
        let config_rec = accs[3];
        if !owner.is_signer {
            Err(CoreError::MissingRequiredSignature)
        } else if access_rec.owner_program != program || config_rec.owner_program != program {
            Err(CoreError::WrongRecordOwner)
        } else {
            match (spec_decode_access_account(access_rec.data), spec_decode_access_config(
                config_rec.data,
            )) {
                (Option::Some(ad), Option::Some(cfg)) => {
                    if !ad.is_initialized || !cfg.is_initialized {
                        Err(CoreError::UninitializedRecord)
                    } else if ad.owner != owner.key {
                        Err(CoreError::OwnerMismatch)
                    } else if !spec_is_token_program_id(user_token.owner_program) {
                        Err(CoreError::IncorrectTokenProgram)
                    } else {
                        match spec_unpack_token(user_token.data) {
                            Option::None => Err(CoreError::InvalidRecordData),
                            Option::Some(tok) => {
                                if tok.owner != owner.key {
                                    Err(CoreError::TokenOwnerMismatch)
                                } else if tok.mint != cfg.token_mint {
                                    Err(CoreError::WrongMint)
                                } else {
                                    let new_access = AccessView {
                                        current_tier: spec_classify(tok.amount),
                                        last_verified_balance: tok.amount,
                                        verification_timestamp: now,
                                        ..ad
                                    };
                                    Ok(
                                        AccessOutcomeView {
                                            access_data: Option::Some(
                                                spec_access_account_bytes(new_access),
                                            ),
                                            config_data: Option::None,
                                            event: AccessEvent::Verified {
                                                balance: tok.amount,
                                                tier: spec_classify(tok.amount),
                                                at: now,
                                            },
                                        },
                                    )
                                }
                            },
                        }
                    }
                },
                _ => Err(CoreError::InvalidRecordData),
            }
        }
    }
}

/// Re-derive the caller's tier from a fresh authoritative balance read and
/// stamp the verification time.
pub fn verify_access(program_id: &Identity, accounts: &Vec<RecordRef>, now: u64) -> (r: Result<
    AccessOutcome,
    CoreError,
>)
    ensures
        match r {
            Ok(out) => spec_verify_access(program_id@, views_of(accounts@), now)
                == Result::<AccessOutcomeView, CoreError>::Ok(out@),
            Err(e) => spec_verify_access(program_id@, views_of(accounts@), now)
                == Result::<AccessOutcomeView, CoreError>::Err(e),
        },
{
    if accounts.len() < 4 {
        return Err(CoreError::NotEnoughRecords);
    }
    let access_rec = &accounts[0];
    let owner = &accounts[1];
    let user_token = &accounts[2];
    let config_rec = &accounts[3];
    if !owner.is_signer {
        return Err(CoreError::MissingRequiredSignature);
    }
    if !owned_by_program(access_rec, program_id) || !owned_by_program(config_rec, program_id) {
        return Err(CoreError::WrongRecordOwner);
    }
    let ad = match decode_access_account(&access_rec.data) {
        Option::Some(ad) => ad,
        Option::None => {
            return Err(CoreError::InvalidRecordData);
        },
    };
    let cfg = match decode_access_config(&config_rec.data) {
        Option::Some(cfg) => cfg,
        Option::None => {
            return Err(CoreError::InvalidRecordData);
        },
    };
    if !ad.is_initialized || !cfg.is_initialized {
        return Err(CoreError::UninitializedRecord);
    }
    if !identity_eq(&ad.owner, &owner.key) {
        return Err(CoreError::OwnerMismatch);
    }
    if !is_token_program(&user_token.owner_program) {
        return Err(CoreError::IncorrectTokenProgram);
    }
    let tok = match unpack_token_account(&user_token.data) {
        Ok(t) => t,
        Err(e) => {
            return Err(e);
        },
    };
    if !identity_eq(&tok.owner, &owner.key) {
        return Err(CoreError::TokenOwnerMismatch);
    }
    if !identity_eq(&tok.mint, &cfg.token_mint) {
        return Err(CoreError::WrongMint);
    }
    let tier = AccessTier::from_balance(tok.amount);
    let new_access = AccessAccount {
        current_tier: tier,
        last_verified_balance: tok.amount,
        verification_timestamp: now,
        ..ad
    };
    let out = AccessOutcome {
        access_data: Option::Some(encode_access_account(&new_access)),
        config_data: Option::None,
        event: AccessEvent::Verified { balance: tok.amount, tier, at: now },
    };
    proof {
        let s = spec_verify_access(program_id@, views_of(accounts@), now);
        assert(new_access@ =~= AccessView {
            current_tier: spec_classify(tok@.amount),
            last_verified_balance: tok@.amount,
            verification_timestamp: now,
            ..ad@
        });
        assert(s matches Ok(o) && o =~~= out@);
    }
    Ok(out)
}

// ---------------------------------------------------------------------------
// read-only projection

/// What the read-only check does.  Records: `[access_account]`.  Nothing
/// changes; the event projects the stored tier, the balance that produced
/// it and when it was verified.  Callers with a freshness policy compare
/// the timestamp themselves; tiers never auto-expire.
pub open spec fn spec_check_tier(program: Seq<u8>, accs: Seq<RecordView>) -> Result<
    AccessOutcomeView,
    CoreError,
> {
    if accs.len() < 1 {
        Err(CoreError::NotEnoughRecords)
    } else {
        let access_rec = accs[0];
        if access_rec.owner_program != program {
            Err(CoreError::WrongRecordOwner)
        } else {
            match spec_decode_access_account(access_rec.data) {
                Option::None => Err(CoreError::InvalidRecordData),
                Option::Some(ad) => {
                    if !ad.is_initialized {
                        Err(CoreError::UninitializedRecord)
                    } else {
                        Ok(
                            AccessOutcomeView {
                                access_data: Option::None,
                                config_data: Option::None,
                                event: AccessEvent::TierChecked {
                                    tier: ad.current_tier,
                                    balance: ad.last_verified_balance,
                                    verified_at: ad.verification_timestamp,
                                },
                            },
                        )
                    }
                },
            }
        }
    }
}

/// Project the stored tier without mutating anything.
pub fn check_tier(program_id: &Identity, accounts: &Vec<RecordRef>) -> (r: Result<
    AccessOutcome,
    CoreError,
>)
    ensures
        match r {
            Ok(out) => spec_check_tier(program_id@, views_of(accounts@))
                == Result::<AccessOutcomeView, CoreError>::Ok(out@),
            Err(e) => spec_check_tier(program_id@, views_of(accounts@))
                == Result::<AccessOutcomeView, CoreError>::Err(e),
        },
{
    if accounts.len() < 1 {
        return Err(CoreError::NotEnoughRecords);
    }
    let access_rec = &accounts[0];
    if !owned_by_program(access_rec, program_id) {
        return Err(CoreError::WrongRecordOwner);
    }
    let ad = match decode_access_account(&access_rec.data) {
        Option::Some(ad) => ad,
        Option::None => {
            return Err(CoreError::InvalidRecordData);
        },
    };
    if !ad.is_initialized {
        return Err(CoreError::UninitializedRecord);
    }
    let out = AccessOutcome {
        access_data: Option::None,
        config_data: Option::None,
        event: AccessEvent::TierChecked {
            tier: ad.current_tier,
            balance: ad.last_verified_balance,
            verified_at: ad.verification_timestamp,
        },
    };
    proof {
        let s = spec_check_tier(program_id@, views_of(accounts@));
        assert(s matches Ok(o) && o =~~= out@);
    }
    Ok(out)
}

// ---------------------------------------------------------------------------
// instruction dispatch

/// What the access entry point does: decode the instruction payload, then
/// run the operation it selects on the given record snapshots at time
/// `now`.
pub open spec fn spec_access_process(
    program: Seq<u8>,
    accs: Seq<RecordView>,
    data: Seq<u8>,
    now: u64,
) -> Result<AccessOutcomeView, CoreError> {
    match spec_decode_access_instruction(data) {
        Option::None => Err(CoreError::InvalidInstructionData),
        Option::Some(ins) => match ins {
            AccessInstruction::InitializeConfig { bump } => spec_initialize_config(
                program,
                accs,
                bump,
            ),
            AccessInstruction::InitializeAccess { bump } => spec_initialize_access(
                program,
                accs,
                bump,
            ),
            AccessInstruction::VerifyAccess => spec_verify_access(program, accs, now),
            AccessInstruction::CheckTier => spec_check_tier(program, accs),
        },
    }
}

/// The access entry point: decode the instruction payload and dispatch.
/// `now` is the host clock's reading for this invocation.
pub fn process_instruction(
    program_id: &Identity,
    accounts: &Vec<RecordRef>,
    instruction_data: &Vec<u8>,
    now: u64,
) -> (r: Result<AccessOutcome, CoreError>)
    ensures
        match r {
            Ok(out) => spec_access_process(program_id@, views_of(accounts@), instruction_data@,
                now) == Result::<AccessOutcomeView, CoreError>::Ok(out@),
            Err(e) => spec_access_process(program_id@, views_of(accounts@), instruction_data@, now)
                == Result::<AccessOutcomeView, CoreError>::Err(e),
        },
{
    let ins = match decode_access_instruction(instruction_data) {
        Option::Some(ins) => ins,
        Option::None => {
            return Err(CoreError::InvalidInstructionData);
        },
    };
    match ins {
        AccessInstruction::InitializeConfig { bump } => initialize_config(
            program_id,
            accounts,
            bump,
        ),
        AccessInstruction::InitializeAccess { bump } => initialize_access(
            program_id,
            accounts,
            bump,
        ),
        AccessInstruction::VerifyAccess => verify_access(program_id, accounts, now),
        AccessInstruction::CheckTier => check_tier(program_id, accounts),
    }
}

} // verus!