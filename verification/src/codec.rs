//! Byte layout of the records and instruction payloads: little-endian
//! integers, 32-byte identities, one-byte tags for booleans and enums,
//! concatenated in field order with no padding.  Decoding accepts exactly
//! the encodings: a wrong length or an unknown tag is rejected, never
//! repaired.

use vstd::prelude::*;

use vstd::bytes::{
    lemma_auto_spec_u64_to_from_le_bytes, spec_u64_from_le_bytes, spec_u64_to_le_bytes,
    u64_from_le_bytes, u64_to_le_bytes,
};
use vstd::slice::slice_subrange;

use crate::ids::{identity_from_bytes, Identity};
use crate::records::{
    AccessAccount, AccessConfig, AccessConfigView, AccessInstruction, AccessView, PoolConfig,
    PoolView, RewardPolicy, StakeAccount, StakeInstruction, StakeTier, StakeView,
};
use crate::tier::AccessTier;

verus! {

/// Encoded size of a staking position record.
pub const STAKE_ACCOUNT_LEN: usize = 75;

/// Encoded size of the pool registry record.
pub const POOL_CONFIG_LEN: usize = 180;

/// Encoded size of the access configuration record.
pub const ACCESS_CONFIG_LEN: usize = 66;

/// Encoded size of a per-owner access record.
pub const ACCESS_ACCOUNT_LEN: usize = 51;

// ---------------------------------------------------------------------------
// one-byte tags

/// A boolean encodes as one byte: 1 for true, 0 for false.
pub open spec fn spec_bool_byte(b: bool) -> u8 {
    if b {
        1u8
    } else {
        0u8
    }
}

/// Only 0 and 1 decode as booleans.
pub open spec fn spec_valid_bool_byte(x: u8) -> bool {
    x == 0 || x == 1
}

fn bool_byte(b: bool) -> (r: u8)
    ensures
        r == spec_bool_byte(b),
{
    if b {
        1
    } else {
        0
    }
}

/// Tag byte of a lock class.
pub open spec fn spec_stake_tier_tag(t: StakeTier) -> u8 {
    match t {
        StakeTier::Basic => 0u8,
        StakeTier::Pro => 1u8,
        StakeTier::Elite => 2u8,
    }
}

/// The lock class a valid tag byte stands for.
pub open spec fn spec_stake_tier_of_tag(x: u8) -> StakeTier {
    if x == 0 {
        StakeTier::Basic
    } else if x == 1 {
        StakeTier::Pro
    } else {
        StakeTier::Elite
    }
}

fn stake_tier_tag(t: StakeTier) -> (r: u8)
    ensures
        r == spec_stake_tier_tag(t),
{
    match t {
        StakeTier::Basic => 0,
        StakeTier::Pro => 1,
        StakeTier::Elite => 2,
    }
}

fn stake_tier_of_tag(x: u8) -> (r: StakeTier)
    requires
        x <= 2,
    ensures
        r == spec_stake_tier_of_tag(x),
{
    if x == 0 {
        StakeTier::Basic
    } else if x == 1 {
        StakeTier::Pro
    } else {
        StakeTier::Elite
    }
}

/// Tag byte of an access tier.
pub open spec fn spec_access_tier_tag(t: AccessTier) -> u8 {
    match t {
        AccessTier::NoAccess => 0u8,
        AccessTier::Basic => 1u8,
        AccessTier::Pro => 2u8,
        AccessTier::Elite => 3u8,
    }
}

/// The access tier a valid tag byte stands for.
pub open spec fn spec_access_tier_of_tag(x: u8) -> AccessTier {
    if x == 0 {
        AccessTier::NoAccess
    } else if x == 1 {
        AccessTier::Basic
    } else if x == 2 {
        AccessTier::Pro
    } else {
        AccessTier::Elite
    }
}

fn access_tier_tag(t: AccessTier) -> (r: u8)
    ensures
        r == spec_access_tier_tag(t),
{
    match t {
        AccessTier::NoAccess => 0,
        AccessTier::Basic => 1,
        AccessTier::Pro => 2,
        AccessTier::Elite => 3,
    }
}

fn access_tier_of_tag(x: u8) -> (r: AccessTier)
    requires
        x <= 3,
    ensures
        r == spec_access_tier_of_tag(x),
{
    if x == 0 {
        AccessTier::NoAccess
    } else if x == 1 {
        AccessTier::Basic
    } else if x == 2 {
        AccessTier::Pro
    } else {
        AccessTier::Elite
    }
}

/// Tag byte of an accrual policy.
pub open spec fn spec_policy_tag(p: RewardPolicy) -> u8 {
    match p {
        RewardPolicy::FixedAtStake => 0u8,
        RewardPolicy::Continuous => 1u8,
    }
}

/// The accrual policy a valid tag byte stands for.
pub open spec fn spec_policy_of_tag(x: u8) -> RewardPolicy {
    if x == 0 {
        RewardPolicy::FixedAtStake
    } else {
        RewardPolicy::Continuous
    }
}

fn policy_tag(p: RewardPolicy) -> (r: u8)
    ensures
        r == spec_policy_tag(p),
{
    match p {
        RewardPolicy::FixedAtStake => 0,
        RewardPolicy::Continuous => 1,
    }
}

fn policy_of_tag(x: u8) -> (r: RewardPolicy)
    requires
        x <= 1,
    ensures
        r == spec_policy_of_tag(x),
{
    if x == 0 {
        RewardPolicy::FixedAtStake
    } else {
        RewardPolicy::Continuous
    }
}

// ---------------------------------------------------------------------------
// primitive readers and writers

/// Append a little-endian 64-bit integer.
fn push_u64(out: &mut Vec<u8>, v: u64)
    ensures
        final(out)@ == old(out)@ + spec_u64_to_le_bytes(v),
{
    let mut b = u64_to_le_bytes(v);
    out.append(&mut b);
}

/// Append an identity's 32 bytes.
fn push_identity(out: &mut Vec<u8>, id: &Identity)
    ensures
        final(out)@ == old(out)@ + id@,
{
    let mut i: usize = 0;
    while i < 32
        invariant
            0 <= i <= 32,
            out@ =~= old(out)@ + id@.subrange(0, i as int),
        decreases 32 - i,
    {
        out.push(id.bytes[i]);
        i += 1;
    }
    proof {
        assert(out@ =~= old(out)@ + id@);
    }
}

/// Read a little-endian 64-bit integer at `off`.
fn read_u64(data: &Vec<u8>, off: usize) -> (r: u64)
    requires
        off + 8 <= data.len(),
    ensures
        r == spec_u64_from_le_bytes(data@.subrange(off as int, off + 8)),
{
    u64_from_le_bytes(slice_subrange(data.as_slice(), off, off + 8))
}

// ---------------------------------------------------------------------------
// staking position record

/// The bytes of a staking position record.
pub open spec fn spec_stake_account_bytes(s: StakeView) -> Seq<u8> {
    seq![spec_bool_byte(s.is_initialized)] + s.owner + spec_u64_to_le_bytes(s.amount) + seq![
        spec_stake_tier_tag(s.tier),
    ] + spec_u64_to_le_bytes(s.stake_timestamp) + spec_u64_to_le_bytes(s.unlock_timestamp)
        + spec_u64_to_le_bytes(s.frozen_reward) + spec_u64_to_le_bytes(s.claimed_rewards) + seq![
        s.bump,
    ]
}

/// What a buffer decodes to as a staking position record, if anything.
pub open spec fn spec_decode_stake_account(b: Seq<u8>) -> Option<StakeView> {
    if b.len() == STAKE_ACCOUNT_LEN && spec_valid_bool_byte(b[0]) && b[41] <= 2 {
        Some(
            StakeView {
                is_initialized: b[0] == 1,
                owner: b.subrange(1, 33),
                amount: spec_u64_from_le_bytes(b.subrange(33, 41)),
                tier: spec_stake_tier_of_tag(b[41]),
                stake_timestamp: spec_u64_from_le_bytes(b.subrange(42, 50)),
                unlock_timestamp: spec_u64_from_le_bytes(b.subrange(50, 58)),
                frozen_reward: spec_u64_from_le_bytes(b.subrange(58, 66)),
                claimed_rewards: spec_u64_from_le_bytes(b.subrange(66, 74)),
                bump: b[74],
            },
        )
    } else {
        None
    }
}

/// Encode a staking position record.
pub fn encode_stake_account(s: &StakeAccount) -> (out: Vec<u8>)
    ensures
        out@ == spec_stake_account_bytes(s@),
{
    let mut out: Vec<u8> = Vec::new();
    out.push(bool_byte(s.is_initialized));
    push_identity(&mut out, &s.owner);
    push_u64(&mut out, s.amount);
    out.push(stake_tier_tag(s.tier));
    push_u64(&mut out, s.stake_timestamp);
    push_u64(&mut out, s.unlock_timestamp);
    push_u64(&mut out, s.frozen_reward);
    push_u64(&mut out, s.claimed_rewards);
    out.push(s.bump);
    proof {
        assert(out@ =~= spec_stake_account_bytes(s@));
    }
    out
}

/// Decode a staking position record; `None` for a wrong length or tag.
pub fn decode_stake_account(data: &Vec<u8>) -> (r: Option<StakeAccount>)
    ensures
        match r {
            Some(s) => spec_decode_stake_account(data@) == Some(s@),
            None => spec_decode_stake_account(data@) is None,
        },
{
    if data.len() != STAKE_ACCOUNT_LEN {
        return None;
    }
    let init_byte = data[0];
    if init_byte > 1 {
        return None;
    }
    let tier_byte = data[41];
    if tier_byte > 2 {
        return None;
    }
    let s = StakeAccount {
        is_initialized: init_byte == 1,
        owner: identity_from_bytes(data, 1),
        amount: read_u64(data, 33),
        tier: stake_tier_of_tag(tier_byte),
        stake_timestamp: read_u64(data, 42),
        unlock_timestamp: read_u64(data, 50),
        frozen_reward: read_u64(data, 58),
        claimed_rewards: read_u64(data, 66),
        bump: data[74],
    };
    proof {
        assert(spec_decode_stake_account(data@) == Some(s@)) by {
            assert(s@ =~= spec_decode_stake_account(data@)->Some_0);
        }
    }
    Some(s)
}

/// A staking position view the codec can represent: its owner is a 32-byte
/// identity.
pub open spec fn spec_stake_view_wf(s: StakeView) -> bool {
    s.owner.len() == 32
}

/// Encoding then decoding a staking position record gives it back unchanged.
pub proof fn lemma_stake_account_round_trip(s: StakeView)
    requires
        spec_stake_view_wf(s),
    ensures
        spec_decode_stake_account(spec_stake_account_bytes(s)) == Some(s),
{
    lemma_auto_spec_u64_to_from_le_bytes();
    let b = spec_stake_account_bytes(s);
    assert(b.len() == STAKE_ACCOUNT_LEN);
    assert(b.subrange(1, 33) =~= s.owner);
    assert(b.subrange(33, 41) =~= spec_u64_to_le_bytes(s.amount));
    assert(b.subrange(42, 50) =~= spec_u64_to_le_bytes(s.stake_timestamp));
    assert(b.subrange(50, 58) =~= spec_u64_to_le_bytes(s.unlock_timestamp));
    assert(b.subrange(58, 66) =~= spec_u64_to_le_bytes(s.frozen_reward));
    assert(b.subrange(66, 74) =~= spec_u64_to_le_bytes(s.claimed_rewards));
    assert(spec_decode_stake_account(b)->Some_0 =~= s);
}

// ---------------------------------------------------------------------------
// pool registry record

/// The bytes of the pool registry record.
pub open spec fn spec_pool_config_bytes(p: PoolView) -> Seq<u8> {
    seq![spec_bool_byte(p.is_initialized)] + p.authority + p.token_mint + p.stake_vault
        + p.reward_vault + seq![spec_bool_byte(p.is_paused), spec_policy_tag(p.reward_policy)]
        + spec_u64_to_le_bytes(p.rate_basic) + spec_u64_to_le_bytes(p.rate_pro)
        + spec_u64_to_le_bytes(p.rate_elite) + spec_u64_to_le_bytes(p.total_staked)
        + spec_u64_to_le_bytes(p.total_positions) + spec_u64_to_le_bytes(
        p.total_rewards_distributed,
    ) + seq![p.bump]
}

/// What a buffer decodes to as the pool registry record, if anything.
pub open spec fn spec_decode_pool_config(b: Seq<u8>) -> Option<PoolView> {
    if b.len() == POOL_CONFIG_LEN && spec_valid_bool_byte(b[0]) && spec_valid_bool_byte(b[129])
        && b[130] <= 1 {
        Some(
            PoolView {
                is_initialized: b[0] == 1,
                authority: b.subrange(1, 33),
                token_mint: b.subrange(33, 65),
                stake_vault: b.subrange(65, 97),
                reward_vault: b.subrange(97, 129),
                is_paused: b[129] == 1,
                reward_policy: spec_policy_of_tag(b[130]),
                rate_basic: spec_u64_from_le_bytes(b.subrange(131, 139)),
                rate_pro: spec_u64_from_le_bytes(b.subrange(139, 147)),
                rate_elite: spec_u64_from_le_bytes(b.subrange(147, 155)),
                total_staked: spec_u64_from_le_bytes(b.subrange(155, 163)),
                total_positions: spec_u64_from_le_bytes(b.subrange(163, 171)),
                total_rewards_distributed: spec_u64_from_le_bytes(b.subrange(171, 179)),
                bump: b[179],
            },
        )
    } else {
        None
    }
}

/// Encode the pool registry record.
pub fn encode_pool_config(p: &PoolConfig) -> (out: Vec<u8>)
    ensures
        out@ == spec_pool_config_bytes(p@),
{
    let mut out: Vec<u8> = Vec::new();
    out.push(bool_byte(p.is_initialized));
    push_identity(&mut out, &p.authority);
    push_identity(&mut out, &p.token_mint);
    push_identity(&mut out, &p.stake_vault);
    push_identity(&mut out, &p.reward_vault);
    out.push(bool_byte(p.is_paused));
    out.push(policy_tag(p.reward_policy));
    push_u64(&mut out, p.rate_basic);
    push_u64(&mut out, p.rate_pro);
    push_u64(&mut out, p.rate_elite);
    push_u64(&mut out, p.total_staked);
    push_u64(&mut out, p.total_positions);
    push_u64(&mut out, p.total_rewards_distributed);
    out.push(p.bump);
    proof {
        assert(out@ =~= spec_pool_config_bytes(p@));
    }
    out
}

/// Decode the pool registry record; `None` for a wrong length or tag.
pub fn decode_pool_config(data: &Vec<u8>) -> (r: Option<PoolConfig>)
    ensures
        match r {
            Some(p) => spec_decode_pool_config(data@) == Some(p@),
            None => spec_decode_pool_config(data@) is None,
        },
{
    if data.len() != POOL_CONFIG_LEN {
        return None;
    }
    let init_byte = data[0];
    if init_byte > 1 {
        return None;
    }
    let paused_byte = data[129];
    if paused_byte > 1 {
        return None;
    }
    let policy_byte = data[130];
    if policy_byte > 1 {
        return None;
    }
    let p = PoolConfig {
        is_initialized: init_byte == 1,
        authority: identity_from_bytes(data, 1),
        token_mint: identity_from_bytes(data, 33),
        stake_vault: identity_from_bytes(data, 65),
        reward_vault: identity_from_bytes(data, 97),
        is_paused: paused_byte == 1,
        reward_policy: policy_of_tag(policy_byte),
        rate_basic: read_u64(data, 131),
        rate_pro: read_u64(data, 139),
        rate_elite: read_u64(data, 147),
        total_staked: read_u64(data, 155),
        total_positions: read_u64(data, 163),
        total_rewards_distributed: read_u64(data, 171),
        bump: data[179],
    };
    proof {
        assert(spec_decode_pool_config(data@) == Some(p@)) by {
            assert(p@ =~= spec_decode_pool_config(data@)->Some_0);
        }
    }
    Some(p)
}

/// A pool view the codec can represent: every identity is 32 bytes.
pub open spec fn spec_pool_view_wf(p: PoolView) -> bool {
    p.authority.len() == 32 && p.token_mint.len() == 32 && p.stake_vault.len() == 32
        && p.reward_vault.len() == 32
}

/// Encoding then decoding the pool registry record gives it back unchanged.
pub proof fn lemma_pool_config_round_trip(p: PoolView)
    requires
        spec_pool_view_wf(p),
    ensures
        spec_decode_pool_config(spec_pool_config_bytes(p)) == Some(p),
{
    lemma_auto_spec_u64_to_from_le_bytes();
    let b = spec_pool_config_bytes(p);
    assert(b.len() == POOL_CONFIG_LEN);
    assert(b.subrange(1, 33) =~= p.authority);
    assert(b.subrange(33, 65) =~= p.token_mint);
    assert(b.subrange(65, 97) =~= p.stake_vault);
    assert(b.subrange(97, 129) =~= p.reward_vault);
    assert(b.subrange(131, 139) =~= spec_u64_to_le_bytes(p.rate_basic));
    assert(b.subrange(139, 147) =~= spec_u64_to_le_bytes(p.rate_pro));
    assert(b.subrange(147, 155) =~= spec_u64_to_le_bytes(p.rate_elite));
    assert(b.subrange(155, 163) =~= spec_u64_to_le_bytes(p.total_staked));
    assert(b.subrange(163, 171) =~= spec_u64_to_le_bytes(p.total_positions));
    assert(b.subrange(171, 179) =~= spec_u64_to_le_bytes(p.total_rewards_distributed));
    assert(spec_decode_pool_config(b)->Some_0 =~= p);
}

// ---------------------------------------------------------------------------
// access configuration record

/// The bytes of the access configuration record.
pub open spec fn spec_access_config_bytes(c: AccessConfigView) -> Seq<u8> {
    seq![spec_bool_byte(c.is_initialized)] + c.authority + c.token_mint + seq![c.bump]
}

/// What a buffer decodes to as the access configuration, if anything.
pub open spec fn spec_decode_access_config(b: Seq<u8>) -> Option<AccessConfigView> {
    if b.len() == ACCESS_CONFIG_LEN && spec_valid_bool_byte(b[0]) {
        Some(
            AccessConfigView {
                is_initialized: b[0] == 1,
                authority: b.subrange(1, 33),
                token_mint: b.subrange(33, 65),
                bump: b[65],
            },
        )
    } else {
        None
    }
}

/// Encode the access configuration record.
pub fn encode_access_config(c: &AccessConfig) -> (out: Vec<u8>)
    ensures
        out@ == spec_access_config_bytes(c@),
{
    let mut out: Vec<u8> = Vec::new();
    out.push(bool_byte(c.is_initialized));
    push_identity(&mut out, &c.authority);
    push_identity(&mut out, &c.token_mint);
    out.push(c.bump);
    proof {
        assert(out@ =~= spec_access_config_bytes(c@));
    }
    out
}

/// Decode the access configuration record; `None` for a wrong length or tag.
pub fn decode_access_config(data: &Vec<u8>) -> (r: Option<AccessConfig>)
    ensures
        match r {
            Some(c) => spec_decode_access_config(data@) == Some(c@),
            None => spec_decode_access_config(data@) is None,
        },
{
    if data.len() != ACCESS_CONFIG_LEN {
        return None;
    }
    let init_byte = data[0];
    if init_byte > 1 {
        return None;
    }
    let c = AccessConfig {
        is_initialized: init_byte == 1,
        authority: identity_from_bytes(data, 1),
        token_mint: identity_from_bytes(data, 33),
        bump: data[65],
    };
    proof {
        assert(spec_decode_access_config(data@) == Some(c@)) by {
            assert(c@ =~= spec_decode_access_config(data@)->Some_0);
        }
    }
    Some(c)
}

/// An access configuration view the codec can represent.
pub open spec fn spec_access_config_wf(c: AccessConfigView) -> bool {
    c.authority.len() == 32 && c.token_mint.len() == 32
}

/// Encoding then decoding the access configuration gives it back unchanged.
pub proof fn lemma_access_config_round_trip(c: AccessConfigView)
    requires
        spec_access_config_wf(c),
    ensures
        spec_decode_access_config(spec_access_config_bytes(c)) == Some(c),
{
    let b = spec_access_config_bytes(c);
    assert(b.len() == ACCESS_CONFIG_LEN);
    assert(b.subrange(1, 33) =~= c.authority);
    assert(b.subrange(33, 65) =~= c.token_mint);
    assert(spec_decode_access_config(b)->Some_0 =~= c);
}

// ---------------------------------------------------------------------------
// per-owner access record

/// The bytes of a per-owner access record.
pub open spec fn spec_access_account_bytes(a: AccessView) -> Seq<u8> {
    seq![spec_bool_byte(a.is_initialized)] + a.owner + seq![spec_access_tier_tag(a.current_tier)]
        + spec_u64_to_le_bytes(a.last_verified_balance) + spec_u64_to_le_bytes(
        a.verification_timestamp,
    ) + seq![a.bump]
}

/// What a buffer decodes to as a per-owner access record, if anything.
pub open spec fn spec_decode_access_account(b: Seq<u8>) -> Option<AccessView> {
    if b.len() == ACCESS_ACCOUNT_LEN && spec_valid_bool_byte(b[0]) && b[33] <= 3 {
        Some(
            AccessView {
                is_initialized: b[0] == 1,
                owner: b.subrange(1, 33),
                current_tier: spec_access_tier_of_tag(b[33]),
                last_verified_balance: spec_u64_from_le_bytes(b.subrange(34, 42)),
                verification_timestamp: spec_u64_from_le_bytes(b.subrange(42, 50)),
                bump: b[50],
            },
        )
    } else {
        None
    }
}

/// Encode a per-owner access record.
pub fn encode_access_account(a: &AccessAccount) -> (out: Vec<u8>)
    ensures
        out@ == spec_access_account_bytes(a@),
{
    let mut out: Vec<u8> = Vec::new();
    out.push(bool_byte(a.is_initialized));
    push_identity(&mut out, &a.owner);
    out.push(access_tier_tag(a.current_tier));
    push_u64(&mut out, a.last_verified_balance);
    push_u64(&mut out, a.verification_timestamp);
    out.push(a.bump);
    proof {
        assert(out@ =~= spec_access_account_bytes(a@));
    }
    out
}

/// Decode a per-owner access record; `None` for a wrong length or tag.
pub fn decode_access_account(data: &Vec<u8>) -> (r: Option<AccessAccount>)
    ensures
        match r {
            Some(a) => spec_decode_access_account(data@) == Some(a@),
            None => spec_decode_access_account(data@) is None,
        },
{
    if data.len() != ACCESS_ACCOUNT_LEN {
        return None;
    }
    let init_byte = data[0];
    if init_byte > 1 {
        return None;
    }
    let tier_byte = data[33];
    if tier_byte > 3 {
        return None;
    }
    let a = AccessAccount {
        is_initialized: init_byte == 1,
        owner: identity_from_bytes(data, 1),
        current_tier: access_tier_of_tag(tier_byte),
        last_verified_balance: read_u64(data, 34),
        verification_timestamp: read_u64(data, 42),
        bump: data[50],
    };
    proof {
        assert(spec_decode_access_account(data@) == Some(a@)) by {
            assert(a@ =~= spec_decode_access_account(data@)->Some_0);
        }
    }
    Some(a)
}

/// An access record view the codec can represent.
pub open spec fn spec_access_view_wf(a: AccessView) -> bool {
    a.owner.len() == 32
}

/// Encoding then decoding a per-owner access record gives it back unchanged.
pub proof fn lemma_access_account_round_trip(a: AccessView)
    requires
        spec_access_view_wf(a),
    ensures
        spec_decode_access_account(spec_access_account_bytes(a)) == Some(a),
{
    lemma_auto_spec_u64_to_from_le_bytes();
    let b = spec_access_account_bytes(a);
    assert(b.len() == ACCESS_ACCOUNT_LEN);
    assert(b.subrange(1, 33) =~= a.owner);
    assert(b.subrange(34, 42) =~= spec_u64_to_le_bytes(a.last_verified_balance));
    assert(b.subrange(42, 50) =~= spec_u64_to_le_bytes(a.verification_timestamp));
    assert(spec_decode_access_account(b)->Some_0 =~= a);
}

// ---------------------------------------------------------------------------
// staking instruction payloads

/// The bytes of a staking instruction: a one-byte tag, then the payload
/// fields in order.
pub open spec fn spec_stake_instruction_bytes(ins: StakeInstruction) -> Seq<u8> {
    match ins {
        StakeInstruction::InitializePool { bump, policy } => seq![
            0u8,
            bump,
            spec_policy_tag(policy),
        ],
        StakeInstruction::InitializeStake { bump } => seq![1u8, bump],
        StakeInstruction::Stake { amount, tier } => seq![2u8] + spec_u64_to_le_bytes(amount)
            + seq![spec_stake_tier_tag(tier)],
        StakeInstruction::Unstake => seq![3u8],
        StakeInstruction::ClaimRewards => seq![4u8],
        StakeInstruction::EmergencyUnstake => seq![5u8],
        StakeInstruction::SetPaused { paused } => seq![6u8, spec_bool_byte(paused)],
        StakeInstruction::UpdateRates { basic, pro, elite } => seq![7u8] + spec_u64_to_le_bytes(
            basic,
        ) + spec_u64_to_le_bytes(pro) + spec_u64_to_le_bytes(elite),
        StakeInstruction::FundRewards { amount } => seq![8u8] + spec_u64_to_le_bytes(amount),
    }
}

/// What a payload decodes to as a staking instruction, if anything: the
/// exact encodings above and nothing else.
pub open spec fn spec_decode_stake_instruction(b: Seq<u8>) -> Option<StakeInstruction> {
    if b.len() == 0 {
        None
    } else if b[0] == 0 && b.len() == 3 && b[2] <= 1 {
        Some(StakeInstruction::InitializePool { bump: b[1], policy: spec_policy_of_tag(b[2]) })
    } else if b[0] == 1 && b.len() == 2 {
        Some(StakeInstruction::InitializeStake { bump: b[1] })
    } else if b[0] == 2 && b.len() == 10 && b[9] <= 2 {
        Some(
            StakeInstruction::Stake {
                amount: spec_u64_from_le_bytes(b.subrange(1, 9)),
                tier: spec_stake_tier_of_tag(b[9]),
            },
        )
    } else if b[0] == 3 && b.len() == 1 {
        Some(StakeInstruction::Unstake)
    } else if b[0] == 4 && b.len() == 1 {
        Some(StakeInstruction::ClaimRewards)
    } else if b[0] == 5 && b.len() == 1 {
        Some(StakeInstruction::EmergencyUnstake)
    } else if b[0] == 6 && b.len() == 2 && spec_valid_bool_byte(b[1]) {
        Some(StakeInstruction::SetPaused { paused: b[1] == 1 })
    } else if b[0] == 7 && b.len() == 25 {
        Some(
            StakeInstruction::UpdateRates {
                basic: spec_u64_from_le_bytes(b.subrange(1, 9)),
                pro: spec_u64_from_le_bytes(b.subrange(9, 17)),
                elite: spec_u64_from_le_bytes(b.subrange(17, 25)),
            },
        )
    } else if b[0] == 8 && b.len() == 9 {
        Some(StakeInstruction::FundRewards { amount: spec_u64_from_le_bytes(b.subrange(1, 9)) })
    } else {
        None
    }
}

/// Encode a staking instruction payload.
pub fn encode_stake_instruction(ins: &StakeInstruction) -> (out: Vec<u8>)
    ensures
        out@ == spec_stake_instruction_bytes(*ins),
{
    let mut out: Vec<u8> = Vec::new();
    match ins {
        StakeInstruction::InitializePool { bump, policy } => {
            out.push(0);
            out.push(*bump);
            out.push(policy_tag(*policy));
        },
        StakeInstruction::InitializeStake { bump } => {
            out.push(1);
            out.push(*bump);
        },
        StakeInstruction::Stake { amount, tier } => {
            out.push(2);
            push_u64(&mut out, *amount);
            out.push(stake_tier_tag(*tier));
        },
        StakeInstruction::Unstake => {
            out.push(3);
        },
        StakeInstruction::ClaimRewards => {
            out.push(4);
        },
        StakeInstruction::EmergencyUnstake => {
            out.push(5);
        },
        StakeInstruction::SetPaused { paused } => {
            out.push(6);
            out.push(bool_byte(*paused));
        },
        StakeInstruction::UpdateRates { basic, pro, elite } => {
            out.push(7);
            push_u64(&mut out, *basic);
            push_u64(&mut out, *pro);
            push_u64(&mut out, *elite);
        },
        StakeInstruction::FundRewards { amount } => {
            out.push(8);
            push_u64(&mut out, *amount);
        },
    }
    proof {
        assert(out@ =~= spec_stake_instruction_bytes(*ins));
    }
    out
}

/// Decode a staking instruction payload; `None` for anything that is not an
/// exact encoding.
pub fn decode_stake_instruction(data: &Vec<u8>) -> (r: Option<StakeInstruction>)
    ensures
        r == spec_decode_stake_instruction(data@),
{
    if data.len() == 0 {
        return None;
    }
    let tag = data[0];
    if tag == 0 && data.len() == 3 && data[2] <= 1 {
        Some(StakeInstruction::InitializePool { bump: data[1], policy: policy_of_tag(data[2]) })
    } else if tag == 1 && data.len() == 2 {
        Some(StakeInstruction::InitializeStake { bump: data[1] })
    } else if tag == 2 && data.len() == 10 && data[9] <= 2 {
        Some(StakeInstruction::Stake { amount: read_u64(data, 1), tier: stake_tier_of_tag(data[9]) })
    } else if tag == 3 && data.len() == 1 {
        Some(StakeInstruction::Unstake)
    } else if tag == 4 && data.len() == 1 {
        Some(StakeInstruction::ClaimRewards)
    } else if tag == 5 && data.len() == 1 {
        Some(StakeInstruction::EmergencyUnstake)
    } else if tag == 6 && data.len() == 2 && data[1] <= 1 {
        Some(StakeInstruction::SetPaused { paused: data[1] == 1 })
    } else if tag == 7 && data.len() == 25 {
        Some(
            StakeInstruction::UpdateRates {
                basic: read_u64(data, 1),
                pro: read_u64(data, 9),
                elite: read_u64(data, 17),
            },
        )
    } else if tag == 8 && data.len() == 9 {
        Some(StakeInstruction::FundRewards { amount: read_u64(data, 1) })
    } else {
        None
    }
}

/// Encoding then decoding a staking instruction gives it back unchanged.
pub proof fn lemma_stake_instruction_round_trip(ins: StakeInstruction)
    ensures
        spec_decode_stake_instruction(spec_stake_instruction_bytes(ins)) == Some(ins),
{
    lemma_auto_spec_u64_to_from_le_bytes();
    let b = spec_stake_instruction_bytes(ins);
    match ins {
        StakeInstruction::Stake { amount, tier } => {
            assert(b.subrange(1, 9) =~= spec_u64_to_le_bytes(amount));
        },
        StakeInstruction::UpdateRates { basic, pro, elite } => {
            assert(b.subrange(1, 9) =~= spec_u64_to_le_bytes(basic));
            assert(b.subrange(9, 17) =~= spec_u64_to_le_bytes(pro));
            assert(b.subrange(17, 25) =~= spec_u64_to_le_bytes(elite));
        },
        StakeInstruction::FundRewards { amount } => {
            assert(b.subrange(1, 9) =~= spec_u64_to_le_bytes(amount));
        },
        _ => {},
    }
}

// ---------------------------------------------------------------------------
// access instruction payloads

/// The bytes of an access instruction.
pub open spec fn spec_access_instruction_bytes(ins: AccessInstruction) -> Seq<u8> {
    match ins {
        AccessInstruction::InitializeConfig { bump } => seq![0u8, bump],
        AccessInstruction::InitializeAccess { bump } => seq![1u8, bump],
        AccessInstruction::VerifyAccess => seq![2u8],
        AccessInstruction::CheckTier => seq![3u8],
    }
}

/// What a payload decodes to as an access instruction, if anything.
pub open spec fn spec_decode_access_instruction(b: Seq<u8>) -> Option<AccessInstruction> {
    if b.len() == 0 {
        None
    } else if b[0] == 0 && b.len() == 2 {
        Some(AccessInstruction::InitializeConfig { bump: b[1] })
    } else if b[0] == 1 && b.len() == 2 {
        Some(AccessInstruction::InitializeAccess { bump: b[1] })
    } else if b[0] == 2 && b.len() == 1 {
        Some(AccessInstruction::VerifyAccess)
    } else if b[0] == 3 && b.len() == 1 {
        Some(AccessInstruction::CheckTier)
    } else {
        None
    }
}

/// Encode an access instruction payload.
pub fn encode_access_instruction(ins: &AccessInstruction) -> (out: Vec<u8>)
    ensures
        out@ == spec_access_instruction_bytes(*ins),
{
    let mut out: Vec<u8> = Vec::new();
    match ins {
        AccessInstruction::InitializeConfig { bump } => {
            out.push(0);
            out.push(*bump);
        },
        AccessInstruction::InitializeAccess { bump } => {
            out.push(1);
            out.push(*bump);
        },
        AccessInstruction::VerifyAccess => {
            out.push(2);
        },
        AccessInstruction::CheckTier => {
            out.push(3);
        },
    }
    proof {
        assert(out@ =~= spec_access_instruction_bytes(*ins));
    }
    out
}

/// Decode an access instruction payload; `None` for anything that is not an
/// exact encoding.
pub fn decode_access_instruction(data: &Vec<u8>) -> (r: Option<AccessInstruction>)
    ensures
        r == spec_decode_access_instruction(data@),
{
    if data.len() == 0 {
        return None;
    }
    let tag = data[0];
    if tag == 0 && data.len() == 2 {
        Some(AccessInstruction::InitializeConfig { bump: data[1] })
    } else if tag == 1 && data.len() == 2 {
        Some(AccessInstruction::InitializeAccess { bump: data[1] })
    } else if tag == 2 && data.len() == 1 {
        Some(AccessInstruction::VerifyAccess)
    } else if tag == 3 && data.len() == 1 {
        Some(AccessInstruction::CheckTier)
    } else {
        None
    }
}

/// Encoding then decoding an access instruction gives it back unchanged.
pub proof fn lemma_access_instruction_round_trip(ins: AccessInstruction)
    ensures
        spec_decode_access_instruction(spec_access_instruction_bytes(ins)) == Some(ins),
{
}

} // verus!
