//! The record validator: the checks every operation runs before it mutates
//! anything — program ownership of records, canonical (derived) addressing,
//! and the derivation seeds used when records are created and when they are
//! validated, implemented once and shared by both flows.

use vstd::prelude::*;

use crate::ids::{identity_eq, identity_to_vec, Identity};
use crate::ledger::{derive_address, pda_of, seed_views};
use crate::records::RecordRef;

verus! {

/// The derivation tag of staking position records: `"stake"`.
pub open spec fn spec_stake_seed() -> Seq<u8> {
    seq![115u8, 116u8, 97u8, 107u8, 101u8]
}

/// The derivation tag of access records: `"access"`.
pub open spec fn spec_access_seed() -> Seq<u8> {
    seq![97u8, 99u8, 99u8, 101u8, 115u8, 115u8]
}

/// The derivation tag of the vault authority: `"vault"`.
pub open spec fn spec_vault_seed() -> Seq<u8> {
    seq![118u8, 97u8, 117u8, 108u8, 116u8]
}

/// The staking derivation tag as a seed buffer.
pub fn stake_seed() -> (out: Vec<u8>)
    ensures
        out@ == spec_stake_seed(),
{
    let mut out: Vec<u8> = Vec::new();
    out.push(115);
    out.push(116);
    out.push(97);
    out.push(107);
    out.push(101);
    proof {
        assert(out@ =~= spec_stake_seed());
    }
    out
}

/// The access derivation tag as a seed buffer.
pub fn access_seed() -> (out: Vec<u8>)
    ensures
        out@ == spec_access_seed(),
{
    let mut out: Vec<u8> = Vec::new();
    out.push(97);
    out.push(99);
    out.push(99);
    out.push(101);
    out.push(115);
    out.push(115);
    proof {
        assert(out@ =~= spec_access_seed());
    }
    out
}

/// The vault-authority derivation tag as a seed buffer.
pub fn vault_seed() -> (out: Vec<u8>)
    ensures
        out@ == spec_vault_seed(),
{
    let mut out: Vec<u8> = Vec::new();
    out.push(118);
    out.push(97);
    out.push(117);
    out.push(108);
    out.push(116);
    proof {
        assert(out@ =~= spec_vault_seed());
    }
    out
}

/// Whether a record is owned by this program.
pub fn owned_by_program(rec: &RecordRef, program: &Identity) -> (r: bool)
    ensures
        r == (rec@.owner_program == program@),
{
    identity_eq(&rec.owner_program, program)
}

/// A record address is canonical for `(tag, owner)` under `program` with
/// the given bump: the derivation yields exactly that address and bump.
pub open spec fn spec_canonical_ok(
    key: Seq<u8>,
    tag: Seq<u8>,
    owner: Seq<u8>,
    program: Seq<u8>,
    bump: u8,
) -> bool {
    pda_of(seq![tag, owner], program) == Some((key, bump))
}

/// Check that a record's address equals the canonical address recomputed
/// from `(tag, owner)` — a mismatch is a spoofing attempt, never repaired.
pub fn check_canonical(
    rec: &RecordRef,
    tag: Vec<u8>,
    owner: &Identity,
    program: &Identity,
    bump: u8,
) -> (r: bool)
    ensures
        r == spec_canonical_ok(rec@.key, tag@, owner@, program@, bump),
{
    let ghost tag_view = tag@;
    let mut seeds: Vec<Vec<u8>> = Vec::new();
    seeds.push(tag);
    seeds.push(identity_to_vec(owner));
    proof {
        assert(seed_views(seeds@) =~= seq![tag_view, owner@]);
    }
    match derive_address(&seeds, program) {
        Some((key, derived_bump)) => {
            let matches_key = identity_eq(&key, &rec.key);
            matches_key && derived_bump == bump
        },
        None => false,
    }
}

/// The vault authority derivation for a program, if any.
pub open spec fn spec_vault_authority(program: Seq<u8>) -> Option<(Seq<u8>, u8)> {
    pda_of(seq![spec_vault_seed()], program)
}

/// Check that a record is the program's derived vault authority; on success
/// return the bump the host must sign transfers with.
pub fn check_vault_authority(rec: &RecordRef, program: &Identity) -> (r: Option<u8>)
    ensures
        match r {
            Some(b) => spec_vault_authority(program@) == Some((rec@.key, b)),
            None => (match spec_vault_authority(program@) {
                Some(p) => p.0 != rec@.key,
                None => true,
            }),
        },
{
    let mut seeds: Vec<Vec<u8>> = Vec::new();
    seeds.push(vault_seed());
    proof {
        assert(seed_views(seeds@) =~= seq![spec_vault_seed()]);
    }
    match derive_address(&seeds, program) {
        Some((key, bump)) => {
            if identity_eq(&key, &rec.key) {
                Some(bump)
            } else {
                None
            }
        },
        None => None,
    }
}

} // verus!
