//! The library's view of the host ledger SDK: canonical address derivation,
//! the token program's identity, and the layout of authoritative balance
//! records.  Each item here is a thin wrapper whose contract states what the
//! SDK's own source promises; everything downstream is verified against
//! these contracts.

use vstd::prelude::*;

use vstd::bytes::spec_u64_from_le_bytes;

use crate::errors::CoreError;
use crate::ids::Identity;
use crate::records::{TokenBalance, TokenView};

verus! {

/// The canonical address (and bump) derived from a seed list and a program
/// identity, or nothing in the statistically improbable event that no bump
/// works.  The derivation is a pure function of its arguments.
pub uninterp spec fn pda_of(seeds: Seq<Seq<u8>>, program: Seq<u8>) -> Option<(Seq<u8>, u8)>;

/// The views of a list of seed buffers.
pub open spec fn seed_views(seeds: Seq<Vec<u8>>) -> Seq<Seq<u8>> {
    seeds.map_values(|s: Vec<u8>| s@)
}

/// Relies on `Pubkey::try_find_program_address`: the derived address and
/// bump depend on the seeds and the program identity alone, and `None` is
/// returned (never a panic) when no bump yields a valid address.
#[verifier::external_body]
pub(crate) fn derive_address(seeds: &Vec<Vec<u8>>, program: &Identity) -> (r: Option<
    (Identity, u8),
>)
    ensures
        match r {
            Some(p) => pda_of(seed_views(seeds@), program@) == Some((p.0@, p.1)),
            None => pda_of(seed_views(seeds@), program@) is None,
        },
{
    let refs: Vec<&[u8]> = seeds.iter().map(|s| s.as_slice()).collect();
    let program_key = solana_program::pubkey::Pubkey::new_from_array(program.bytes);
    match solana_program::pubkey::Pubkey::try_find_program_address(&refs, &program_key) {
        Some((address, bump)) => Some((Identity { bytes: address.to_bytes() }, bump)),
        None => None,
    }
}

/// Whether a 32-byte identity is the token program's.
pub uninterp spec fn spec_is_token_program_id(id: Seq<u8>) -> bool;

/// Relies on `spl_token::id`: the token program's identity is a fixed
/// constant, so the comparison depends on `id` alone.
#[verifier::external_body]
pub(crate) fn is_token_program(id: &Identity) -> (r: bool)
    ensures
        r == spec_is_token_program_id(id@),
{
    spl_token::id() == solana_program::pubkey::Pubkey::new_from_array(id.bytes)
}

/// One four-byte optional-field tag of a balance record: little-endian 0
/// (absent) or 1 (present).
pub open spec fn spec_coption_tag_ok(b: Seq<u8>, off: int) -> bool {
    (b[off] == 0 || b[off] == 1) && b[off + 1] == 0 && b[off + 2] == 0 && b[off + 3] == 0
}

/// Whether a buffer is a well-formed, initialized balance record: exactly
/// 165 bytes, the three optional-field tags valid, and the state byte at
/// offset 108 initialized (1) or frozen (2).
pub open spec fn spec_token_record_ok(b: Seq<u8>) -> bool {
    b.len() == 165 && spec_coption_tag_ok(b, 72) && (b[108] == 1 || b[108] == 2)
        && spec_coption_tag_ok(b, 109) && spec_coption_tag_ok(b, 129)
}

/// What a well-formed balance record says: its asset at bytes 0..32, its
/// owner at 32..64, and its balance, little-endian, at 64..72.
pub open spec fn spec_unpack_token(b: Seq<u8>) -> Option<TokenView> {
    if spec_token_record_ok(b) {
        Some(
            TokenView {
                mint: b.subrange(0, 32),
                owner: b.subrange(32, 64),
                amount: spec_u64_from_le_bytes(b.subrange(64, 72)),
            },
        )
    } else {
        None
    }
}

/// Relies on `spl_token::state::Account::unpack` (via `Pack::unpack`): it
/// accepts exactly the 165-byte layout with valid optional-field tags and an
/// initialized state byte, and returns the mint, owner and amount read from
/// the offsets `spec_unpack_token` gives.
#[verifier::external_body]
pub(crate) fn unpack_token_account(data: &Vec<u8>) -> (r: Result<TokenBalance, CoreError>)
    ensures
        match r {
            Ok(t) => spec_unpack_token(data@) == Some(t@),
            Err(e) => spec_unpack_token(data@) is None && e == CoreError::InvalidRecordData,
        },
{
    match <spl_token::state::Account as solana_program::program_pack::Pack>::unpack(
        data.as_slice(),
    ) {
        Ok(a) => Ok(
            TokenBalance {
                mint: Identity { bytes: a.mint.to_bytes() },
                owner: Identity { bytes: a.owner.to_bytes() },
                amount: a.amount,
            },
        ),
        Err(_) => Err(CoreError::InvalidRecordData),
    }
}

} // verus!
