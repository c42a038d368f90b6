//! Identities and addresses: 32-byte values that name callers, records and
//! asset kinds on the host ledger.  The library only ever compares them and
//! feeds them to the canonical-address derivation.

use vstd::prelude::*;

verus! {

/// A 32-byte ledger identity: a caller, a record address or an asset id.
#[derive(Clone, Copy, Debug, PartialEq, Eq)]
pub struct Identity {
    pub bytes: [u8; 32],
}

impl View for Identity {
    type V = Seq<u8>;

    open spec fn view(&self) -> Seq<u8> {
        self.bytes@
    }
}

/// Byte-wise equality of two identities.
pub fn identity_eq(a: &Identity, b: &Identity) -> (r: bool)
    ensures
        r == (a@ == b@),
{
    let mut i: usize = 0;
    while i < 32
        invariant
            0 <= i <= 32,
            forall|j: int| 0 <= j < i ==> a@[j] == b@[j],
        decreases 32 - i,
    {
        if a.bytes[i] != b.bytes[i] {
            assert(a@[i as int] != b@[i as int]);
            return false;
        }
        i += 1;
    }
    proof {
        assert(a@ =~= b@);
    }
    true
}

/// The identity's bytes as a vector, for use as a derivation seed.
pub fn identity_to_vec(id: &Identity) -> (out: Vec<u8>)
    ensures
        out@ == id@,
{
    let mut out: Vec<u8> = Vec::new();
    let mut i: usize = 0;
    while i < 32
        invariant
            0 <= i <= 32,
            out@ =~= id@.subrange(0, i as int),
        decreases 32 - i,
    {
        out.push(id.bytes[i]);
        i += 1;
    }
    proof {
        assert(out@ =~= id@);
    }
    out
}

/// Read an identity out of a byte buffer at `off`.
pub fn identity_from_bytes(data: &Vec<u8>, off: usize) -> (r: Identity)
    requires
        off + 32 <= data.len(),
    ensures
        r@ == data@.subrange(off as int, off + 32),
{
    let mut bytes: [u8; 32] = [0; 32];
    let mut i: usize = 0;
    while i < 32
        invariant
            0 <= i <= 32,
            off + 32 <= data.len(),
            forall|j: int| 0 <= j < i ==> bytes@[j] == data@[off + j],
        decreases 32 - i,
    {
        bytes[i] = data[off + i];
        i += 1;
    }
    let r = Identity { bytes };
    proof {
        assert(r@ =~= data@.subrange(off as int, off + 32));
    }
    r
}

} // verus!
