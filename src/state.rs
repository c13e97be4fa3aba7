use vstd::prelude::*;

verus! {

/// An opaque identity: the 32 bytes of a public key.
#[derive(Clone, Copy, Debug, PartialEq, Eq)]
pub struct Identity {
    pub bytes: [u8; 32],
}

impl View for Identity {
    type V = Seq<u8>;

    open spec fn view(&self) -> Seq<u8> {
        self.bytes@
    }
}

impl Identity {
    /// Compares two identities byte by byte, always reading all 32 bytes,
    /// so that the time taken does not depend on where they first differ.
    pub fn same_as(&self, other: &Identity) -> (r: bool)
        ensures
            r == (self@ == other@),
    {
        let mut diff: u8 = 0;
        let mut i: usize = 0;
        while i < 32
            invariant
                i <= 32,
                self@.len() == 32,
                other@.len() == 32,
                (diff == 0) <==> (forall|j: int| 0 <= j < i ==> self@[j] == other@[j]),
            decreases 32 - i,
        {
            let x: u8 = self.bytes[i];
            let y: u8 = other.bytes[i];
            let d: u8 = diff;
            assert(((d | (x ^ y)) == 0) <==> (d == 0 && x == y)) by (bit_vector);
            diff = d | (x ^ y);
            i = i + 1;
        }
        proof {
            if diff == 0 {
                assert(self@ =~= other@);
            }
        }
        diff == 0
    }
}

/// The vault record: who may withdraw, and what has been deposited so far.
#[derive(Clone, Copy, Debug, PartialEq, Eq)]
pub struct VaultState {
    /// The only identity allowed to withdraw; fixed at creation.
    pub owner: Identity,
    /// The bump under which the record's address was derived.
    pub vault_state_bump: u8,
    /// Total value ever deposited.
    pub revenue: u64,
    /// Number of completed deposits.
    pub tokens_deployed: u64,
}

/// An account as the host presents it to an operation: its address, its
/// custodied value, and whether its holder authorized the call.
#[derive(Clone, Copy, Debug, PartialEq, Eq)]
pub struct Account {
    pub key: Identity,
    pub lamports: u64,
    pub is_signer: bool,
}

impl Account {
    /// The same account holding `lamports`.
    pub open spec fn with_lamports(self, lamports: int) -> Account {
        Account { lamports: lamports as u64, ..self }
    }
}

/// The seed from which the vault record's address is derived.
pub open spec fn vault_seed() -> Seq<u8> {
    seq![118u8, 97, 117, 108, 116, 95, 115, 116, 97, 116, 101]
}

/// The seed as bytes: `"vault_state"`.
pub fn vault_seed_bytes() -> (r: Vec<u8>)
    ensures
        r@ == vault_seed(),
{
    let r: Vec<u8> = vec![118u8, 97, 117, 108, 116, 95, 115, 116, 97, 116, 101];
    assert(r@ =~= vault_seed());
    r
}

} // verus!
