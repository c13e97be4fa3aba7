use crate::address::{canonical_address, find_vault_address, located_view};
use crate::error::ErrorCode;
use crate::state::{vault_seed, Account, Identity, VaultState};
use vstd::prelude::*;

verus! {

/// What creating the vault acts on.
#[derive(Clone, Copy, Debug, PartialEq, Eq)]
pub struct Initialize {
    /// Funds the allocation and must authorize the call.
    pub payer: Account,
    /// The account at which the record is to live.
    pub vault: Account,
    /// The record held at `vault`, if one exists.
    pub vault_state: Option<VaultState>,
    /// The program whose derived address the vault must be.
    pub program_id: Identity,
    /// What allocating the record costs the payer.
    pub rent: u64,
}

/// The result of creating the vault for `owner`, where `canonical` is the
/// vault record's canonical address and bump as the host derives them: the
/// accounts afterwards, or the failure.
pub open spec fn initialize_outcome(
    ctx: Initialize,
    owner: Identity,
    canonical: Option<(Seq<u8>, u8)>,
) -> Result<Initialize, ErrorCode> {
    if ctx.vault_state is Some {
        Err(ErrorCode::AlreadyInitialized)
    } else if !(canonical matches Some((a, _)) && a == ctx.vault.key@) {
        Err(ErrorCode::InvalidVaultHandle)
    } else if !ctx.payer.is_signer || ctx.payer.lamports < ctx.rent
        || ctx.vault.lamports + ctx.rent > u64::MAX {
        Err(ErrorCode::AllocationFailed)
    } else {
        Ok(
            Initialize {
                payer: ctx.payer.with_lamports(ctx.payer.lamports - ctx.rent),
                vault: ctx.vault.with_lamports(ctx.vault.lamports + ctx.rent),
                vault_state: Some(
                    VaultState {
                        owner,
                        vault_state_bump: canonical->Some_0.1,
                        revenue: 0,
                        tokens_deployed: 0,
                    },
                ),
                ..ctx
            },
        )
    }
}

/// Creates the vault record at `ctx.vault`, given the canonical address and
/// bump of the record: the vault account must be that address and hold no
/// record yet. Records `owner` as the withdrawal authority and the bump, with
/// both counters at zero; the payer pays `rent` into the vault account.
pub fn initialize_at(ctx: &mut Initialize, owner: Identity, canonical: Option<(Identity, u8)>) -> (r:
    Result<(), ErrorCode>)
    ensures
        match initialize_outcome(*old(ctx), owner, located_view(canonical)) {
            Ok(next) => r is Ok && *final(ctx) == next,
            Err(e) => r == Err::<(), ErrorCode>(e) && *final(ctx) == *old(ctx),
        },
{
    if ctx.vault_state.is_some() {
        return Err(ErrorCode::AlreadyInitialized);
    }
    let bump = match canonical {
        Some((a, b)) => if a.same_as(&ctx.vault.key) { b } else { return Err(ErrorCode::InvalidVaultHandle) },
        None => return Err(ErrorCode::InvalidVaultHandle),
    };
    if !ctx.payer.is_signer || ctx.payer.lamports < ctx.rent {
        return Err(ErrorCode::AllocationFailed);
    }
    let funded = match ctx.vault.lamports.checked_add(ctx.rent) {
        Some(v) => v,
        None => return Err(ErrorCode::AllocationFailed),
    };
    ctx.payer.lamports = ctx.payer.lamports - ctx.rent;
    ctx.vault.lamports = funded;
    ctx.vault_state = Some(VaultState { owner, vault_state_bump: bump, revenue: 0, tokens_deployed: 0 });
    Ok(())
}

/// Creates the vault record for `owner` at the address derived from the
/// seed `"vault_state"` and the program.
pub fn initialize(ctx: &mut Initialize, owner: Identity) -> (r: Result<(), ErrorCode>)
    ensures
        match initialize_outcome(*old(ctx), owner, canonical_address(vault_seed(), old(ctx).program_id@)) {
            Ok(next) => r is Ok && *final(ctx) == next,
            Err(e) => r == Err::<(), ErrorCode>(e) && *final(ctx) == *old(ctx),
        },
{
    let canonical = find_vault_address(&ctx.program_id);
    initialize_at(ctx, owner, canonical)
}

} // verus!
