use crate::address::{derive_vault_address, key_view, program_address};
use crate::error::ErrorCode;
use crate::state::{vault_seed, Account, Identity, VaultState};
use vstd::prelude::*;

verus! {

/// What a deposit acts on.
#[derive(Clone, Copy, Debug, PartialEq, Eq)]
pub struct Deposit {
    /// Supplies the value and must authorize the call.
    pub depositor: Account,
    /// The vault record's account, which takes the value into custody.
    pub vault: Account,
    /// The record held at `vault`.
    pub vault_state: VaultState,
    /// The program whose derived address the vault must be.
    pub program_id: Identity,
}

/// The record of a completed deposit, for outside observers.
#[derive(Clone, Copy, Debug, PartialEq, Eq)]
pub struct DepositEvent {
    pub depositor: Identity,
    pub amount: u64,
    /// Host time at execution, in seconds.
    pub timestamp: i64,
}

/// The vault record's address re-derived from the seed `"vault_state"`, the
/// stored bump and the program.
pub open spec fn rederived_address(ctx: Deposit) -> Option<Seq<u8>> {
    program_address(vault_seed(), ctx.vault_state.vault_state_bump, ctx.program_id@)
}

/// The result of depositing `amount`, where `derived` is the vault record's address
/// as re-derived from the stored bump: the accounts afterwards, or the failure.
pub open spec fn deposit_outcome(ctx: Deposit, amount: u64, derived: Option<Seq<u8>>) -> Result<Deposit, ErrorCode> {
    if derived != Some(ctx.vault.key@) {
        Err(ErrorCode::InvalidVaultHandle)
    } else if !ctx.depositor.is_signer || ctx.depositor.lamports < amount
        || ctx.vault.lamports + amount > u64::MAX {
        Err(ErrorCode::TransferFailed)
    } else if ctx.vault_state.revenue + amount > u64::MAX
        || ctx.vault_state.tokens_deployed + 1 > u64::MAX {
        Err(ErrorCode::Overflow)
    } else {
        Ok(
            Deposit {
                depositor: ctx.depositor.with_lamports(ctx.depositor.lamports - amount),
                vault: ctx.vault.with_lamports(ctx.vault.lamports + amount),
                vault_state: VaultState {
                    revenue: (ctx.vault_state.revenue + amount) as u64,
                    tokens_deployed: (ctx.vault_state.tokens_deployed + 1) as u64,
                    ..ctx.vault_state
                },
                ..ctx
            },
        )
    }
}

/// Moves `amount` from the depositor into the vault's custody, then adds it
/// to `revenue` and counts one more deposit. Anyone may deposit, and a zero
/// amount is accepted. A transfer that would overflow the vault's balance
/// fails as `TransferFailed`. The vault account must be `derived`, the record's
/// address re-derived from its stored bump. On failure nothing changes.
pub fn deposit_at(ctx: &mut Deposit, amount: u64, timestamp: i64, derived: Option<Identity>) -> (r: Result<
    DepositEvent,
    ErrorCode,
>)
    ensures
        match deposit_outcome(*old(ctx), amount, key_view(derived)) {
            Ok(next) => *final(ctx) == next && r == Ok::<DepositEvent, ErrorCode>(
                DepositEvent { depositor: old(ctx).depositor.key, amount, timestamp },
            ),
            Err(e) => r == Err::<DepositEvent, ErrorCode>(e) && *final(ctx) == *old(ctx),
        },
{
    let valid = match derived {
        Some(a) => a.same_as(&ctx.vault.key),
        None => false,
    };
    if !valid {
        return Err(ErrorCode::InvalidVaultHandle);
    }
    if !ctx.depositor.is_signer || ctx.depositor.lamports < amount {
        return Err(ErrorCode::TransferFailed);
    }
    let held = match ctx.vault.lamports.checked_add(amount) {
        Some(v) => v,
        None => return Err(ErrorCode::TransferFailed),
    };
    let revenue = match ctx.vault_state.revenue.checked_add(amount) {
        Some(v) => v,
        None => return Err(ErrorCode::Overflow),
    };
    let count = match ctx.vault_state.tokens_deployed.checked_add(1) {
        Some(v) => v,
        None => return Err(ErrorCode::Overflow),
    };
    ctx.depositor.lamports = ctx.depositor.lamports - amount;
    ctx.vault.lamports = held;
    ctx.vault_state.revenue = revenue;
    ctx.vault_state.tokens_deployed = count;
    Ok(DepositEvent { depositor: ctx.depositor.key, amount, timestamp })
}

/// Deposits `amount`, checking the vault account against the address re-derived
/// from the seed `"vault_state"`, the stored bump and the program.
pub fn deposit(ctx: &mut Deposit, amount: u64, timestamp: i64) -> (r: Result<DepositEvent, ErrorCode>)
    ensures
        match deposit_outcome(*old(ctx), amount, rederived_address(*old(ctx))) {
            Ok(next) => *final(ctx) == next && r == Ok::<DepositEvent, ErrorCode>(
                DepositEvent { depositor: old(ctx).depositor.key, amount, timestamp },
            ),
            Err(e) => r == Err::<DepositEvent, ErrorCode>(e) && *final(ctx) == *old(ctx),
        },
{
    let derived = derive_vault_address(&ctx.program_id, ctx.vault_state.vault_state_bump);
    deposit_at(ctx, amount, timestamp, derived)
}

} // verus!
