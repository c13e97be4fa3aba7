use crate::address::{derive_vault_address, key_view, program_address};
use crate::error::ErrorCode;
use crate::state::{vault_seed, Account, Identity, VaultState};
use vstd::prelude::*;

verus! {

/// What a withdrawal acts on.
#[derive(Clone, Copy, Debug, PartialEq, Eq)]
pub struct Withdraw {
    /// The caller, who must authorize the call and be the recorded owner.
    pub owner: Account,
    /// The vault record's account, whose custody pays out.
    pub vault: Account,
    /// The record held at `vault`.
    pub vault_state: VaultState,
    /// Where the value goes; any account.
    pub recipient: Account,
    /// The program whose derived address the vault must be.
    pub program_id: Identity,
}

/// The record of a completed withdrawal, for outside observers.
#[derive(Clone, Copy, Debug, PartialEq, Eq)]
pub struct WithdrawEvent {
    pub recipient: Identity,
    pub amount: u64,
    /// Host time at execution, in seconds.
    pub timestamp: i64,
}

/// Whether the caller of a withdrawal is the vault's owner and authorized the call.
pub open spec fn caller_is_owner(ctx: Withdraw) -> bool {
    ctx.owner.is_signer && ctx.owner.key@ == ctx.vault_state.owner@
}

/// The vault record's address re-derived from the seed `"vault_state"`, the
/// stored bump and the program.
pub open spec fn rederived_address(ctx: Withdraw) -> Option<Seq<u8>> {
    program_address(vault_seed(), ctx.vault_state.vault_state_bump, ctx.program_id@)
}

/// The result of withdrawing `amount`, where `derived` is the vault record's address
/// as re-derived from the stored bump: the accounts afterwards, or the failure.
pub open spec fn withdraw_outcome(ctx: Withdraw, amount: u64, derived: Option<Seq<u8>>) -> Result<Withdraw, ErrorCode> {
    if !caller_is_owner(ctx) {
        Err(ErrorCode::UnauthorizedWithdrawal)
    } else if derived != Some(ctx.vault.key@) {
        Err(ErrorCode::InvalidVaultHandle)
    } else if ctx.vault.lamports < amount {
        Err(ErrorCode::InsufficientFunds)
    } else if ctx.recipient.lamports + amount > u64::MAX {
        Err(ErrorCode::Overflow)
    } else {
        Ok(
            Withdraw {
                vault: ctx.vault.with_lamports(ctx.vault.lamports - amount),
                recipient: ctx.recipient.with_lamports(ctx.recipient.lamports + amount),
                ..ctx
            },
        )
    }
}

/// Moves `amount` out of the vault's custody to the recipient. Only the
/// recorded owner may do so, and never for more than the vault holds. The
/// record's counters are left alone. A recipient whose balance would overflow
/// fails the call as `Overflow`. The vault account must be `derived`, the
/// record's address re-derived from its stored bump. On failure nothing changes.
pub fn withdraw_at(ctx: &mut Withdraw, amount: u64, timestamp: i64, derived: Option<Identity>) -> (r: Result<
    WithdrawEvent,
    ErrorCode,
>)
    ensures
        match withdraw_outcome(*old(ctx), amount, key_view(derived)) {
            Ok(next) => *final(ctx) == next && r == Ok::<WithdrawEvent, ErrorCode>(
                WithdrawEvent { recipient: old(ctx).recipient.key, amount, timestamp },
            ),
            Err(e) => r == Err::<WithdrawEvent, ErrorCode>(e) && *final(ctx) == *old(ctx),
        },
{
    if !ctx.owner.is_signer || !ctx.owner.key.same_as(&ctx.vault_state.owner) {
        return Err(ErrorCode::UnauthorizedWithdrawal);
    }
    let valid = match derived {
        Some(a) => a.same_as(&ctx.vault.key),
        None => false,
    };
    if !valid {
        return Err(ErrorCode::InvalidVaultHandle);
    }
    if ctx.vault.lamports < amount {
        return Err(ErrorCode::InsufficientFunds);
    }
    let left = match ctx.vault.lamports.checked_sub(amount) {
        Some(v) => v,
        None => return Err(ErrorCode::ArithmeticUnderflow),
    };
    let received = match ctx.recipient.lamports.checked_add(amount) {
        Some(v) => v,
        None => return Err(ErrorCode::Overflow),
    };
    ctx.vault.lamports = left;
    ctx.recipient.lamports = received;
    Ok(WithdrawEvent { recipient: ctx.recipient.key, amount, timestamp })
}

/// Withdraws `amount` to the recipient, checking the vault account against the address re-derived
/// from the seed `"vault_state"`, the stored bump and the program.
pub fn withdraw(ctx: &mut Withdraw, amount: u64, timestamp: i64) -> (r: Result<WithdrawEvent, ErrorCode>)
    ensures
        match withdraw_outcome(*old(ctx), amount, rederived_address(*old(ctx))) {
            Ok(next) => *final(ctx) == next && r == Ok::<WithdrawEvent, ErrorCode>(
                WithdrawEvent { recipient: old(ctx).recipient.key, amount, timestamp },
            ),
            Err(e) => r == Err::<WithdrawEvent, ErrorCode>(e) && *final(ctx) == *old(ctx),
        },
{
    let derived = derive_vault_address(&ctx.program_id, ctx.vault_state.vault_state_bump);
    withdraw_at(ctx, amount, timestamp, derived)
}

} // verus!
