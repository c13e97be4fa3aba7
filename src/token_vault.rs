//! The vault's three entry points.
use crate::address::canonical_address;
use crate::deposit::{deposit_outcome, Deposit, DepositEvent};
use crate::error::ErrorCode;
use crate::initialize::{initialize_outcome, Initialize};
use crate::state::{vault_seed, Identity};
use crate::withdraw::{withdraw_outcome, Withdraw, WithdrawEvent};
use vstd::prelude::*;

verus! {

/// Creates the vault record for `owner`.
pub fn initialize(ctx: &mut Initialize, owner: Identity) -> (r: Result<(), ErrorCode>)
    ensures
        match initialize_outcome(*old(ctx), owner, canonical_address(vault_seed(), old(ctx).program_id@)) {
            Ok(next) => r is Ok && *final(ctx) == next,
            Err(e) => r == Err::<(), ErrorCode>(e) && *final(ctx) == *old(ctx),
        },
{
    crate::initialize::initialize(ctx, owner)
}

/// Deposits `amount` into the vault.
pub fn deposit(ctx: &mut Deposit, amount: u64, timestamp: i64) -> (r: Result<DepositEvent, ErrorCode>)
    ensures
        match deposit_outcome(*old(ctx), amount, crate::deposit::rederived_address(*old(ctx))) {
            Ok(next) => *final(ctx) == next && r == Ok::<DepositEvent, ErrorCode>(
                DepositEvent { depositor: old(ctx).depositor.key, amount, timestamp },
            ),
            Err(e) => r == Err::<DepositEvent, ErrorCode>(e) && *final(ctx) == *old(ctx),
        },
{
    crate::deposit::deposit(ctx, amount, timestamp)
}

/// Withdraws `amount` from the vault to the recipient.
pub fn withdraw(ctx: &mut Withdraw, amount: u64, timestamp: i64) -> (r: Result<WithdrawEvent, ErrorCode>)
    ensures
        match withdraw_outcome(*old(ctx), amount, crate::withdraw::rederived_address(*old(ctx))) {
            Ok(next) => *final(ctx) == next && r == Ok::<WithdrawEvent, ErrorCode>(
                WithdrawEvent { recipient: old(ctx).recipient.key, amount, timestamp },
            ),
            Err(e) => r == Err::<WithdrawEvent, ErrorCode>(e) && *final(ctx) == *old(ctx),
        },
{
    crate::withdraw::withdraw(ctx, amount, timestamp)
}

} // verus!
