//! What holds across calls of the vault's operations, whatever address the
//! host derives.
use crate::deposit::{deposit_outcome, Deposit};
use crate::error::ErrorCode;
use crate::initialize::{initialize_outcome, Initialize};
use crate::state::Identity;
use crate::withdraw::{caller_is_owner, withdraw_outcome, Withdraw};
use vstd::prelude::*;

verus! {

/// Once a vault record exists, creating it again fails with
/// `AlreadyInitialized`, whoever is named as owner.
pub proof fn lemma_initialize_once(ctx: Initialize, owner: Identity, canonical: Option<(Seq<u8>, u8)>)
    requires
        ctx.vault_state is Some,
    ensures
        initialize_outcome(ctx, owner, canonical) == Err::<Initialize, ErrorCode>(
            ErrorCode::AlreadyInitialized,
        ),
{
}

/// A successful creation records `owner` with both counters at zero, and any
/// second creation on the result fails with `AlreadyInitialized`, leaving the
/// recorded owner in place.
pub proof fn lemma_second_initialize_fails(
    ctx: Initialize,
    owner: Identity,
    other: Identity,
    canonical: Option<(Seq<u8>, u8)>,
)
    requires
        initialize_outcome(ctx, owner, canonical) is Ok,
    ensures
        ({
            let first = initialize_outcome(ctx, owner, canonical)->Ok_0;
            &&& first.vault_state matches Some(s) && s.owner == owner && s.revenue == 0
                && s.tokens_deployed == 0
            &&& initialize_outcome(first, other, canonical) == Err::<Initialize, ErrorCode>(
                ErrorCode::AlreadyInitialized,
            )
        }),
{
}

/// Neither deposits nor withdrawals change the recorded owner or bump.
pub proof fn lemma_owner_is_fixed(
    d: Deposit,
    a: u64,
    w: Withdraw,
    b: u64,
    derived: Option<Seq<u8>>,
)
    ensures
        deposit_outcome(d, a, derived) matches Ok(n) ==> n.vault_state.owner == d.vault_state.owner
            && n.vault_state.vault_state_bump == d.vault_state.vault_state_bump,
        withdraw_outcome(w, b, derived) matches Ok(n) ==> n.vault_state == w.vault_state,
{
}

/// The sum of a sequence of amounts.
pub open spec fn total(amounts: Seq<u64>) -> int
    decreases amounts.len(),
{
    if amounts.len() == 0 {
        0
    } else {
        total(amounts.drop_last()) + amounts.last()
    }
}

/// Depositing each of `amounts` in turn into the vault at `derived`: the
/// accounts afterwards, or the first failure.
pub open spec fn deposit_all(ctx: Deposit, amounts: Seq<u64>, derived: Option<Seq<u8>>) -> Result<
    Deposit,
    ErrorCode,
>
    decreases amounts.len(),
{
    if amounts.len() == 0 {
        Ok(ctx)
    } else {
        match deposit_all(ctx, amounts.drop_last(), derived) {
            Ok(mid) => deposit_outcome(mid, amounts.last(), derived),
            Err(e) => Err(e),
        }
    }
}

/// After deposits of `a_1 .. a_n` that all succeed, `revenue` has grown by
/// their sum and `tokens_deployed` by `n`; the vault holds the sum more and
/// the depositor the sum less. From a fresh record, `revenue` is the sum and
/// `tokens_deployed` is `n`.
pub proof fn lemma_deposit_totals(ctx: Deposit, amounts: Seq<u64>, derived: Option<Seq<u8>>)
    requires
        deposit_all(ctx, amounts, derived) is Ok,
    ensures
        ({
            let n = deposit_all(ctx, amounts, derived)->Ok_0;
            &&& n.vault_state.revenue == ctx.vault_state.revenue + total(amounts)
            &&& n.vault_state.tokens_deployed == ctx.vault_state.tokens_deployed + amounts.len()
            &&& n.vault.lamports == ctx.vault.lamports + total(amounts)
            &&& n.depositor.lamports == ctx.depositor.lamports - total(amounts)
            &&& n.vault_state.owner == ctx.vault_state.owner
        }),
    decreases amounts.len(),
{
    if amounts.len() > 0 {
        lemma_deposit_totals(ctx, amounts.drop_last(), derived);
    }
}

/// A caller other than the recorded owner never withdraws: the call fails
/// with `UnauthorizedWithdrawal` (and a failed call changes nothing).
pub proof fn lemma_only_owner_withdraws(ctx: Withdraw, amount: u64, derived: Option<Seq<u8>>)
    requires
        ctx.owner.key@ != ctx.vault_state.owner@,
    ensures
        withdraw_outcome(ctx, amount, derived) == Err::<Withdraw, ErrorCode>(
            ErrorCode::UnauthorizedWithdrawal,
        ),
{
}

/// A withdrawal that succeeds takes out no more than the vault held, and
/// exactly the amount, which the recipient receives.
pub proof fn lemma_withdraw_solvent(ctx: Withdraw, amount: u64, derived: Option<Seq<u8>>)
    ensures
        withdraw_outcome(ctx, amount, derived) matches Ok(n) ==> amount <= ctx.vault.lamports
            && n.vault.lamports == ctx.vault.lamports - amount
            && n.recipient.lamports == ctx.recipient.lamports + amount,
{
}

/// The owner asking, through a valid vault handle, for more than the vault
/// holds fails with `InsufficientFunds` (and a failed call changes nothing).
pub proof fn lemma_overdraw_fails(ctx: Withdraw, amount: u64, derived: Option<Seq<u8>>)
    requires
        caller_is_owner(ctx),
        derived == Some(ctx.vault.key@),
        amount > ctx.vault.lamports,
    ensures
        withdraw_outcome(ctx, amount, derived) == Err::<Withdraw, ErrorCode>(
            ErrorCode::InsufficientFunds,
        ),
{
}

/// A deposit of `a` adds exactly `a` to the vault's custody and takes exactly
/// `a` from the depositor's: the two balances sum to what they did.
pub proof fn lemma_deposit_conserves(ctx: Deposit, a: u64, derived: Option<Seq<u8>>)
    requires
        deposit_outcome(ctx, a, derived) is Ok,
    ensures
        ({
            let n = deposit_outcome(ctx, a, derived)->Ok_0;
            &&& n.vault.lamports == ctx.vault.lamports + a
            &&& n.depositor.lamports == ctx.depositor.lamports - a
            &&& n.vault.lamports + n.depositor.lamports == ctx.vault.lamports
                + ctx.depositor.lamports
        }),
{
}

} // verus!
