use vstd::prelude::*;

verus! {

/// The ways a vault operation can fail. Every failure leaves all state as it was.
#[derive(Clone, Copy, Debug, PartialEq, Eq, Structural)]
pub enum ErrorCode {
    /// A vault record already exists at the derived address.
    AlreadyInitialized,
    /// The payer cannot cover the cost of allocating the record.
    AllocationFailed,
    /// The depositor lacks the value or did not authorize the transfer.
    TransferFailed,
    /// A counter or balance would leave its representable range.
    Overflow,
    /// The caller is not the recorded owner.
    UnauthorizedWithdrawal,
    /// The vault holds less than the amount requested.
    InsufficientFunds,
    /// Taking the amount out would make the vault's balance negative.
    ArithmeticUnderflow,
    /// The vault account is not the one derived from the seed and the stored bump.
    InvalidVaultHandle,
}

} // verus!
