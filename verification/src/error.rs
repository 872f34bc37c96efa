use vstd::prelude::*;

verus! {

/// Every way an entry point of this crate can refuse a request.
///
/// One type serves the replay ledger and the contracts built on it, so a duplicate
/// reported by the ledger reaches the outermost caller unchanged.
#[derive(Clone, Copy, Debug, PartialEq, Eq, Hash, Structural)]
pub enum ContractError {
    /// The caller is not the party that may perform the operation.
    Unauthorized,
    /// An argument is malformed: a zero time-to-live, an expiry past the end of time,
    /// a key of the wrong length, a non-positive amount.
    InvalidArgument,
    /// The operation key is already held by a record.
    DuplicateOperation,
    /// The contract was initialized before.
    AlreadyInitialized,
    /// The contract has not been initialized.
    NotInitialized,
    /// The bet has a settlement on file.
    BetAlreadySettled,
    /// The bet's parameters do not fit the requested settlement.
    InvalidBet,
    /// The settlement type is none of the known ones.
    InvalidStatus,
    /// The amount is below the configured minimum stake.
    BelowMinStake,
    /// No stake is on file under the given identifier.
    StakeNotFound,
    /// The stake's cooldown has not elapsed.
    CooldownNotMet,
    /// No token is on file under the given identifier.
    TokenNotFound,
    /// A counter or balance would leave the range of its type.
    ArithmeticOverflow,
}

} // verus!
