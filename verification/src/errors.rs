use vstd::prelude::*;

verus! {

/// The reasons an instruction of the launchpad is refused.
#[derive(Debug, Clone, Copy, PartialEq, Eq, Structural)]
pub enum VaultpadError {
    MathOverflow,
    CurveDepleted,
    InvalidAmount,
    CreatorCannotBuy,
    SlippageExceeded,
    MaxWalletExceeded,
    AlreadyGraduated,
    InsufficientTokens,
    NameTooLong,
    TickerTooLong,
    UriTooLong,
    HandleTooLong,
    InvalidCategory,
    LockNotExpired,
    LockEmpty,
    Unauthorized,
    AlreadyClaimed,
    FeeTooHigh,
    NotCauseToken,
    InsufficientFunds,
    /// An account passed to an instruction is not the one its config names.
    ConstraintViolated,
}

} // verus!
