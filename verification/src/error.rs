use vstd::prelude::*;

verus! {

/// Why an instruction of the exchange was refused.
#[derive(Clone, Copy, Debug, PartialEq, Eq, Structural)]
pub enum ExchangeError {
    /// Insufficient points for this exchange.
    InsufficientPoints,
    /// The exchange feature is currently paused.
    ExchangePaused,
    /// Only the contract owner can perform this action.
    NotOwner,
    /// The token transfer failed.
    TransferFailed,
    /// Invalid wallet or mint address.
    InvalidAddress,
    /// The contract configuration has not been initialized.
    ConfigNotInitialized,
    /// Math overflow or underflow detected.
    MathOverflow,
    /// The caller is not authorized to operate on this user account.
    UnauthorizedUser,
    /// The provided mint does not match the configured token mint.
    InvalidMint,
    /// Points amount must be greater than zero.
    InvalidPointsAmount,
    /// Token amount must be greater than zero.
    InvalidTokenAmount,
}

} // verus!
