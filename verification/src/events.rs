use vstd::prelude::*;

use crate::key::PublicKey;

verus! {

/// Announced when the configuration is first written.
#[derive(Clone, Copy, Debug, PartialEq, Eq)]
pub struct ConfigInitialized {
    pub owner: PublicKey,
    pub atx_mint: PublicKey,
    pub points_per_exchange: u64,
    pub atx_per_exchange: u64,
}

/// Announced when the owner credits or debits a user's points; `delta` is
/// positive for a credit and negative for a debit.
#[derive(Clone, Copy, Debug, PartialEq, Eq)]
pub struct PointsAdjusted {
    pub user: PublicKey,
    pub operator: PublicKey,
    pub delta: i128,
    pub new_balance: u64,
}

/// Announced when the owner pauses or resumes exchanges.
#[derive(Clone, Copy, Debug, PartialEq, Eq)]
pub struct PauseStatusChanged {
    pub operator: PublicKey,
    pub is_paused: bool,
}

/// Announced when a user exchanges points for tokens.
#[derive(Clone, Copy, Debug, PartialEq, Eq)]
pub struct PointsExchanged {
    pub exchange_id: u64,
    pub user: PublicKey,
    pub points_used: u64,
    pub atx_received: u64,
    pub timestamp: i64,
}

/// Announced when the owner withdraws tokens from the vault.
#[derive(Clone, Copy, Debug, PartialEq, Eq)]
pub struct TokensWithdrawn {
    pub operator: PublicKey,
    pub amount: u64,
}

} // verus!
