use vstd::prelude::*;

use crate::key::PublicKey;

verus! {

/// The points balance of one user, kept in an account at the address derived
/// from the seeds `[UserPoints::SEED_PREFIX, user]`.
#[derive(Clone, Copy, Debug, PartialEq, Eq)]
pub struct UserPoints {
    pub owner: PublicKey,
    pub points: u64,
    pub exchange_count: u64,
    pub last_exchange_time: i64,
}

impl UserPoints {
    /// `b"user-points"`.
    pub const SEED_PREFIX: [u8; 11] = [
        117u8, 115u8, 101u8, 114u8, 45u8, 112u8, 111u8, 105u8, 110u8, 116u8, 115u8,
    ];
}

/// The receipt of one exchange, kept in an account at the address derived
/// from the seeds `[ExchangeRecord::SEED_PREFIX, exchange_id as 8 little-endian bytes]`.
#[derive(Clone, Copy, Debug, PartialEq, Eq)]
pub struct ExchangeRecord {
    pub user: PublicKey,
    pub points_used: u64,
    pub atx_received: u64,
    pub timestamp: i64,
    pub exchange_id: u64,
}

impl ExchangeRecord {
    /// `b"exchange-record"`.
    pub const SEED_PREFIX: [u8; 15] = [
        101u8, 120u8, 99u8, 104u8, 97u8, 110u8, 103u8, 101u8, 45u8, 114u8, 101u8, 99u8, 111u8,
        114u8, 100u8,
    ];
}

/// The program-wide settings, kept in the one account at the address derived
/// from the seeds `[GlobalConfig::SEED_PREFIX]`.
#[derive(Clone, Copy, Debug, PartialEq, Eq)]
pub struct GlobalConfig {
    pub owner: PublicKey,
    pub is_paused: bool,
    pub points_per_exchange: u64,
    pub atx_per_exchange: u64,
    pub atx_mint: PublicKey,
    pub exchange_counter: u64,
}

impl GlobalConfig {
    /// `b"global-config"`.
    pub const SEED_PREFIX: [u8; 13] = [
        103u8, 108u8, 111u8, 98u8, 97u8, 108u8, 45u8, 99u8, 111u8, 110u8, 102u8, 105u8, 103u8,
    ];

    /// Points debited by one exchange: 1000 points.
    pub const DEFAULT_POINTS_PER_EXCHANGE: u64 = 1_000;

    /// Base units of 0.001 token for a mint with 9 decimals (such as the
    /// exchange's intended token). `initialize_config` sets the payout from
    /// the configured mint's own decimals, so that one exchange pays 0.001
    /// whole token; for 9 decimals that is this value. For a mint with fewer
    /// than 3 or more than 22 decimals the payout is this value.
    pub const DEFAULT_ATX_PER_EXCHANGE: u64 = 1_000_000;
}

/// The program-derived signer that owns the token vault; it holds no data.
#[derive(Clone, Copy, Debug, PartialEq, Eq)]
pub struct VaultAuthority;

impl VaultAuthority {
    /// `b"vault-authority"`.
    pub const SEED_PREFIX: [u8; 15] = [
        118u8, 97u8, 117u8, 108u8, 116u8, 45u8, 97u8, 117u8, 116u8, 104u8, 111u8, 114u8, 105u8,
        116u8, 121u8,
    ];
}

} // verus!
