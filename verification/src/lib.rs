//! Points-for-tokens exchange: the account state, the instruction rules and
//! the program-derived addresses of the points exchange program, with their
//! contracts proved by Verus.

pub mod checks;
pub mod error;
pub mod events;
pub mod guarantees;
pub mod instructions;
pub mod key;
pub mod laws;
pub mod pda;
pub mod program;
pub mod state;

pub use error::ExchangeError;
pub use events::{ConfigInitialized, PauseStatusChanged, PointsAdjusted, PointsExchanged, TokensWithdrawn};
pub use key::PublicKey;
pub use state::{ExchangeRecord, GlobalConfig, UserPoints, VaultAuthority};
pub use checks::{initialize_user_points_if_needed, require_config_ready, require_owner};
pub use instructions::{
    add_user_points, exchange_points, exchange_transfer, initialize_config, sub_user_points,
    toggle_pause, withdraw_tokens, withdraw_transfer, ExchangePoints, InitializeConfig, TogglePause,
    TokenTransfer, UpdateUserPoints, WithdrawTokens,
};
pub use pda::{
    config_seeds, exchange_record_seeds, find_config_address, find_exchange_record_address,
    find_user_points_address, find_vault_authority_address, user_points_seeds,
    vault_authority_seeds, vault_signer_seeds,
};
