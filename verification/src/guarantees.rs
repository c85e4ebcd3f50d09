use vstd::arithmetic::power::pow;
use vstd::prelude::*;

use crate::error::ExchangeError;
use crate::events::{
    ConfigInitialized, PauseStatusChanged, PointsAdjusted, PointsExchanged, TokensWithdrawn,
};
use crate::instructions::{
    add_user_points_post, exchange_points_post, exchange_transfer_post, initialize_config_post,
    sub_user_points_post, ten_pow, toggle_pause_post, withdraw_tokens_post,
    withdraw_transfer_post, ExchangePoints, InitializeConfig, TogglePause, TokenTransfer,
    UpdateUserPoints, WithdrawTokens,
};
use crate::key::{is_default_key, PublicKey};
use crate::pda::{
    config_seeds_spec, exchange_record_seeds_spec, user_points_seeds_spec,
    vault_authority_seeds_spec, vault_signer_seeds_spec,
};
use crate::state::{ExchangeRecord, GlobalConfig, UserPoints, VaultAuthority};

verus! {

// What each instruction does, said over its inputs and its results, in the
// terms of the original program: which inputs it accepts, and what it then
// writes, returns and asks the token program to do.

/// The seed prefixes are the byte strings `"global-config"`,
/// `"user-points"`, `"exchange-record"` and `"vault-authority"`.
pub proof fn lemma_seed_prefix_bytes()
    ensures
        GlobalConfig::SEED_PREFIX@ == seq![
            103u8, 108u8, 111u8, 98u8, 97u8, 108u8, 45u8, 99u8, 111u8, 110u8, 102u8, 105u8, 103u8,
        ],
        UserPoints::SEED_PREFIX@ == seq![
            117u8, 115u8, 101u8, 114u8, 45u8, 112u8, 111u8, 105u8, 110u8, 116u8, 115u8,
        ],
        ExchangeRecord::SEED_PREFIX@ == seq![
            101u8, 120u8, 99u8, 104u8, 97u8, 110u8, 103u8, 101u8, 45u8, 114u8, 101u8, 99u8,
            111u8, 114u8, 100u8,
        ],
        VaultAuthority::SEED_PREFIX@ == seq![
            118u8, 97u8, 117u8, 108u8, 116u8, 45u8, 97u8, 117u8, 116u8, 104u8, 111u8, 114u8,
            105u8, 116u8, 121u8,
        ],
{
    assert(GlobalConfig::SEED_PREFIX@ =~= seq![
        103u8, 108u8, 111u8, 98u8, 97u8, 108u8, 45u8, 99u8, 111u8, 110u8, 102u8, 105u8, 103u8,
    ]);
    assert(UserPoints::SEED_PREFIX@ =~= seq![
        117u8, 115u8, 101u8, 114u8, 45u8, 112u8, 111u8, 105u8, 110u8, 116u8, 115u8,
    ]);
    assert(ExchangeRecord::SEED_PREFIX@ =~= seq![
        101u8, 120u8, 99u8, 104u8, 97u8, 110u8, 103u8, 101u8, 45u8, 114u8, 101u8, 99u8, 111u8,
        114u8, 100u8,
    ]);
    assert(VaultAuthority::SEED_PREFIX@ =~= seq![
        118u8, 97u8, 117u8, 108u8, 116u8, 45u8, 97u8, 117u8, 116u8, 104u8, 111u8, 114u8, 105u8,
        116u8, 121u8,
    ]);
}

/// Each account's seeds, byte for byte: the configuration `["global-config"]`;
/// a user's points account `["user-points", the user's 32 bytes]`; the record
/// of exchange `id` `["exchange-record", the 8 little-endian bytes of id]`;
/// the vault authority `["vault-authority", the configuration address]`; and
/// its signer seeds those two followed by the one-byte bump. (With
/// `lemma_seed_prefix_bytes`, the prefixes are the bytes of those strings.)
pub proof fn lemma_seed_layouts(user: PublicKey, id: u64, config_address: PublicKey, bump: u8)
    ensures
        config_seeds_spec() == seq![GlobalConfig::SEED_PREFIX@],
        user_points_seeds_spec(user) == seq![UserPoints::SEED_PREFIX@, user@],
        user@.len() == 32,
        exchange_record_seeds_spec(id).len() == 2,
        exchange_record_seeds_spec(id)[0] == ExchangeRecord::SEED_PREFIX@,
        exchange_record_seeds_spec(id)[1].len() == 8,
        vstd::bytes::spec_u64_from_le_bytes(exchange_record_seeds_spec(id)[1]) == id,
        vault_authority_seeds_spec(config_address) == seq![
            VaultAuthority::SEED_PREFIX@,
            config_address@,
        ],
        vault_signer_seeds_spec(config_address, bump) == seq![
            VaultAuthority::SEED_PREFIX@,
            config_address@,
            seq![bump],
        ],
{
    assert(vault_signer_seeds_spec(config_address, bump) =~= seq![
        VaultAuthority::SEED_PREFIX@,
        config_address@,
        seq![bump],
    ]);
    vstd::bytes::lemma_auto_spec_u64_to_from_le_bytes();
}

/// The vault authority signs with exactly three seeds, whatever the
/// configuration address and whatever the bump seed (0 to 255): the prefix,
/// the 32 bytes of the configuration address, and the one byte of the bump.
pub open spec fn signs_for_vault(seeds: Seq<Seq<u8>>, config_address: Seq<u8>, bump: u8) -> bool {
    &&& seeds.len() == 3
    &&& seeds[0] == VaultAuthority::SEED_PREFIX@
    &&& seeds[1] == config_address
    &&& seeds[1].len() == 32
    &&& seeds[2].len() == 1
    &&& seeds[2][0] == bump
}

/// Every token transfer that an exchange asks for is signed by the vault
/// authority with the seeds `"vault-authority"`, the configuration address
/// and the one-byte bump seed, for every address and every bump.
pub proof fn lemma_exchange_payout_carries_the_bump(
    ctx: ExchangePoints,
    r: Result<TokenTransfer, ExchangeError>,
)
    requires
        exchange_transfer_post(ctx, r),
    ensures
        r matches Ok(t) ==> signs_for_vault(
            t.signer_seeds.deep_view(),
            ctx.config_address@,
            ctx.vault_authority_bump,
        ),
{
    assert(ctx.config_address@.len() == 32);
}

/// Every token transfer that a withdrawal asks for is signed by the vault
/// authority with the seeds `"vault-authority"`, the configuration address
/// and the one-byte bump seed, for every address and every bump.
pub proof fn lemma_withdraw_payout_carries_the_bump(
    ctx: WithdrawTokens,
    amount: u64,
    r: Result<TokenTransfer, ExchangeError>,
)
    requires
        withdraw_transfer_post(ctx, amount, r),
    ensures
        r matches Ok(t) ==> signs_for_vault(
            t.signer_seeds.deep_view(),
            ctx.config_address@,
            ctx.vault_authority_bump,
        ),
{
    assert(ctx.config_address@.len() == 32);
}

/// `10^n` as this crate computes it is `10^n` as vstd defines powers.
pub proof fn lemma_ten_pow_is_pow(n: nat)
    ensures
        ten_pow(n) == pow(10, n),
    decreases n,
{
    reveal(pow);
    if n > 0 {
        lemma_ten_pow_is_pow((n - 1) as nat);
    }
}

/// `initialize_config` refuses exactly when the owner or the mint is the
/// all-zero address (with `InvalidAddress`, writing nothing), whatever the
/// mint's decimals. Otherwise it writes the owner and the mint, leaves
/// exchanges open with no exchange made, sets 1000 points per exchange, and
/// a payout of 0.001 token (`10^decimals / 1000` base units) for a mint with
/// 3 to 22 decimals and of 1_000_000 base units for any other mint.
pub proof fn lemma_initialize_config_outcome(
    before: InitializeConfig,
    after: InitializeConfig,
    r: Result<ConfigInitialized, ExchangeError>,
)
    requires
        initialize_config_post(before, after, r),
    ensures
        r is Err <==> is_default_key(before.owner) || is_default_key(before.atx_mint),
        r is Err ==> r == Err::<ConfigInitialized, ExchangeError>(ExchangeError::InvalidAddress)
            && after == before,
        r is Ok ==> {
            let d = before.atx_mint_decimals;
            let payout = after.config.atx_per_exchange;
            &&& after.owner == before.owner
            &&& after.atx_mint == before.atx_mint
            &&& after.atx_mint_decimals == d
            &&& after.config.owner == before.owner
            &&& after.config.atx_mint == before.atx_mint
            &&& !after.config.is_paused
            &&& after.config.points_per_exchange == 1000
            &&& after.config.exchange_counter == 0
            &&& 3 <= d <= 22 ==> 1000 * payout == pow(10, d as nat)
            &&& !(3 <= d <= 22) ==> payout == 1_000_000
            &&& r == Ok::<ConfigInitialized, ExchangeError>(
                ConfigInitialized {
                    owner: before.owner,
                    atx_mint: before.atx_mint,
                    points_per_exchange: 1000,
                    atx_per_exchange: payout,
                },
            )
        },
{
    lemma_ten_pow_is_pow(before.atx_mint_decimals as nat);
}

/// A credit of `points` by the owner goes through exactly when `points` is
/// positive, the account is fresh or the user's, and the balance stays at
/// most `u64::MAX`; the balance then rises by exactly `points` (from 0 for a
/// fresh account) and the account becomes the user's. Any refusal writes
/// nothing, and the only refusal about the amount is for 0 points.
pub proof fn lemma_credit_outcome(
    before: UpdateUserPoints,
    points: u64,
    after: UpdateUserPoints,
    r: Result<PointsAdjusted, ExchangeError>,
)
    requires
        add_user_points_post(before, points, after, r),
    ensures
        ({
            let up = before.user_points;
            let fresh = is_default_key(up.owner);
            let balance: int = if fresh {
                0
            } else {
                up.points as int
            };
            &&& r is Ok <==> {
                &&& before.config.owner == before.owner
                &&& points > 0
                &&& fresh || up.owner == before.user
                &&& balance + points <= u64::MAX
            }
            &&& r is Ok ==> {
                &&& after.user_points.points == balance + points
                &&& after.user_points.owner == before.user
                &&& after.user_points.exchange_count == (if fresh {
                    0
                } else {
                    up.exchange_count
                })
                &&& after.config == before.config
                &&& after.owner == before.owner
                &&& after.user == before.user
                &&& r == Ok::<PointsAdjusted, ExchangeError>(
                    PointsAdjusted {
                        user: before.user,
                        operator: before.owner,
                        delta: points as i128,
                        new_balance: (balance + points) as u64,
                    },
                )
            }
            &&& r is Err ==> after == before
            &&& r == Err::<PointsAdjusted, ExchangeError>(ExchangeError::InvalidPointsAmount)
                ==> points == 0
        }),
{
}

/// A debit of `points` by the owner goes through exactly when `points` is
/// positive, the account is fresh or the user's, and the balance (0 for a
/// fresh account) is at least `points`; the balance then falls by exactly
/// `points`. Any refusal writes nothing, and the only refusal about the
/// amount is for 0 points or an overdraft.
pub proof fn lemma_debit_outcome(
    before: UpdateUserPoints,
    points: u64,
    after: UpdateUserPoints,
    r: Result<PointsAdjusted, ExchangeError>,
)
    requires
        sub_user_points_post(before, points, after, r),
    ensures
        ({
            let up = before.user_points;
            let fresh = is_default_key(up.owner);
            let balance: int = if fresh {
                0
            } else {
                up.points as int
            };
            &&& r is Ok <==> {
                &&& before.config.owner == before.owner
                &&& points > 0
                &&& fresh || up.owner == before.user
                &&& balance >= points
            }
            &&& r is Ok ==> {
                &&& after.user_points.points == balance - points
                &&& after.user_points.owner == before.user
                &&& after.config == before.config
                &&& r == Ok::<PointsAdjusted, ExchangeError>(
                    PointsAdjusted {
                        user: before.user,
                        operator: before.owner,
                        delta: (-(points as int)) as i128,
                        new_balance: (balance - points) as u64,
                    },
                )
            }
            &&& r is Err ==> after == before
            &&& r == Err::<PointsAdjusted, ExchangeError>(ExchangeError::InvalidPointsAmount)
                ==> points == 0
        }),
{
}

/// `toggle_pause(is_paused)` by the owner sets the pause flag to exactly
/// `is_paused`, whatever it was before, and changes no other setting; by
/// anyone else it is refused with `NotOwner` and writes nothing.
pub proof fn lemma_toggle_pause_outcome(
    before: TogglePause,
    is_paused: bool,
    after: TogglePause,
    r: Result<PauseStatusChanged, ExchangeError>,
)
    requires
        toggle_pause_post(before, is_paused, after, r),
    ensures
        r is Ok <==> before.config.owner == before.owner,
        r is Ok ==> {
            &&& after.config.is_paused == is_paused
            &&& after.config.owner == before.config.owner
            &&& after.config.atx_mint == before.config.atx_mint
            &&& after.config.points_per_exchange == before.config.points_per_exchange
            &&& after.config.atx_per_exchange == before.config.atx_per_exchange
            &&& after.config.exchange_counter == before.config.exchange_counter
            &&& after.owner == before.owner
            &&& r == Ok::<PauseStatusChanged, ExchangeError>(
                PauseStatusChanged { operator: before.owner, is_paused },
            )
        },
        r is Err ==> r == Err::<PauseStatusChanged, ExchangeError>(ExchangeError::NotOwner)
            && after == before,
{
}

/// The checks an exchange makes before any token moves, said over the
/// accounts: a written configuration, open, for the configured mint, on an
/// account that is fresh or the user's, holding at least one exchange's
/// points, with room in the user's exchange count.
pub open spec fn exchange_admissible(ctx: ExchangePoints) -> bool {
    let up = ctx.user_points;
    let fresh = is_default_key(up.owner);
    &&& !is_default_key(ctx.config.owner)
    &&& !is_default_key(ctx.config.atx_mint)
    &&& !ctx.config.is_paused
    &&& ctx.atx_mint == ctx.config.atx_mint
    &&& fresh || up.owner == ctx.user
    &&& (if fresh {
        0
    } else {
        up.points as int
    }) >= ctx.config.points_per_exchange
    &&& (if fresh {
        0
    } else {
        up.exchange_count as int
    }) < u64::MAX
}

/// `exchange_transfer` asks for a transfer exactly when the exchange passes
/// its checks, and the transfer is `atx_per_exchange` units from the vault's
/// token account to the user's token account, with the vault authority as
/// the signing authority.
pub proof fn lemma_exchange_transfer_outcome(
    ctx: ExchangePoints,
    r: Result<TokenTransfer, ExchangeError>,
)
    requires
        exchange_transfer_post(ctx, r),
    ensures
        r is Ok <==> exchange_admissible(ctx),
        r matches Ok(t) ==> {
            &&& t.from == ctx.vault_token_account
            &&& t.to == ctx.user_token_account
            &&& t.authority == ctx.vault_authority
            &&& t.amount == ctx.config.atx_per_exchange
        },
{
}

/// An exchange goes through exactly when it passes its checks, its transfer
/// went through and the exchange counter has room. It then debits exactly
/// `points_per_exchange` points (from 0 for a fresh account), raises the
/// user's exchange count by one and records `now`, raises the counter by one
/// and changes no other setting, and writes the record of id `counter`
/// saying the user paid `points_per_exchange` points for `atx_per_exchange`
/// units at `now`. A passing exchange whose transfer failed is refused with
/// `TransferFailed`; any refusal writes nothing.
pub proof fn lemma_exchange_outcome(
    before: ExchangePoints,
    now: i64,
    transfer_ok: bool,
    after: ExchangePoints,
    r: Result<PointsExchanged, ExchangeError>,
)
    requires
        exchange_points_post(before, now, transfer_ok, after, r),
    ensures
        ({
            let up = before.user_points;
            let fresh = is_default_key(up.owner);
            let balance: int = if fresh {
                0
            } else {
                up.points as int
            };
            let count: int = if fresh {
                0
            } else {
                up.exchange_count as int
            };
            let ppe = before.config.points_per_exchange;
            let ape = before.config.atx_per_exchange;
            let id = before.config.exchange_counter;
            &&& r is Ok <==> exchange_admissible(before) && transfer_ok && id < u64::MAX
            &&& exchange_admissible(before) && !transfer_ok ==> r == Err::<
                PointsExchanged,
                ExchangeError,
            >(ExchangeError::TransferFailed)
            &&& r is Ok ==> {
                &&& after.user_points.owner == before.user
                &&& after.user_points.points == balance - ppe
                &&& after.user_points.exchange_count == count + 1
                &&& after.user_points.last_exchange_time == now
                &&& after.config.exchange_counter == id + 1
                &&& after.config.owner == before.config.owner
                &&& after.config.atx_mint == before.config.atx_mint
                &&& after.config.is_paused == before.config.is_paused
                &&& after.config.points_per_exchange == ppe
                &&& after.config.atx_per_exchange == ape
                &&& after.exchange_record == ExchangeRecord {
                    user: before.user,
                    points_used: ppe,
                    atx_received: ape,
                    timestamp: now,
                    exchange_id: id,
                }
                &&& r == Ok::<PointsExchanged, ExchangeError>(
                    PointsExchanged {
                        exchange_id: id,
                        user: before.user,
                        points_used: ppe,
                        atx_received: ape,
                        timestamp: now,
                    },
                )
            }
            &&& r is Err ==> after == before
        }),
{
}

/// A withdrawal by the owner of any positive amount of the configured mint
/// asks for a transfer of exactly that amount from the vault's token
/// account to the owner's token account, and goes through when that
/// transfer did; the only refusals are `NotOwner`, `InvalidTokenAmount` for
/// 0, `InvalidMint`, and `TransferFailed`.
pub proof fn lemma_withdraw_outcome(
    ctx: WithdrawTokens,
    amount: u64,
    transfer: Result<TokenTransfer, ExchangeError>,
    transfer_ok: bool,
    r: Result<TokensWithdrawn, ExchangeError>,
)
    requires
        withdraw_transfer_post(ctx, amount, transfer),
        withdraw_tokens_post(ctx, amount, transfer_ok, r),
    ensures
        ({
            let admissible = ctx.config.owner == ctx.owner && amount > 0 && ctx.atx_mint
                == ctx.config.atx_mint;
            &&& transfer is Ok <==> admissible
            &&& transfer matches Ok(t) ==> {
                &&& t.from == ctx.vault_token_account
                &&& t.to == ctx.owner_token_account
                &&& t.authority == ctx.vault_authority
                &&& t.amount == amount
            }
            &&& r is Ok <==> admissible && transfer_ok
            &&& r is Ok ==> r == Ok::<TokensWithdrawn, ExchangeError>(
                TokensWithdrawn { operator: ctx.owner, amount },
            )
            &&& admissible && !transfer_ok ==> r == Err::<TokensWithdrawn, ExchangeError>(
                ExchangeError::TransferFailed,
            )
            &&& r == Err::<TokensWithdrawn, ExchangeError>(ExchangeError::InvalidTokenAmount)
                ==> amount == 0
        }),
{
}

} // verus!
