use vstd::prelude::*;

use crate::checks::{
    claimed, config_ready, initialize_user_points_if_needed, may_claim, require_config_ready,
    require_owner,
};
use crate::error::ExchangeError;
use crate::events::{
    ConfigInitialized, PauseStatusChanged, PointsAdjusted, PointsExchanged, TokensWithdrawn,
};
use crate::key::{is_default_key, PublicKey};
use crate::pda::{vault_signer_seeds, vault_signer_seeds_spec};
use crate::state::{ExchangeRecord, GlobalConfig, UserPoints};

verus! {

// ---------------------------------------------------------------------------
// The accounts that each instruction reads and writes.
// ---------------------------------------------------------------------------

/// The accounts of `initialize_config`: the signing owner, the configuration
/// account being created, and the mint of the token that exchanges pay out
/// (with the number of decimals that the mint account records).
#[derive(Clone, Copy, Debug, PartialEq, Eq)]
pub struct InitializeConfig {
    pub owner: PublicKey,
    pub config: GlobalConfig,
    pub atx_mint: PublicKey,
    pub atx_mint_decimals: u8,
}

/// The accounts of `add_user_points` and `sub_user_points`: the signing
/// operator, the configuration, the user whose points change, and that
/// user's points account.
#[derive(Clone, Copy, Debug, PartialEq, Eq)]
pub struct UpdateUserPoints {
    pub owner: PublicKey,
    pub config: GlobalConfig,
    pub user: PublicKey,
    pub user_points: UserPoints,
}

/// The accounts of `toggle_pause`: the signing operator and the configuration.
#[derive(Clone, Copy, Debug, PartialEq, Eq)]
pub struct TogglePause {
    pub owner: PublicKey,
    pub config: GlobalConfig,
}

/// The accounts of `exchange_points`: the signing user, the configuration
/// (with its address), the user's points account, the record account being
/// created for this exchange, the mint, the vault authority (with the bump
/// seed it was found with), the vault's token account and the user's token
/// account.
#[derive(Clone, Copy, Debug, PartialEq, Eq)]
pub struct ExchangePoints {
    pub user: PublicKey,
    pub config_address: PublicKey,
    pub config: GlobalConfig,
    pub user_points: UserPoints,
    pub exchange_record: ExchangeRecord,
    pub atx_mint: PublicKey,
    pub vault_authority: PublicKey,
    pub vault_authority_bump: u8,
    pub vault_token_account: PublicKey,
    pub user_token_account: PublicKey,
}

/// The accounts of `withdraw_tokens`: the signing operator, the
/// configuration (with its address), the mint, the vault authority (with its
/// bump seed), the vault's token account and the operator's token account.
#[derive(Clone, Copy, Debug, PartialEq, Eq)]
pub struct WithdrawTokens {
    pub owner: PublicKey,
    pub config_address: PublicKey,
    pub config: GlobalConfig,
    pub atx_mint: PublicKey,
    pub vault_authority: PublicKey,
    pub vault_authority_bump: u8,
    pub vault_token_account: PublicKey,
    pub owner_token_account: PublicKey,
}

/// A token transfer that the program asks the token program to make, signed
/// by the vault authority with `signer_seeds`.
#[derive(Debug)]
pub struct TokenTransfer {
    pub from: PublicKey,
    pub to: PublicKey,
    pub authority: PublicKey,
    pub amount: u64,
    pub signer_seeds: Vec<Vec<u8>>,
}

/// `transfer` moves `amount` from the vault's token account to `to`, signed
/// by the vault authority of the configuration at `config_address`.
pub open spec fn is_vault_payout(
    transfer: TokenTransfer,
    vault_token_account: PublicKey,
    to: PublicKey,
    vault_authority: PublicKey,
    amount: u64,
    config_address: PublicKey,
    bump: u8,
) -> bool {
    &&& transfer.from == vault_token_account
    &&& transfer.to == to
    &&& transfer.authority == vault_authority
    &&& transfer.amount == amount
    &&& transfer.signer_seeds.deep_view() == vault_signer_seeds_spec(config_address, bump)
}

// ---------------------------------------------------------------------------
// initialize_config
// ---------------------------------------------------------------------------

/// `10` to the power `n`.
pub open spec fn ten_pow(n: nat) -> nat
    decreases n,
{
    if n == 0 {
        1
    } else {
        10 * ten_pow((n - 1) as nat)
    }
}

/// One whole token of a mint with `decimals` decimals, in base units.
pub open spec fn whole_token(decimals: u8) -> nat {
    ten_pow(decimals as nat)
}

/// The mints whose 0.001 token is a whole number of base units that fits in
/// a `u64`: 3 to 22 decimals.
pub open spec fn decimals_supported(decimals: u8) -> bool {
    3 <= decimals <= 22
}

/// 0.001 token of a mint with `decimals` decimals, in base units.
pub open spec fn thousandth_of_token(decimals: u8) -> nat {
    ten_pow((decimals - 3) as nat)
}

proof fn lemma_ten_pow_monotone(a: nat, b: nat)
    requires
        a <= b,
    ensures
        ten_pow(a) <= ten_pow(b),
    decreases b,
{
    if a < b {
        lemma_ten_pow_monotone(a, (b - 1) as nat);
    }
}

proof fn lemma_ten_pow_19_fits()
    ensures
        ten_pow(19) <= u64::MAX,
{
    reveal_with_fuel(ten_pow, 20);
    assert(ten_pow(19) == 10_000_000_000_000_000_000nat);
}

/// For every supported mint, 1000 payouts of 0.001 token make one whole
/// token, and 0.001 token fits in a `u64`.
pub proof fn lemma_thousandth_scales(decimals: u8)
    requires
        decimals_supported(decimals),
    ensures
        1000 * thousandth_of_token(decimals) == whole_token(decimals),
        thousandth_of_token(decimals) <= u64::MAX,
{
    lemma_ten_pow_monotone((decimals - 3) as nat, 19);
    lemma_ten_pow_19_fits();
    let n = (decimals - 3) as nat;
    assert(ten_pow(n + 1) == 10 * ten_pow(n));
    assert(ten_pow(n + 2) == 10 * ten_pow(n + 1));
    assert(ten_pow(n + 3) == 10 * ten_pow(n + 2));
    assert(n + 3 == decimals as nat);
}

/// Base units of 0.001 token of a mint with `decimals` decimals.
fn thousandth_units(decimals: u8) -> (units: u64)
    requires
        decimals_supported(decimals),
    ensures
        units == thousandth_of_token(decimals),
{
    let n: u8 = decimals - 3;
    let mut units: u64 = 1;
    let mut i: u8 = 0;
    while i < n
        invariant
            i <= n,
            n <= 19,
            n == decimals - 3,
            units == ten_pow(i as nat),
        decreases n - i,
    {
        proof {
            lemma_ten_pow_monotone((i + 1) as nat, 19);
            lemma_ten_pow_19_fits();
            assert(ten_pow((i + 1) as nat) == 10 * ten_pow(i as nat));
        }
        units = units * 10;
        i = i + 1;
    }
    units
}

/// The payout of one exchange for a mint with `decimals` decimals: 0.001
/// token where that is a whole number of base units that fits in a `u64`
/// (3 to 22 decimals), and `DEFAULT_ATX_PER_EXCHANGE` base units otherwise.
pub open spec fn payout_for(decimals: u8) -> u64 {
    if decimals_supported(decimals) {
        thousandth_of_token(decimals) as u64
    } else {
        GlobalConfig::DEFAULT_ATX_PER_EXCHANGE
    }
}

/// The configuration that `initialize_config` writes.
pub open spec fn initial_config(owner: PublicKey, atx_mint: PublicKey, decimals: u8) -> GlobalConfig {
    GlobalConfig {
        owner,
        is_paused: false,
        points_per_exchange: GlobalConfig::DEFAULT_POINTS_PER_EXCHANGE,
        atx_per_exchange: payout_for(decimals),
        atx_mint,
        exchange_counter: 0,
    }
}

/// Why `initialize_config` refuses, if it does.
pub open spec fn initialize_config_error(ctx: InitializeConfig) -> Option<ExchangeError> {
    if is_default_key(ctx.owner) || is_default_key(ctx.atx_mint) {
        Some(ExchangeError::InvalidAddress)
    } else {
        None
    }
}

/// The outcome of `initialize_config`: its result `r` and the accounts
/// `after`, from the accounts `before`.
pub open spec fn initialize_config_post(
    before: InitializeConfig,
    after: InitializeConfig,
    r: Result<ConfigInitialized, ExchangeError>,
) -> bool {
    match initialize_config_error(before) {
        Some(e) => {
            &&& r == Err::<ConfigInitialized, ExchangeError>(e)
            &&& after == before
        },
        None => {
            &&& after == InitializeConfig {
                config: initial_config(
                    before.owner,
                    before.atx_mint,
                    before.atx_mint_decimals,
                ),
                ..before
            }
            &&& decimals_supported(before.atx_mint_decimals) ==> {
                let payout = after.config.atx_per_exchange;
                1000 * payout == whole_token(before.atx_mint_decimals)
            }
            &&& r == Ok::<ConfigInitialized, ExchangeError>(
                ConfigInitialized {
                    owner: before.owner,
                    atx_mint: before.atx_mint,
                    points_per_exchange: GlobalConfig::DEFAULT_POINTS_PER_EXCHANGE,
                    atx_per_exchange: after.config.atx_per_exchange,
                },
            )
        },
    }
}

/// Writes the configuration: `owner` administers it, exchanges are open,
/// 1000 points buy 0.001 token of `atx_mint` (so 1000 exchanges pay one
/// whole token), and no exchange has happened yet. For a mint with fewer
/// than 3 or more than 22 decimals, where 0.001 token is no whole `u64`
/// number of base units, an exchange pays `DEFAULT_ATX_PER_EXCHANGE` base
/// units. Refuses with `InvalidAddress` if the owner or the mint is the
/// all-zero address.
pub fn initialize_config(ctx: &mut InitializeConfig) -> (r: Result<ConfigInitialized, ExchangeError>)
    ensures
        initialize_config_post(*old(ctx), *final(ctx), r),
{
    if ctx.owner.is_default() {
        return Err(ExchangeError::InvalidAddress);
    }
    if ctx.atx_mint.is_default() {
        return Err(ExchangeError::InvalidAddress);
    }
    let atx_per_exchange = if 3 <= ctx.atx_mint_decimals && ctx.atx_mint_decimals <= 22 {
        proof {
            lemma_thousandth_scales(ctx.atx_mint_decimals);
        }
        thousandth_units(ctx.atx_mint_decimals)
    } else {
        GlobalConfig::DEFAULT_ATX_PER_EXCHANGE
    };
    ctx.config = GlobalConfig {
        owner: ctx.owner,
        is_paused: false,
        points_per_exchange: GlobalConfig::DEFAULT_POINTS_PER_EXCHANGE,
        atx_per_exchange,
        atx_mint: ctx.atx_mint,
        exchange_counter: 0,
    };
    Ok(
        ConfigInitialized {
            owner: ctx.config.owner,
            atx_mint: ctx.config.atx_mint,
            points_per_exchange: ctx.config.points_per_exchange,
            atx_per_exchange: ctx.config.atx_per_exchange,
        },
    )
}

// ---------------------------------------------------------------------------
// add_user_points / sub_user_points
// ---------------------------------------------------------------------------

/// Why `add_user_points` refuses, if it does.
pub open spec fn add_user_points_error(ctx: UpdateUserPoints, points: u64) -> Option<
    ExchangeError,
> {
    if ctx.config.owner != ctx.owner {
        Some(ExchangeError::NotOwner)
    } else if points == 0 {
        Some(ExchangeError::InvalidPointsAmount)
    } else if !may_claim(ctx.user_points, ctx.user) {
        Some(ExchangeError::UnauthorizedUser)
    } else if claimed(ctx.user_points, ctx.user).points + points > u64::MAX {
        Some(ExchangeError::MathOverflow)
    } else {
        None
    }
}

/// The user's points account after a credit of `points`.
pub open spec fn credited(user_points: UserPoints, user: PublicKey, points: u64) -> UserPoints {
    let c = claimed(user_points, user);
    UserPoints { points: (c.points + points) as u64, ..c }
}

/// Why `sub_user_points` refuses, if it does.
pub open spec fn sub_user_points_error(ctx: UpdateUserPoints, points: u64) -> Option<
    ExchangeError,
> {
    if ctx.config.owner != ctx.owner {
        Some(ExchangeError::NotOwner)
    } else if points == 0 {
        Some(ExchangeError::InvalidPointsAmount)
    } else if !may_claim(ctx.user_points, ctx.user) {
        Some(ExchangeError::UnauthorizedUser)
    } else if claimed(ctx.user_points, ctx.user).points < points {
        Some(ExchangeError::InsufficientPoints)
    } else {
        None
    }
}

/// The user's points account after a debit of `points`.
pub open spec fn debited(user_points: UserPoints, user: PublicKey, points: u64) -> UserPoints {
    let c = claimed(user_points, user);
    UserPoints { points: (c.points - points) as u64, ..c }
}

/// The outcome of `add_user_points`: its result `r` and the accounts `after`, from the accounts
/// `before`.
pub open spec fn add_user_points_post(
    before: UpdateUserPoints,
    points: u64,
    after: UpdateUserPoints,
    r: Result<PointsAdjusted, ExchangeError>,
) -> bool {
    match add_user_points_error(before, points) {
        Some(e) => {
            &&& r == Err::<PointsAdjusted, ExchangeError>(e)
            &&& after == before
        },
        None => {
            &&& after == UpdateUserPoints {
                user_points: credited(before.user_points, before.user, points),
                ..before
            }
            &&& r == Ok::<PointsAdjusted, ExchangeError>(
                PointsAdjusted {
                    user: before.user,
                    operator: before.owner,
                    delta: points as i128,
                    new_balance: after.user_points.points,
                },
            )
        },
    }
}

/// The owner credits `points` to `user`, claiming the user's points account
/// for `user` if it is fresh. Refuses with `NotOwner` if the signer is not
/// the configured owner, `InvalidPointsAmount` if `points` is 0,
/// `UnauthorizedUser` if the account belongs to someone else, and
/// `MathOverflow` if the balance would pass `u64::MAX`, in that order; a
/// refusal changes nothing.
pub fn add_user_points(ctx: &mut UpdateUserPoints, points: u64) -> (r: Result<
    PointsAdjusted,
    ExchangeError,
>)
    ensures
        add_user_points_post(*old(ctx), points, *final(ctx), r),
{
    match require_owner(&ctx.config, &ctx.owner) {
        Ok(()) => {},
        Err(e) => return Err(e),
    }
    if points == 0 {
        return Err(ExchangeError::InvalidPointsAmount);
    }
    let mut user_points = ctx.user_points;
    match initialize_user_points_if_needed(&mut user_points, ctx.user) {
        Ok(()) => {},
        Err(e) => return Err(e),
    }
    let new_balance = match user_points.points.checked_add(points) {
        Some(balance) => balance,
        None => return Err(ExchangeError::MathOverflow),
    };
    user_points.points = new_balance;
    ctx.user_points = user_points;
    Ok(
        PointsAdjusted {
            user: ctx.user,
            operator: ctx.owner,
            delta: points as i128,
            new_balance: ctx.user_points.points,
        },
    )
}

/// The outcome of `sub_user_points`: its result `r` and the accounts `after`, from the accounts
/// `before`.
pub open spec fn sub_user_points_post(
    before: UpdateUserPoints,
    points: u64,
    after: UpdateUserPoints,
    r: Result<PointsAdjusted, ExchangeError>,
) -> bool {
    match sub_user_points_error(before, points) {
        Some(e) => {
            &&& r == Err::<PointsAdjusted, ExchangeError>(e)
            &&& after == before
        },
        None => {
            &&& after == UpdateUserPoints {
                user_points: debited(before.user_points, before.user, points),
                ..before
            }
            &&& r == Ok::<PointsAdjusted, ExchangeError>(
                PointsAdjusted {
                    user: before.user,
                    operator: before.owner,
                    delta: (-(points as int)) as i128,
                    new_balance: after.user_points.points,
                },
            )
        },
    }
}

/// The owner debits `points` from `user`, claiming the user's points account
/// for `user` if it is fresh. Refuses with `NotOwner`, `InvalidPointsAmount`
/// and `UnauthorizedUser` as `add_user_points` does, and with
/// `InsufficientPoints` if the balance is below `points`, in that order; a
/// refusal changes nothing.
pub fn sub_user_points(ctx: &mut UpdateUserPoints, points: u64) -> (r: Result<
    PointsAdjusted,
    ExchangeError,
>)
    ensures
        sub_user_points_post(*old(ctx), points, *final(ctx), r),
{
    match require_owner(&ctx.config, &ctx.owner) {
        Ok(()) => {},
        Err(e) => return Err(e),
    }
    if points == 0 {
        return Err(ExchangeError::InvalidPointsAmount);
    }
    let mut user_points = ctx.user_points;
    match initialize_user_points_if_needed(&mut user_points, ctx.user) {
        Ok(()) => {},
        Err(e) => return Err(e),
    }
    if user_points.points < points {
        return Err(ExchangeError::InsufficientPoints);
    }
    let new_balance = match user_points.points.checked_sub(points) {
        Some(balance) => balance,
        None => return Err(ExchangeError::MathOverflow),
    };
    user_points.points = new_balance;
    ctx.user_points = user_points;
    Ok(
        PointsAdjusted {
            user: ctx.user,
            operator: ctx.owner,
            delta: -(points as i128),
            new_balance: ctx.user_points.points,
        },
    )
}

// ---------------------------------------------------------------------------
// toggle_pause
// ---------------------------------------------------------------------------

/// The outcome of `toggle_pause`: its result `r` and the accounts `after`, from the accounts
/// `before`.
pub open spec fn toggle_pause_post(
    before: TogglePause,
    is_paused: bool,
    after: TogglePause,
    r: Result<PauseStatusChanged, ExchangeError>,
) -> bool {
    &&& (before.config.owner != before.owner ==> {
        &&& r == Err::<PauseStatusChanged, ExchangeError>(ExchangeError::NotOwner)
        &&& after == before
    })
    &&& (before.config.owner == before.owner ==> {
        &&& after == TogglePause {
            config: GlobalConfig { is_paused, ..before.config },
            ..before
        }
        &&& r == Ok::<PauseStatusChanged, ExchangeError>(
            PauseStatusChanged { operator: before.owner, is_paused },
        )
    })
}

/// The owner pauses (`is_paused == true`) or resumes exchanges. Refuses
/// with `NotOwner`, changing nothing, if the signer is not the owner.
pub fn toggle_pause(ctx: &mut TogglePause, is_paused: bool) -> (r: Result<
    PauseStatusChanged,
    ExchangeError,
>)
    ensures
        toggle_pause_post(*old(ctx), is_paused, *final(ctx), r),
{
    match require_owner(&ctx.config, &ctx.owner) {
        Ok(()) => {},
        Err(e) => return Err(e),
    }
    ctx.config.is_paused = is_paused;
    Ok(PauseStatusChanged { operator: ctx.owner, is_paused })
}

// ---------------------------------------------------------------------------
// exchange_points
// ---------------------------------------------------------------------------

/// Why an exchange is refused before any token moves, if it is.
pub open spec fn exchange_error(ctx: ExchangePoints) -> Option<ExchangeError> {
    let up = claimed(ctx.user_points, ctx.user);
    if !config_ready(ctx.config) {
        Some(ExchangeError::ConfigNotInitialized)
    } else if ctx.config.is_paused {
        Some(ExchangeError::ExchangePaused)
    } else if ctx.atx_mint != ctx.config.atx_mint {
        Some(ExchangeError::InvalidMint)
    } else if !may_claim(ctx.user_points, ctx.user) {
        Some(ExchangeError::UnauthorizedUser)
    } else if up.points < ctx.config.points_per_exchange {
        Some(ExchangeError::InsufficientPoints)
    } else if up.exchange_count == u64::MAX {
        Some(ExchangeError::MathOverflow)
    } else {
        None
    }
}

/// The accounts after an exchange at time `now` that went through.
pub open spec fn after_exchange(ctx: ExchangePoints, now: i64) -> ExchangePoints {
    let up = claimed(ctx.user_points, ctx.user);
    ExchangePoints {
        config: GlobalConfig {
            exchange_counter: (ctx.config.exchange_counter + 1) as u64,
            ..ctx.config
        },
        user_points: UserPoints {
            owner: up.owner,
            points: (up.points - ctx.config.points_per_exchange) as u64,
            exchange_count: (up.exchange_count + 1) as u64,
            last_exchange_time: now,
        },
        exchange_record: ExchangeRecord {
            user: ctx.user,
            points_used: ctx.config.points_per_exchange,
            atx_received: ctx.config.atx_per_exchange,
            timestamp: now,
            exchange_id: ctx.config.exchange_counter,
        },
        ..ctx
    }
}

/// The announcement of an exchange at time `now` that went through.
pub open spec fn exchange_event(ctx: ExchangePoints, now: i64) -> PointsExchanged {
    PointsExchanged {
        exchange_id: ctx.config.exchange_counter,
        user: ctx.user,
        points_used: ctx.config.points_per_exchange,
        atx_received: ctx.config.atx_per_exchange,
        timestamp: now,
    }
}

/// The outcome of `exchange_transfer` on the accounts `ctx`.
pub open spec fn exchange_transfer_post(
    ctx: ExchangePoints,
    r: Result<TokenTransfer, ExchangeError>,
) -> bool {
    match exchange_error(ctx) {
        Some(e) => r matches Err(got) && got == e,
        None => r matches Ok(t) && is_vault_payout(
            t,
            ctx.vault_token_account,
            ctx.user_token_account,
            ctx.vault_authority,
            ctx.config.atx_per_exchange,
            ctx.config_address,
            ctx.vault_authority_bump,
        ),
    }
}

/// The token transfer that an exchange asks for: `atx_per_exchange` units
/// from the vault to the user's token account, signed by the vault
/// authority. Refuses, as `exchange_points` does before any token moves,
/// with `ConfigNotInitialized`, `ExchangePaused`, `InvalidMint`,
/// `UnauthorizedUser`, `InsufficientPoints` or `MathOverflow`.
pub fn exchange_transfer(ctx: &ExchangePoints) -> (r: Result<TokenTransfer, ExchangeError>)
    ensures
        exchange_transfer_post(*ctx, r),
{
    match check_exchange(ctx) {
        Ok(()) => {},
        Err(e) => return Err(e),
    }
    Ok(
        TokenTransfer {
            from: ctx.vault_token_account,
            to: ctx.user_token_account,
            authority: ctx.vault_authority,
            amount: ctx.config.atx_per_exchange,
            signer_seeds: vault_signer_seeds(&ctx.config_address, ctx.vault_authority_bump),
        },
    )
}

/// The checks that an exchange makes before any token moves.
fn check_exchange(ctx: &ExchangePoints) -> (r: Result<(), ExchangeError>)
    ensures
        match exchange_error(*ctx) {
            Some(e) => r == Err::<(), ExchangeError>(e),
            None => r == Ok::<(), ExchangeError>(()),
        },
{
    match require_config_ready(&ctx.config) {
        Ok(()) => {},
        Err(e) => return Err(e),
    }
    if ctx.config.is_paused {
        return Err(ExchangeError::ExchangePaused);
    }
    if !ctx.atx_mint.same_as(&ctx.config.atx_mint) {
        return Err(ExchangeError::InvalidMint);
    }
    let mut user_points = ctx.user_points;
    match initialize_user_points_if_needed(&mut user_points, ctx.user) {
        Ok(()) => {},
        Err(e) => return Err(e),
    }
    if !user_points.owner.same_as(&ctx.user) {
        return Err(ExchangeError::UnauthorizedUser);
    }
    if user_points.points < ctx.config.points_per_exchange {
        return Err(ExchangeError::InsufficientPoints);
    }
    if user_points.exchange_count == u64::MAX {
        return Err(ExchangeError::MathOverflow);
    }
    Ok(())
}

/// The outcome of `exchange_points`: its result `r` and the accounts `after`, from the accounts
/// `before`.
pub open spec fn exchange_points_post(
    before: ExchangePoints,
    now: i64,
    transfer_ok: bool,
    after: ExchangePoints,
    r: Result<PointsExchanged, ExchangeError>,
) -> bool {
    match exchange_error(before) {
        Some(e) => {
            &&& r == Err::<PointsExchanged, ExchangeError>(e)
            &&& after == before
        },
        None => if !transfer_ok {
            &&& r == Err::<PointsExchanged, ExchangeError>(ExchangeError::TransferFailed)
            &&& after == before
        } else if before.config.exchange_counter == u64::MAX {
            &&& r == Err::<PointsExchanged, ExchangeError>(ExchangeError::MathOverflow)
            &&& after == before
        } else {
            &&& after == after_exchange(before, now)
            &&& r == Ok::<PointsExchanged, ExchangeError>(exchange_event(before, now))
        },
    }
}

/// A user exchanges `points_per_exchange` points for `atx_per_exchange`
/// token units at time `now`; `transfer_ok` is whether the token transfer
/// that `exchange_transfer` asked for went through. On success the user's
/// points fall by `points_per_exchange`, the user's exchange count rises by
/// one and records `now`, the record of exchange number `exchange_counter`
/// is written, and the counter rises by one. Refuses with the checks of
/// `exchange_transfer`, then with `TransferFailed` if the transfer failed,
/// then with `MathOverflow` if the counter is at `u64::MAX`; a refusal
/// changes nothing.
pub fn exchange_points(ctx: &mut ExchangePoints, now: i64, transfer_ok: bool) -> (r: Result<
    PointsExchanged,
    ExchangeError,
>)
    ensures
        exchange_points_post(*old(ctx), now, transfer_ok, *final(ctx), r),
{
    match check_exchange(ctx) {
        Ok(()) => {},
        Err(e) => return Err(e),
    }
    let mut user_points = ctx.user_points;
    match initialize_user_points_if_needed(&mut user_points, ctx.user) {
        Ok(()) => {},
        Err(e) => return Err(e),
    }
    let points_per_exchange = ctx.config.points_per_exchange;
    let atx_per_exchange = ctx.config.atx_per_exchange;
    let new_points = match user_points.points.checked_sub(points_per_exchange) {
        Some(p) => p,
        None => return Err(ExchangeError::MathOverflow),
    };
    let new_count = match user_points.exchange_count.checked_add(1) {
        Some(c) => c,
        None => return Err(ExchangeError::MathOverflow),
    };
    if !transfer_ok {
        return Err(ExchangeError::TransferFailed);
    }
    let exchange_id = ctx.config.exchange_counter;
    let next_counter = match exchange_id.checked_add(1) {
        Some(c) => c,
        None => return Err(ExchangeError::MathOverflow),
    };
    user_points.points = new_points;
    user_points.exchange_count = new_count;
    user_points.last_exchange_time = now;
    ctx.user_points = user_points;
    ctx.config.exchange_counter = next_counter;
    ctx.exchange_record = ExchangeRecord {
        user: ctx.user,
        points_used: points_per_exchange,
        atx_received: atx_per_exchange,
        timestamp: now,
        exchange_id,
    };
    Ok(
        PointsExchanged {
            exchange_id,
            user: ctx.user,
            points_used: points_per_exchange,
            atx_received: atx_per_exchange,
            timestamp: now,
        },
    )
}

// ---------------------------------------------------------------------------
// withdraw_tokens
// ---------------------------------------------------------------------------

/// Why a withdrawal is refused before any token moves, if it is.
pub open spec fn withdraw_error(ctx: WithdrawTokens, amount: u64) -> Option<ExchangeError> {
    if ctx.config.owner != ctx.owner {
        Some(ExchangeError::NotOwner)
    } else if amount == 0 {
        Some(ExchangeError::InvalidTokenAmount)
    } else if ctx.atx_mint != ctx.config.atx_mint {
        Some(ExchangeError::InvalidMint)
    } else {
        None
    }
}

/// The outcome of `withdraw_transfer` on the accounts `ctx`.
pub open spec fn withdraw_transfer_post(
    ctx: WithdrawTokens,
    amount: u64,
    r: Result<TokenTransfer, ExchangeError>,
) -> bool {
    match withdraw_error(ctx, amount) {
        Some(e) => r matches Err(got) && got == e,
        None => r matches Ok(t) && is_vault_payout(
            t,
            ctx.vault_token_account,
            ctx.owner_token_account,
            ctx.vault_authority,
            amount,
            ctx.config_address,
            ctx.vault_authority_bump,
        ),
    }
}

/// The token transfer that a withdrawal of `amount` asks for: `amount`
/// units from the vault to the owner's token account, signed by the vault
/// authority. Refuses with `NotOwner`, `InvalidTokenAmount` (for 0) or
/// `InvalidMint`, in that order.
pub fn withdraw_transfer(ctx: &WithdrawTokens, amount: u64) -> (r: Result<
    TokenTransfer,
    ExchangeError,
>)
    ensures
        withdraw_transfer_post(*ctx, amount, r),
{
    match check_withdraw(ctx, amount) {
        Ok(()) => {},
        Err(e) => return Err(e),
    }
    Ok(
        TokenTransfer {
            from: ctx.vault_token_account,
            to: ctx.owner_token_account,
            authority: ctx.vault_authority,
            amount,
            signer_seeds: vault_signer_seeds(&ctx.config_address, ctx.vault_authority_bump),
        },
    )
}

/// The checks that a withdrawal makes before any token moves.
fn check_withdraw(ctx: &WithdrawTokens, amount: u64) -> (r: Result<(), ExchangeError>)
    ensures
        match withdraw_error(*ctx, amount) {
            Some(e) => r == Err::<(), ExchangeError>(e),
            None => r == Ok::<(), ExchangeError>(()),
        },
{
    match require_owner(&ctx.config, &ctx.owner) {
        Ok(()) => {},
        Err(e) => return Err(e),
    }
    if amount == 0 {
        return Err(ExchangeError::InvalidTokenAmount);
    }
    if !ctx.atx_mint.same_as(&ctx.config.atx_mint) {
        return Err(ExchangeError::InvalidMint);
    }
    Ok(())
}

/// The outcome of `withdraw_tokens` on the accounts `ctx`.
pub open spec fn withdraw_tokens_post(
    ctx: WithdrawTokens,
    amount: u64,
    transfer_ok: bool,
    r: Result<TokensWithdrawn, ExchangeError>,
) -> bool {
    match withdraw_error(ctx, amount) {
        Some(e) => r == Err::<TokensWithdrawn, ExchangeError>(e),
        None => if transfer_ok {
            r == Ok::<TokensWithdrawn, ExchangeError>(
                TokensWithdrawn { operator: ctx.owner, amount },
            )
        } else {
            r == Err::<TokensWithdrawn, ExchangeError>(ExchangeError::TransferFailed)
        },
    }
}

/// The owner withdraws `amount` token units from the vault; `transfer_ok`
/// is whether the token transfer that `withdraw_transfer` asked for went
/// through. Refuses with the checks of `withdraw_transfer`, then with
/// `TransferFailed`. No account of the program changes.
pub fn withdraw_tokens(ctx: &WithdrawTokens, amount: u64, transfer_ok: bool) -> (r: Result<
    TokensWithdrawn,
    ExchangeError,
>)
    ensures
        withdraw_tokens_post(*ctx, amount, transfer_ok, r),
{
    match check_withdraw(ctx, amount) {
        Ok(()) => {},
        Err(e) => return Err(e),
    }
    if !transfer_ok {
        return Err(ExchangeError::TransferFailed);
    }
    Ok(TokensWithdrawn { operator: ctx.owner, amount })
}

} // verus!
