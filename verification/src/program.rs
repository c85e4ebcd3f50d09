use vstd::prelude::*;

use crate::checks::claimed;
use crate::error::ExchangeError;
use crate::events::{PauseStatusChanged, PointsAdjusted, PointsExchanged, TokensWithdrawn};
use crate::instructions::{
    add_user_points_error, add_user_points_post, after_exchange, credited, debited,
    exchange_error, exchange_points_post, exchange_transfer_post, initial_config,
    sub_user_points_error, sub_user_points_post, toggle_pause_post, withdraw_tokens_post,
    ExchangePoints, TogglePause, TokenTransfer, UpdateUserPoints, WithdrawTokens,
};
use crate::key::PublicKey;
use crate::state::{ExchangeRecord, GlobalConfig, UserPoints};

verus! {

/// The program's accounts as a whole, over time: the configuration, the
/// points account of each user (by user), and the exchange records (by id).
/// A user without an entry has a fresh, all-zero points account.
pub struct ProgramState {
    pub config: GlobalConfig,
    pub user_points: Map<PublicKey, UserPoints>,
    pub records: Map<u64, ExchangeRecord>,
}

/// One instruction after the configuration is written, with its signer,
/// arguments and (for the token-moving ones) whether the token transfer went
/// through.
pub enum Instruction {
    AddUserPoints { owner: PublicKey, user: PublicKey, points: u64 },
    SubUserPoints { owner: PublicKey, user: PublicKey, points: u64 },
    TogglePause { owner: PublicKey, is_paused: bool },
    ExchangePoints { user: PublicKey, atx_mint: PublicKey, now: i64, transfer_ok: bool },
    WithdrawTokens { owner: PublicKey, atx_mint: PublicKey, amount: u64, transfer_ok: bool },
}

/// A points account that no instruction has touched yet.
pub open spec fn fresh_points() -> UserPoints {
    UserPoints {
        owner: PublicKey { bytes: vstd::array::spec_array_fill_for_copy_type::<u8, 32>(0u8) },
        points: 0,
        exchange_count: 0,
        last_exchange_time: 0,
    }
}

/// The points account of `user` in `s`.
pub open spec fn points_of(s: ProgramState, user: PublicKey) -> UserPoints {
    if s.user_points.contains_key(user) {
        s.user_points[user]
    } else {
        fresh_points()
    }
}

/// The accounts that `add_user_points` and `sub_user_points` see in `s`.
pub open spec fn update_accounts(s: ProgramState, owner: PublicKey, user: PublicKey) -> UpdateUserPoints {
    UpdateUserPoints { owner, config: s.config, user, user_points: points_of(s, user) }
}

/// The accounts that `exchange_points` sees in `s` (the token accounts and
/// the vault authority play no part in the decision).
pub open spec fn exchange_accounts(s: ProgramState, user: PublicKey, atx_mint: PublicKey) -> ExchangePoints {
    ExchangePoints {
        user,
        config_address: user,
        config: s.config,
        user_points: points_of(s, user),
        exchange_record: ExchangeRecord {
            user: PublicKey { bytes: vstd::array::spec_array_fill_for_copy_type::<u8, 32>(0u8) },
            points_used: 0,
            atx_received: 0,
            timestamp: 0,
            exchange_id: 0,
        },
        atx_mint,
        vault_authority: user,
        vault_authority_bump: 0,
        vault_token_account: user,
        user_token_account: user,
    }
}

/// Whether an exchange by `user` goes through in `s`, as `exchange_points`
/// decides it.
pub open spec fn exchange_goes_through(
    s: ProgramState,
    user: PublicKey,
    atx_mint: PublicKey,
    transfer_ok: bool,
) -> bool {
    &&& exchange_error(exchange_accounts(s, user, atx_mint)) is None
    &&& transfer_ok
    &&& s.config.exchange_counter < u64::MAX
}

/// The state after `ins`, as the instruction's contract gives it: a refused
/// instruction changes nothing.
pub open spec fn apply(s: ProgramState, ins: Instruction) -> ProgramState {
    match ins {
        Instruction::AddUserPoints { owner, user, points } => {
            let ctx = update_accounts(s, owner, user);
            if add_user_points_error(ctx, points) is None {
                ProgramState {
                    user_points: s.user_points.insert(user, credited(ctx.user_points, user, points)),
                    ..s
                }
            } else {
                s
            }
        },
        Instruction::SubUserPoints { owner, user, points } => {
            let ctx = update_accounts(s, owner, user);
            if sub_user_points_error(ctx, points) is None {
                ProgramState {
                    user_points: s.user_points.insert(user, debited(ctx.user_points, user, points)),
                    ..s
                }
            } else {
                s
            }
        },
        Instruction::TogglePause { owner, is_paused } => {
            if s.config.owner == owner {
                ProgramState { config: GlobalConfig { is_paused, ..s.config }, ..s }
            } else {
                s
            }
        },
        Instruction::ExchangePoints { user, atx_mint, now, transfer_ok } => {
            if exchange_goes_through(s, user, atx_mint, transfer_ok) {
                let after = after_exchange(exchange_accounts(s, user, atx_mint), now);
                ProgramState {
                    config: after.config,
                    user_points: s.user_points.insert(user, after.user_points),
                    records: s.records.insert(s.config.exchange_counter, after.exchange_record),
                }
            } else {
                s
            }
        },
        Instruction::WithdrawTokens { .. } => s,
    }
}

/// Whether `ins` is a successful exchange in `s`.
pub open spec fn is_successful_exchange(s: ProgramState, ins: Instruction) -> bool {
    match ins {
        Instruction::ExchangePoints { user, atx_mint, now, transfer_ok } => exchange_goes_through(
            s,
            user,
            atx_mint,
            transfer_ok,
        ),
        _ => false,
    }
}

/// The state after the instructions `ops`, one after the other.
pub open spec fn run(s: ProgramState, ops: Seq<Instruction>) -> ProgramState
    decreases ops.len(),
{
    if ops.len() == 0 {
        s
    } else {
        run(apply(s, ops[0]), ops.drop_first())
    }
}

/// How many of the instructions `ops`, run from `s`, are successful exchanges.
pub open spec fn successful_exchanges(s: ProgramState, ops: Seq<Instruction>) -> nat
    decreases ops.len(),
{
    if ops.len() == 0 {
        0
    } else {
        (if is_successful_exchange(s, ops[0]) {
            1nat
        } else {
            0nat
        }) + successful_exchanges(apply(s, ops[0]), ops.drop_first())
    }
}

/// The token units that the exchanges among `ops` (run from `s`) that went
/// through paid out: each pays the `atx_per_exchange` of the configuration
/// at its time, the amount of the transfer that `exchange_transfer` asks for.
pub open spec fn tokens_paid(s: ProgramState, ops: Seq<Instruction>) -> nat
    decreases ops.len(),
{
    if ops.len() == 0 {
        0
    } else {
        (if is_successful_exchange(s, ops[0]) {
            s.config.atx_per_exchange as nat
        } else {
            0nat
        }) + tokens_paid(apply(s, ops[0]), ops.drop_first())
    }
}

/// The state right after `initialize_config` went through: the
/// configuration it wrote, no points and no records.
pub open spec fn initial_state(owner: PublicKey, atx_mint: PublicKey, decimals: u8) -> ProgramState {
    ProgramState {
        config: initial_config(owner, atx_mint, decimals),
        user_points: Map::empty(),
        records: Map::empty(),
    }
}

/// The exchanges of `user` at the times `times`, each with its transfer
/// going through.
pub open spec fn exchanges_of(user: PublicKey, atx_mint: PublicKey, times: Seq<i64>) -> Seq<
    Instruction,
> {
    times.map_values(
        |now: i64| Instruction::ExchangePoints { user, atx_mint, now, transfer_ok: true },
    )
}

/// The claimed points account of `user` in `s`.
pub open spec fn claimed_points_of(s: ProgramState, user: PublicKey) -> UserPoints {
    claimed(points_of(s, user), user)
}

} // verus!

verus! {

/// `s` with the points account of `user` replaced by `user_points` when
/// `stored` holds: what the program writes back after `add_user_points` or
/// `sub_user_points` (it writes nothing after a refusal).
pub open spec fn store_points(s: ProgramState, user: PublicKey, user_points: UserPoints, stored: bool) -> ProgramState {
    if stored {
        ProgramState { user_points: s.user_points.insert(user, user_points), ..s }
    } else {
        s
    }
}

/// `s` with the configuration replaced by `config` when `stored` holds.
pub open spec fn store_config(s: ProgramState, config: GlobalConfig, stored: bool) -> ProgramState {
    if stored {
        ProgramState { config, ..s }
    } else {
        s
    }
}

/// `s` with the accounts of an exchange written back when `stored` holds:
/// the configuration, the user's points account, and the record of the id
/// that the exchange was given.
pub open spec fn store_exchange(
    s: ProgramState,
    before: ExchangePoints,
    after: ExchangePoints,
    stored: bool,
) -> ProgramState {
    if stored {
        ProgramState {
            config: after.config,
            user_points: s.user_points.insert(before.user, after.user_points),
            records: s.records.insert(before.config.exchange_counter, after.exchange_record),
        }
    } else {
        s
    }
}

/// The accounts of an exchange hold what `s` holds for its user.
pub open spec fn exchange_reads(s: ProgramState, before: ExchangePoints) -> bool {
    &&& before.config == s.config
    &&& before.user_points == points_of(s, before.user)
}

/// `add_user_points`, run on the accounts that `s` holds, and written back
/// when it goes through, gives the next state of the model.
pub proof fn lemma_add_user_points_refines(
    s: ProgramState,
    owner: PublicKey,
    user: PublicKey,
    points: u64,
    after: UpdateUserPoints,
    r: Result<PointsAdjusted, ExchangeError>,
)
    requires
        add_user_points_post(update_accounts(s, owner, user), points, after, r),
    ensures
        apply(s, Instruction::AddUserPoints { owner, user, points }) == store_points(
            s,
            user,
            after.user_points,
            r is Ok,
        ),
{
}

/// `sub_user_points`, run on the accounts that `s` holds, and written back
/// when it goes through, gives the next state of the model.
pub proof fn lemma_sub_user_points_refines(
    s: ProgramState,
    owner: PublicKey,
    user: PublicKey,
    points: u64,
    after: UpdateUserPoints,
    r: Result<PointsAdjusted, ExchangeError>,
)
    requires
        sub_user_points_post(update_accounts(s, owner, user), points, after, r),
    ensures
        apply(s, Instruction::SubUserPoints { owner, user, points }) == store_points(
            s,
            user,
            after.user_points,
            r is Ok,
        ),
{
}

/// `toggle_pause`, run on the configuration of `s`, and written back when
/// it goes through, gives the next state of the model.
pub proof fn lemma_toggle_pause_refines(
    s: ProgramState,
    before: TogglePause,
    is_paused: bool,
    after: TogglePause,
    r: Result<PauseStatusChanged, ExchangeError>,
)
    requires
        before.config == s.config,
        toggle_pause_post(before, is_paused, after, r),
    ensures
        apply(s, Instruction::TogglePause { owner: before.owner, is_paused }) == store_config(
            s,
            after.config,
            r is Ok,
        ),
{
}

/// `exchange_points`, run on accounts that hold what `s` holds for the
/// user, and written back when it goes through, gives the next state of the
/// model; it goes through exactly when the model counts a successful
/// exchange, and the transfer that `exchange_transfer` asks for on those
/// accounts pays the model's `atx_per_exchange` exactly when it does not
/// refuse before the transfer.
pub proof fn lemma_exchange_points_refines(
    s: ProgramState,
    before: ExchangePoints,
    now: i64,
    transfer_ok: bool,
    after: ExchangePoints,
    r: Result<PointsExchanged, ExchangeError>,
    transfer: Result<TokenTransfer, ExchangeError>,
)
    requires
        exchange_reads(s, before),
        exchange_points_post(before, now, transfer_ok, after, r),
        exchange_transfer_post(before, transfer),
    ensures
        ({
            let ins = Instruction::ExchangePoints {
                user: before.user,
                atx_mint: before.atx_mint,
                now,
                transfer_ok,
            };
            &&& apply(s, ins) == store_exchange(s, before, after, r is Ok)
            &&& is_successful_exchange(s, ins) == r is Ok
            &&& transfer is Ok <==> exchange_error(exchange_accounts(s, before.user, before.atx_mint))
                is None
            &&& transfer matches Ok(t) ==> t.amount == s.config.atx_per_exchange
        }),
{
}

/// `withdraw_tokens` changes no account of the model, whatever it returns.
pub proof fn lemma_withdraw_tokens_refines(
    s: ProgramState,
    ctx: WithdrawTokens,
    amount: u64,
    transfer_ok: bool,
    r: Result<TokensWithdrawn, ExchangeError>,
)
    requires
        withdraw_tokens_post(ctx, amount, transfer_ok, r),
    ensures
        apply(
            s,
            Instruction::WithdrawTokens {
                owner: ctx.owner,
                atx_mint: ctx.atx_mint,
                amount,
                transfer_ok,
            },
        ) == s,
{
}

} // verus!
