use vstd::prelude::*;

use crate::checks::{claimed, config_ready, may_claim};
use crate::error::ExchangeError;
use crate::instructions::{
    add_user_points_error, after_exchange, credited, debited, decimals_supported, exchange_error,
    exchange_event, initial_config, lemma_thousandth_scales, payout_for, sub_user_points_error, whole_token,
    withdraw_error, ExchangePoints, UpdateUserPoints, WithdrawTokens,
};
use crate::key::{is_default_key, PublicKey};
use crate::pda::{
    config_seeds_spec, exchange_record_seeds_spec, user_points_seeds_spec,
    vault_authority_seeds_spec,
};
use crate::program::{
    apply, claimed_points_of, exchange_accounts, exchanges_of, fresh_points, initial_state, is_successful_exchange,
    points_of, run, successful_exchanges, tokens_paid, Instruction, ProgramState,
};
use crate::state::{ExchangeRecord, GlobalConfig};

verus! {

/// Crediting `points` and then debiting the same `points` leaves the user's
/// points account as it was (once claimed for the user): the debit goes
/// through whenever the credit did. (The all-zero user is left out: its
/// account never leaves the fresh state, so each call starts it over.)
pub proof fn lemma_add_then_sub_restores(ctx: UpdateUserPoints, points: u64)
    requires
        add_user_points_error(ctx, points) is None,
        !is_default_key(ctx.user),
    ensures
        ({
            let added = UpdateUserPoints {
                user_points: credited(ctx.user_points, ctx.user, points),
                ..ctx
            };
            &&& sub_user_points_error(added, points) is None
            &&& debited(added.user_points, added.user, points) == claimed(
                ctx.user_points,
                ctx.user,
            )
        }),
{
}

/// Debiting `points` and then crediting the same `points` leaves the user's
/// points account as it was (once claimed for the user): the credit goes
/// through whenever the debit did. (The all-zero user is left out, as for
/// `lemma_add_then_sub_restores`.)
pub proof fn lemma_sub_then_add_restores(ctx: UpdateUserPoints, points: u64)
    requires
        sub_user_points_error(ctx, points) is None,
        !is_default_key(ctx.user),
    ensures
        ({
            let subbed = UpdateUserPoints {
                user_points: debited(ctx.user_points, ctx.user, points),
                ..ctx
            };
            &&& add_user_points_error(subbed, points) is None
            &&& credited(subbed.user_points, subbed.user, points) == claimed(
                ctx.user_points,
                ctx.user,
            )
        }),
{
}

/// Only the configured owner administers the exchange: a signer who is not
/// the owner is refused with `NotOwner` when crediting, debiting or
/// withdrawing, whatever the other arguments.
pub proof fn lemma_only_owner_administers(
    update: UpdateUserPoints,
    points: u64,
    withdraw: WithdrawTokens,
    amount: u64,
)
    ensures
        update.config.owner != update.owner ==> {
            &&& add_user_points_error(update, points) == Some(ExchangeError::NotOwner)
            &&& sub_user_points_error(update, points) == Some(ExchangeError::NotOwner)
        },
        withdraw.config.owner != withdraw.owner ==> withdraw_error(withdraw, amount) == Some(
            ExchangeError::NotOwner,
        ),
{
}

/// A points account that belongs to someone keeps belonging to them: every
/// credit, debit or exchange that goes through on it leaves its owner as it
/// was, and one that goes through was made for that owner.
pub proof fn lemma_points_owner_is_permanent(
    update: UpdateUserPoints,
    points: u64,
    exchange: ExchangePoints,
    now: i64,
)
    ensures
        !is_default_key(update.user_points.owner) && add_user_points_error(update, points) is None
            ==> {
            &&& update.user == update.user_points.owner
            &&& credited(update.user_points, update.user, points).owner
                == update.user_points.owner
        },
        !is_default_key(update.user_points.owner) && sub_user_points_error(update, points) is None
            ==> {
            &&& update.user == update.user_points.owner
            &&& debited(update.user_points, update.user, points).owner
                == update.user_points.owner
        },
        !is_default_key(exchange.user_points.owner) && exchange_error(exchange) is None ==> {
            &&& exchange.user == exchange.user_points.owner
            &&& after_exchange(exchange, now).user_points.owner == exchange.user_points.owner
        },
{
}

/// Every exchange that goes through takes the current counter as its id and
/// raises the counter by one, so the next exchange gets the next id: no two
/// exchanges share an id or a record.
pub proof fn lemma_exchange_ids_are_sequential(
    first: ExchangePoints,
    now1: i64,
    second: ExchangePoints,
    now2: i64,
)
    requires
        exchange_error(first) is None,
        first.config.exchange_counter < u64::MAX,
        second.config == after_exchange(first, now1).config,
    ensures
        after_exchange(first, now1).config.exchange_counter == first.config.exchange_counter + 1,
        after_exchange(first, now1).exchange_record.exchange_id == first.config.exchange_counter,
        exchange_event(second, now2).exchange_id == exchange_event(first, now1).exchange_id + 1,
        after_exchange(second, now2).exchange_record.exchange_id == after_exchange(
            first,
            now1,
        ).exchange_record.exchange_id + 1,
{
}

/// While the exchange is paused, every exchange on a written configuration
/// is refused with `ExchangePaused`; once resumed, the pause refuses none.
pub proof fn lemma_pause_blocks_exchange(ctx: ExchangePoints)
    ensures
        config_ready(ctx.config) && ctx.config.is_paused ==> exchange_error(ctx) == Some(
            ExchangeError::ExchangePaused,
        ),
        !ctx.config.is_paused ==> exchange_error(ctx) != Some(ExchangeError::ExchangePaused),
{
}

/// An exchange that goes through moves exactly `points_per_exchange` points
/// out of the user's balance, pays exactly `atx_per_exchange` token units
/// (the amount of the transfer that `exchange_transfer` asks for), and its
/// record and announcement say exactly that.
pub proof fn lemma_exchange_conserves(ctx: ExchangePoints, now: i64)
    requires
        exchange_error(ctx) is None,
    ensures
        ({
            let after = after_exchange(ctx, now);
            let event = exchange_event(ctx, now);
            &&& claimed(ctx.user_points, ctx.user).points - after.user_points.points
                == ctx.config.points_per_exchange
            &&& after.exchange_record.points_used == ctx.config.points_per_exchange
            &&& after.exchange_record.atx_received == ctx.config.atx_per_exchange
            &&& after.exchange_record.user == ctx.user
            &&& event.points_used == after.exchange_record.points_used
            &&& event.atx_received == after.exchange_record.atx_received
            &&& event.exchange_id == after.exchange_record.exchange_id
            &&& event.timestamp == after.exchange_record.timestamp
            &&& after.user_points.exchange_count == claimed(
                ctx.user_points,
                ctx.user,
            ).exchange_count + 1
        }),
{
}

/// Under the configuration that `initialize_config` writes for a mint with 3
/// to 22 `decimals`, 1000 points buy 0.001 token of that mint: a user with
/// fewer than 1000 points is refused with `InsufficientPoints`, and an
/// exchange that goes through debits 1000 points and pays 0.001 whole token
/// (a thousand such payouts make one whole token).
pub proof fn lemma_configured_rate(
    owner: PublicKey,
    atx_mint: PublicKey,
    decimals: u8,
    ctx: ExchangePoints,
    now: i64,
)
    requires
        !is_default_key(owner),
        !is_default_key(atx_mint),
        decimals_supported(decimals),
        ctx.config == initial_config(owner, atx_mint, decimals),
    ensures
        1000 * ctx.config.atx_per_exchange == whole_token(decimals),
        ctx.atx_mint == atx_mint && claimed(ctx.user_points, ctx.user).owner == ctx.user && claimed(
            ctx.user_points,
            ctx.user,
        ).points < 1000 ==> exchange_error(ctx) == Some(ExchangeError::InsufficientPoints),
        exchange_error(ctx) is None ==> {
            &&& after_exchange(ctx, now).exchange_record.points_used == 1000
            &&& 1000 * after_exchange(ctx, now).exchange_record.atx_received == whole_token(
                decimals,
            )
            &&& after_exchange(ctx, now).user_points.points == claimed(
                ctx.user_points,
                ctx.user,
            ).points - 1000
        },
{
    lemma_thousandth_scales(decimals);
}

/// No instruction but an exchange moves the exchange counter: credits,
/// debits and pause changes leave the configuration's counter (and every
/// setting but the pause flag) as it was.
pub proof fn lemma_counter_moves_only_by_exchange(
    update: UpdateUserPoints,
    points: u64,
    config: GlobalConfig,
    is_paused: bool,
)
    ensures
        (UpdateUserPoints {
            user_points: credited(update.user_points, update.user, points),
            ..update
        }).config == update.config,
        (UpdateUserPoints {
            user_points: debited(update.user_points, update.user, points),
            ..update
        }).config == update.config,
        (GlobalConfig { is_paused, ..config }).exchange_counter == config.exchange_counter,
        (GlobalConfig { is_paused, ..config }).points_per_exchange == config.points_per_exchange,
        (GlobalConfig { is_paused, ..config }).atx_per_exchange == config.atx_per_exchange,
{
}

/// The seeds of an account, hashed as one byte string (the runtime hashes
/// the seeds one after the other, so only their concatenation counts).
pub open spec fn seed_bytes(seeds: Seq<Seq<u8>>) -> Seq<u8> {
    seeds.flatten()
}

proof fn lemma_seed_bytes_of_two(a: Seq<u8>, b: Seq<u8>)
    ensures
        seed_bytes(seq![a, b]) == a + b,
{
    let s = seq![a, b];
    assert(s.drop_first() =~= seq![b]);
    assert(seq![b].drop_first() =~= Seq::<Seq<u8>>::empty());
    reveal_with_fuel(Seq::flatten, 3);
    assert(seq![b].flatten() =~= b);
}

proof fn lemma_seed_bytes_of_one(a: Seq<u8>)
    ensures
        seed_bytes(seq![a]) == a,
{
    assert(seq![a].drop_first() =~= Seq::<Seq<u8>>::empty());
    reveal_with_fuel(Seq::flatten, 2);
    assert(seq![a].flatten() =~= a);
}

/// Different users have points accounts with different seed bytes, so the
/// runtime never derives one account for two users.
pub proof fn lemma_user_points_seeds_distinct(user1: PublicKey, user2: PublicKey)
    requires
        user1 != user2,
    ensures
        seed_bytes(user_points_seeds_spec(user1)) != seed_bytes(user_points_seeds_spec(user2)),
{
    let prefix = crate::state::UserPoints::SEED_PREFIX@;
    lemma_seed_bytes_of_two(prefix, user1@);
    lemma_seed_bytes_of_two(prefix, user2@);
    assert(user1@ != user2@) by {
        if user1@ == user2@ {
            assert(user1.bytes =~= user2.bytes);
        }
    }
    assert(!(user1@ =~= user2@));
    let i = choose|i: int| 0 <= i < 32 && user1@[i] != user2@[i];
    assert((prefix + user1@)[prefix.len() + i] == user1@[i]);
    assert((prefix + user2@)[prefix.len() + i] == user2@[i]);
}

/// Different exchange ids have record accounts with different seed bytes,
/// so every exchange gets a record account of its own.
pub proof fn lemma_exchange_record_seeds_distinct(id1: u64, id2: u64)
    requires
        id1 != id2,
    ensures
        seed_bytes(exchange_record_seeds_spec(id1)) != seed_bytes(exchange_record_seeds_spec(id2)),
{
    let prefix = crate::state::ExchangeRecord::SEED_PREFIX@;
    let b1 = vstd::bytes::spec_u64_to_le_bytes(id1);
    let b2 = vstd::bytes::spec_u64_to_le_bytes(id2);
    vstd::bytes::lemma_auto_spec_u64_to_from_le_bytes();
    lemma_seed_bytes_of_two(prefix, b1);
    lemma_seed_bytes_of_two(prefix, b2);
    if prefix + b1 == prefix + b2 {
        assert(b1 =~= (prefix + b1).subrange(prefix.len() as int, (prefix + b1).len() as int));
        assert(b2 =~= (prefix + b2).subrange(prefix.len() as int, (prefix + b2).len() as int));
    }
}

/// The configuration, a points account, an exchange record and the vault
/// authority never share seed bytes: each kind of account has seed bytes of
/// its own length.
pub proof fn lemma_account_kinds_seeds_distinct(
    user: PublicKey,
    exchange_id: u64,
    config_address: PublicKey,
)
    ensures
        seed_bytes(config_seeds_spec()).len() == 13,
        seed_bytes(user_points_seeds_spec(user)).len() == 43,
        seed_bytes(exchange_record_seeds_spec(exchange_id)).len() == 23,
        seed_bytes(vault_authority_seeds_spec(config_address)).len() == 47,
{
    vstd::bytes::lemma_auto_spec_u64_to_from_le_bytes();
    lemma_seed_bytes_of_one(GlobalConfig::SEED_PREFIX@);
    lemma_seed_bytes_of_two(crate::state::UserPoints::SEED_PREFIX@, user@);
    lemma_seed_bytes_of_two(
        crate::state::ExchangeRecord::SEED_PREFIX@,
        vstd::bytes::spec_u64_to_le_bytes(exchange_id),
    );
    lemma_seed_bytes_of_two(crate::state::VaultAuthority::SEED_PREFIX@, config_address@);
}

} // verus!

verus! {

/// The settings that no instruction after `initialize_config` changes.
pub open spec fn same_settings(a: GlobalConfig, b: GlobalConfig) -> bool {
    &&& a.owner == b.owner
    &&& a.atx_mint == b.atx_mint
    &&& a.points_per_exchange == b.points_per_exchange
    &&& a.atx_per_exchange == b.atx_per_exchange
}

/// Over any sequence of instructions, the owner, the mint, the points per
/// exchange and the payout stay as they were: only the pause flag and the
/// exchange counter ever change in the configuration.
pub proof fn lemma_settings_persist(s: ProgramState, ops: Seq<Instruction>)
    ensures
        same_settings(run(s, ops).config, s.config),
        config_ready(run(s, ops).config) == config_ready(s.config),
    decreases ops.len(),
{
    if ops.len() > 0 {
        lemma_settings_persist(apply(s, ops[0]), ops.drop_first());
    }
}

/// After `initialize_config` went through, and any instructions after it,
/// the configuration is still ready (`require_config_ready` accepts it) and
/// keeps the owner, the mint, 1000 points per exchange and the payout it
/// wrote (0.001 whole token for a mint with 3 to 22 decimals).
pub proof fn lemma_initialized_settings_persist(
    owner: PublicKey,
    atx_mint: PublicKey,
    decimals: u8,
    ops: Seq<Instruction>,
)
    requires
        !is_default_key(owner),
        !is_default_key(atx_mint),
    ensures
        ({
            let config = run(initial_state(owner, atx_mint, decimals), ops).config;
            &&& config_ready(config)
            &&& config.owner == owner
            &&& config.atx_mint == atx_mint
            &&& config.points_per_exchange == 1000
            &&& config.atx_per_exchange == payout_for(decimals)
            &&& decimals_supported(decimals) ==> 1000 * config.atx_per_exchange == whole_token(
                decimals,
            )
        }),
{
    lemma_settings_persist(initial_state(owner, atx_mint, decimals), ops);
    if decimals_supported(decimals) {
        lemma_thousandth_scales(decimals);
    }
}

/// Over any sequence of instructions, the exchange counter rises by exactly
/// the number of exchanges that went through; each new id in between has
/// its record, carrying that id; and every other record is left as it was.
pub proof fn lemma_counter_counts_exchanges(s: ProgramState, ops: Seq<Instruction>)
    ensures
        run(s, ops).config.exchange_counter == s.config.exchange_counter + successful_exchanges(
            s,
            ops,
        ),
        forall|id: u64|
            s.config.exchange_counter <= id < run(s, ops).config.exchange_counter ==> {
                &&& #[trigger] run(s, ops).records.contains_key(id)
                &&& run(s, ops).records[id].exchange_id == id
            },
        forall|id: u64|
            !(s.config.exchange_counter <= id < run(s, ops).config.exchange_counter) ==> {
                &&& #[trigger] run(s, ops).records.contains_key(id) == s.records.contains_key(id)
                &&& s.records.contains_key(id) ==> run(s, ops).records[id] == s.records[id]
            },
    decreases ops.len(),
{
    if ops.len() > 0 {
        let s1 = apply(s, ops[0]);
        lemma_counter_counts_exchanges(s1, ops.drop_first());
        let r = run(s, ops);
        assert(r == run(s1, ops.drop_first()));
        if is_successful_exchange(s, ops[0]) {
            assert(s1.config.exchange_counter == s.config.exchange_counter + 1);
            assert(s1.records.contains_key(s.config.exchange_counter));
            assert(s1.records[s.config.exchange_counter].exchange_id == s.config.exchange_counter);
            assert forall|id: u64|
                s.config.exchange_counter <= id < r.config.exchange_counter implies {
                    &&& #[trigger] r.records.contains_key(id)
                    &&& r.records[id].exchange_id == id
                } by {
                if id == s.config.exchange_counter {
                    assert(!(s1.config.exchange_counter <= id < r.config.exchange_counter));
                    assert(r.records.contains_key(id) == s1.records.contains_key(id));
                }
            }
            assert forall|id: u64|
                !(s.config.exchange_counter <= id < r.config.exchange_counter) implies {
                    &&& #[trigger] r.records.contains_key(id) == s.records.contains_key(id)
                    &&& s.records.contains_key(id) ==> r.records[id] == s.records[id]
                } by {
                assert(!(s1.config.exchange_counter <= id < r.config.exchange_counter));
                assert(r.records.contains_key(id) == s1.records.contains_key(id));
                assert(id != s.config.exchange_counter);
            }
        } else {
            assert(s1.config.exchange_counter == s.config.exchange_counter);
            assert(s1.records == s.records);
        }
    }
}

/// Over any sequence of instructions, the exchanges pay out exactly one
/// payout per exchange that went through: the token units paid equal the
/// rise of the exchange counter times `atx_per_exchange`.
pub proof fn lemma_tokens_paid(s: ProgramState, ops: Seq<Instruction>)
    ensures
        tokens_paid(s, ops) == successful_exchanges(s, ops) * s.config.atx_per_exchange,
        tokens_paid(s, ops) == (run(s, ops).config.exchange_counter - s.config.exchange_counter)
            * s.config.atx_per_exchange,
    decreases ops.len(),
{
    lemma_counter_counts_exchanges(s, ops);
    if ops.len() > 0 {
        let s1 = apply(s, ops[0]);
        lemma_tokens_paid(s1, ops.drop_first());
        assert(s1.config.atx_per_exchange == s.config.atx_per_exchange);
        let n = successful_exchanges(s1, ops.drop_first());
        let a = s.config.atx_per_exchange as nat;
        assert((n + 1) * a == n * a + a) by (nonlinear_arith);
    } else {
        assert(0 * (s.config.atx_per_exchange as nat) == 0) by (nonlinear_arith);
    }
}

/// From the state that `initialize_config` leaves, after any instructions:
/// the exchange counter is the number of exchanges that went through, the
/// records are exactly those of ids `0 .. counter`, each carries its own id,
/// and no two records share an id.
pub proof fn lemma_records_match_counter(
    owner: PublicKey,
    atx_mint: PublicKey,
    decimals: u8,
    ops: Seq<Instruction>,
)
    ensures
        ({
            let s = initial_state(owner, atx_mint, decimals);
            let r = run(s, ops);
            &&& r.config.exchange_counter == successful_exchanges(s, ops)
            &&& forall|id: u64| #[trigger]
                r.records.contains_key(id) <==> id < r.config.exchange_counter
            &&& forall|id: u64| #[trigger]
                r.records.contains_key(id) ==> r.records[id].exchange_id == id
            &&& forall|i: u64, j: u64|
                #[trigger] r.records.contains_key(i) && #[trigger] r.records.contains_key(j) && i
                    != j ==> r.records[i].exchange_id != r.records[j].exchange_id
        }),
{
    let s = initial_state(owner, atx_mint, decimals);
    lemma_counter_counts_exchanges(s, ops);
    let r = run(s, ops);
    assert forall|id: u64| #[trigger] r.records.contains_key(id) <==> id < r.config.exchange_counter by {
        if !(id < r.config.exchange_counter) {
            assert(!(s.config.exchange_counter <= id < r.config.exchange_counter));
        } else {
            assert(s.config.exchange_counter <= id < r.config.exchange_counter);
        }
    }
}

/// `k` exchanges in a row by one user (who owns the points account, or
/// whose account is fresh), each with its transfer going through, on a
/// ready, open configuration, with at least `k * points_per_exchange` points
/// and room in both counters: all `k` go through; the user's points fall by
/// `k * points_per_exchange`; the user's exchange count and the exchange
/// counter rise by `k`; and the records of ids `counter .. counter + k`
/// each say that the user paid `points_per_exchange` points for
/// `atx_per_exchange` token units, at the time of that exchange.
pub proof fn lemma_repeated_exchanges(
    s: ProgramState,
    user: PublicKey,
    atx_mint: PublicKey,
    times: Seq<i64>,
)
    requires
        !is_default_key(user),
        points_of(s, user).owner == user || points_of(s, user) == fresh_points(),
        config_ready(s.config),
        !s.config.is_paused,
        atx_mint == s.config.atx_mint,
        claimed_points_of(s, user).points >= times.len() * s.config.points_per_exchange,
        claimed_points_of(s, user).exchange_count + times.len() <= u64::MAX,
        s.config.exchange_counter + times.len() <= u64::MAX,
    ensures
        ({
            let k = times.len();
            let ops = exchanges_of(user, atx_mint, times);
            let r = run(s, ops);
            &&& successful_exchanges(s, ops) == k
            &&& tokens_paid(s, ops) == k * s.config.atx_per_exchange
            &&& points_of(r, user).points == claimed_points_of(s, user).points - k
                * s.config.points_per_exchange
            &&& points_of(r, user).exchange_count == claimed_points_of(s, user).exchange_count + k
            &&& r.config.exchange_counter == s.config.exchange_counter + k
            &&& forall|i: int|
                0 <= i < k ==> #[trigger] r.records[(s.config.exchange_counter + i) as u64]
                    == ExchangeRecord {
                    user,
                    points_used: s.config.points_per_exchange,
                    atx_received: s.config.atx_per_exchange,
                    timestamp: times[i],
                    exchange_id: (s.config.exchange_counter + i) as u64,
                }
        }),
    decreases times.len(),
{
    let k = times.len();
    let ops = exchanges_of(user, atx_mint, times);
    let ppe = s.config.points_per_exchange;
    lemma_tokens_paid(s, ops);
    if k == 0 {
        assert(ops.len() == 0);
        assert(is_default_key(fresh_points().owner));
        assert(run(s, ops) == s);
        assert(k * ppe == 0) by (nonlinear_arith)
            requires
                k == 0,
        ;
    } else {
        assert(is_default_key(fresh_points().owner));
        let rest = times.drop_first();
        assert(forall|j: int| 0 <= j < rest.len() ==> #[trigger] rest[j] == times[j + 1]);
        assert(ops.drop_first() =~= exchanges_of(user, atx_mint, rest));
        let p = claimed_points_of(s, user).points;
        assert(k * ppe == (k - 1) * ppe + ppe) by (nonlinear_arith);
        assert((k - 1) * ppe >= 0) by (nonlinear_arith)
            requires
                k >= 1,
        ;
        let ins = ops[0];
        assert(ins == Instruction::ExchangePoints { user, atx_mint, now: times[0], transfer_ok: true });
        let ctx = exchange_accounts(s, user, atx_mint);
        assert(exchange_error(ctx) is None);
        let s1 = apply(s, ins);
        let after = after_exchange(ctx, times[0]);
        assert(s1.user_points[user] == after.user_points);
        assert(points_of(s1, user) == after.user_points);
        assert(claimed_points_of(s1, user) == after.user_points);
        lemma_repeated_exchanges(s1, user, atx_mint, rest);
        lemma_counter_counts_exchanges(s1, exchanges_of(user, atx_mint, rest));
        let r = run(s, ops);
        assert(r == run(s1, exchanges_of(user, atx_mint, rest)));
        assert(s1.config.exchange_counter == s.config.exchange_counter + 1);
        assert(successful_exchanges(s, ops) == 1 + successful_exchanges(s1, exchanges_of(user, atx_mint, rest)));
        assert(claimed_points_of(s1, user).points == p - ppe);
        assert forall|i: int|
            0 <= i < k implies #[trigger] r.records[(s.config.exchange_counter + i) as u64]
                == ExchangeRecord {
                user,
                points_used: s.config.points_per_exchange,
                atx_received: s.config.atx_per_exchange,
                timestamp: times[i],
                exchange_id: (s.config.exchange_counter + i) as u64,
            } by {
            if i == 0 {
                let id = s.config.exchange_counter;
                assert(!(s1.config.exchange_counter <= id < r.config.exchange_counter));
                assert(s1.records.contains_key(id));
                assert(run(s1, exchanges_of(user, atx_mint, rest)).records.contains_key(id)
                    == s1.records.contains_key(id));
                assert(r.records[id] == s1.records[id]);
            } else {
                let j = i - 1;
                assert(0 <= j < rest.len());
                assert(rest[j] == times[i]);
                assert((s1.config.exchange_counter + j) as u64 == (s.config.exchange_counter
                    + i) as u64);
                assert(r.records[(s1.config.exchange_counter + j) as u64] == ExchangeRecord {
                    user,
                    points_used: s.config.points_per_exchange,
                    atx_received: s.config.atx_per_exchange,
                    timestamp: rest[j],
                    exchange_id: (s1.config.exchange_counter + j) as u64,
                });
            }
        }
    }
}

} // verus!
