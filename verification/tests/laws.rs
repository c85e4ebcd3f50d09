use atx_points_exchange::{
    add_user_points, exchange_points, exchange_transfer, initialize_config, sub_user_points,
    toggle_pause, withdraw_tokens, ExchangeError, ExchangePoints, ExchangeRecord, GlobalConfig,
    InitializeConfig, PublicKey, TogglePause, UpdateUserPoints, UserPoints, WithdrawTokens,
};

fn key(b: u8) -> PublicKey {
    let mut bytes = [0u8; 32];
    bytes[3] = b;
    PublicKey::new_from_array(bytes)
}

fn zero() -> PublicKey {
    PublicKey::default_key()
}

fn config() -> GlobalConfig {
    let blank = GlobalConfig {
        owner: zero(),
        is_paused: false,
        points_per_exchange: 0,
        atx_per_exchange: 0,
        atx_mint: zero(),
        exchange_counter: 0,
    };
    let mut ctx = InitializeConfig { owner: key(1), config: blank, atx_mint: key(2), atx_mint_decimals: 9 };
    initialize_config(&mut ctx).unwrap();
    ctx.config
}

fn fresh_points() -> UserPoints {
    UserPoints { owner: zero(), points: 0, exchange_count: 0, last_exchange_time: 0 }
}

fn blank_record() -> ExchangeRecord {
    ExchangeRecord { user: zero(), points_used: 0, atx_received: 0, timestamp: 0, exchange_id: 0 }
}

fn exchange_ctx(config: GlobalConfig, user_points: UserPoints) -> ExchangePoints {
    ExchangePoints {
        user: key(3),
        config_address: key(10),
        config,
        user_points,
        exchange_record: blank_record(),
        atx_mint: key(2),
        vault_authority: key(11),
        vault_authority_bump: 255,
        vault_token_account: key(12),
        user_token_account: key(13),
    }
}

#[test]
fn add_then_sub_restores_the_account() {
    let held = UserPoints { owner: key(3), points: 42, exchange_count: 3, last_exchange_time: 8 };
    let mut ctx = UpdateUserPoints { owner: key(1), config: config(), user: key(3), user_points: held };
    add_user_points(&mut ctx, 1_000).unwrap();
    sub_user_points(&mut ctx, 1_000).unwrap();
    assert_eq!(ctx.user_points, held);
    sub_user_points(&mut ctx, 42).unwrap();
    add_user_points(&mut ctx, 42).unwrap();
    assert_eq!(ctx.user_points, held);
}

#[test]
fn add_then_sub_on_the_zero_user_starts_over() {
    let mut ctx =
        UpdateUserPoints { owner: key(1), config: config(), user: zero(), user_points: fresh_points() };
    add_user_points(&mut ctx, 10).unwrap();
    assert_eq!(ctx.user_points.points, 10);
    assert_eq!(sub_user_points(&mut ctx, 10), Err(ExchangeError::InsufficientPoints));
}

#[test]
fn only_the_owner_administers() {
    let mut update =
        UpdateUserPoints { owner: key(9), config: config(), user: key(3), user_points: fresh_points() };
    assert_eq!(add_user_points(&mut update, 0), Err(ExchangeError::NotOwner));
    assert_eq!(sub_user_points(&mut update, 5), Err(ExchangeError::NotOwner));
    let mut pause = TogglePause { owner: key(9), config: config() };
    assert_eq!(toggle_pause(&mut pause, true), Err(ExchangeError::NotOwner));
    let withdraw = WithdrawTokens {
        owner: key(9),
        config_address: key(10),
        config: config(),
        atx_mint: key(7),
        vault_authority: key(11),
        vault_authority_bump: 255,
        vault_token_account: key(12),
        owner_token_account: key(14),
    };
    assert_eq!(withdraw_tokens(&withdraw, 0, false), Err(ExchangeError::NotOwner));
}

#[test]
fn a_points_account_keeps_its_owner() {
    let mut ctx =
        UpdateUserPoints { owner: key(1), config: config(), user: key(3), user_points: fresh_points() };
    add_user_points(&mut ctx, 3_000).unwrap();
    assert_eq!(ctx.user_points.owner, key(3));
    let mut ex = exchange_ctx(config(), ctx.user_points);
    exchange_points(&mut ex, 5, true).unwrap();
    assert_eq!(ex.user_points.owner, key(3));
    let mut stranger = UpdateUserPoints { user: key(4), ..ctx };
    assert_eq!(add_user_points(&mut stranger, 1), Err(ExchangeError::UnauthorizedUser));
    assert_eq!(stranger.user_points.owner, key(3));
}

#[test]
fn exchange_ids_are_sequential() {
    let points = UserPoints { owner: key(3), points: 3_000, exchange_count: 0, last_exchange_time: 0 };
    let mut ex = exchange_ctx(config(), points);
    let first = exchange_points(&mut ex, 100, true).unwrap();
    let first_record = ex.exchange_record;
    ex.exchange_record = blank_record();
    let second = exchange_points(&mut ex, 200, true).unwrap();
    assert_eq!(first.exchange_id, 0);
    assert_eq!(second.exchange_id, 1);
    assert_eq!(first_record.exchange_id, 0);
    assert_eq!(ex.exchange_record.exchange_id, 1);
    assert_eq!(ex.config.exchange_counter, 2);
    assert_eq!(ex.user_points.exchange_count, 2);
    assert_eq!(ex.user_points.points, 1_000);
    assert_eq!(ex.user_points.last_exchange_time, 200);
}

#[test]
fn pause_blocks_exchange_and_resume_lifts_it() {
    let points = UserPoints { owner: key(3), points: 3_000, exchange_count: 0, last_exchange_time: 0 };
    let mut pause = TogglePause { owner: key(1), config: config() };
    toggle_pause(&mut pause, true).unwrap();
    let mut ex = exchange_ctx(pause.config, points);
    assert_eq!(exchange_transfer(&ex).unwrap_err(), ExchangeError::ExchangePaused);
    assert_eq!(exchange_points(&mut ex, 1, true), Err(ExchangeError::ExchangePaused));
    toggle_pause(&mut pause, false).unwrap();
    let mut ex = exchange_ctx(pause.config, points);
    assert!(exchange_points(&mut ex, 1, true).is_ok());
}

#[test]
fn exchange_conserves_points_and_tokens() {
    let points = UserPoints { owner: key(3), points: 2_345, exchange_count: 7, last_exchange_time: 0 };
    let mut ex = exchange_ctx(config(), points);
    let transfer = exchange_transfer(&ex).unwrap();
    let event = exchange_points(&mut ex, 77, true).unwrap();
    assert_eq!(points.points - ex.user_points.points, ex.exchange_record.points_used);
    assert_eq!(transfer.amount, ex.exchange_record.atx_received);
    assert_eq!(event.points_used, ex.exchange_record.points_used);
    assert_eq!(event.atx_received, ex.exchange_record.atx_received);
    assert_eq!(event.timestamp, ex.exchange_record.timestamp);
    assert_eq!(ex.exchange_record.user, key(3));
    assert_eq!(ex.user_points.exchange_count, 8);
}

#[test]
fn a_thousand_points_buy_a_thousandth_of_a_token() {
    let short = UserPoints { owner: key(3), points: 999, exchange_count: 0, last_exchange_time: 0 };
    let mut ex = exchange_ctx(config(), short);
    assert_eq!(exchange_points(&mut ex, 1, true), Err(ExchangeError::InsufficientPoints));
    let exact = UserPoints { owner: key(3), points: 1_000, exchange_count: 0, last_exchange_time: 0 };
    let mut ex = exchange_ctx(config(), exact);
    let event = exchange_points(&mut ex, 1, true).unwrap();
    assert_eq!(event.points_used, 1_000);
    assert_eq!(event.atx_received, 1_000_000);
    assert_eq!(ex.user_points.points, 0);
}

#[test]
fn a_thousand_points_buy_a_thousandth_of_a_six_decimal_token() {
    let blank = config();
    let mut init = InitializeConfig {
        owner: key(1),
        config: blank,
        atx_mint: key(2),
        atx_mint_decimals: 6,
    };
    initialize_config(&mut init).unwrap();
    let held = UserPoints { owner: key(3), points: 1_000, exchange_count: 0, last_exchange_time: 0 };
    let mut ex = exchange_ctx(init.config, held);
    let transfer = exchange_transfer(&ex).unwrap();
    assert_eq!(transfer.amount, 1_000);
    let event = exchange_points(&mut ex, 1, true).unwrap();
    assert_eq!(event.atx_received, 1_000);
    assert_eq!(ex.user_points.points, 0);
}

#[test]
fn settings_survive_a_mixed_sequence() {
    let cfg = config();
    let mut update =
        UpdateUserPoints { owner: key(1), config: cfg, user: key(3), user_points: fresh_points() };
    add_user_points(&mut update, 5_000).unwrap();
    let mut pause = TogglePause { owner: key(1), config: update.config };
    toggle_pause(&mut pause, true).unwrap();
    toggle_pause(&mut pause, false).unwrap();
    let mut ex = exchange_ctx(pause.config, update.user_points);
    let mut paid = 0u64;
    for t in 0..3 {
        paid += exchange_transfer(&ex).unwrap().amount;
        exchange_points(&mut ex, t, true).unwrap();
        ex.exchange_record = blank_record();
    }
    assert_eq!(exchange_points(&mut ex, 9, false), Err(ExchangeError::TransferFailed));
    assert_eq!(ex.config.owner, cfg.owner);
    assert_eq!(ex.config.atx_mint, cfg.atx_mint);
    assert_eq!(ex.config.points_per_exchange, cfg.points_per_exchange);
    assert_eq!(ex.config.atx_per_exchange, cfg.atx_per_exchange);
    assert_eq!(ex.config.exchange_counter, 3);
    assert_eq!(ex.user_points.points, 5_000 - 3 * 1_000);
    assert_eq!(ex.user_points.exchange_count, 3);
    assert_eq!(paid, 3 * cfg.atx_per_exchange);
}

#[test]
fn only_exchanges_move_the_counter() {
    let mut cfg = config();
    cfg.exchange_counter = 17;
    let mut update =
        UpdateUserPoints { owner: key(1), config: cfg, user: key(3), user_points: fresh_points() };
    add_user_points(&mut update, 5).unwrap();
    sub_user_points(&mut update, 2).unwrap();
    assert_eq!(update.config, cfg);
    let mut pause = TogglePause { owner: key(1), config: cfg };
    toggle_pause(&mut pause, true).unwrap();
    assert_eq!(pause.config.exchange_counter, 17);
    assert_eq!(pause.config.points_per_exchange, 1_000);
}
