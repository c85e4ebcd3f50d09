use atx_points_exchange::{
    add_user_points, exchange_points, exchange_transfer, initialize_config,
    initialize_user_points_if_needed, require_config_ready, require_owner, sub_user_points,
    toggle_pause, withdraw_tokens, withdraw_transfer, ConfigInitialized, ExchangeError,
    ExchangePoints, ExchangeRecord, GlobalConfig, InitializeConfig, PauseStatusChanged,
    PointsAdjusted, PointsExchanged, PublicKey, TogglePause, TokensWithdrawn, UpdateUserPoints,
    UserPoints, WithdrawTokens,
};

fn key(b: u8) -> PublicKey {
    let mut bytes = [0u8; 32];
    bytes[0] = b;
    bytes[31] = b;
    PublicKey::new_from_array(bytes)
}

fn zero() -> PublicKey {
    PublicKey::default_key()
}

fn blank_config() -> GlobalConfig {
    GlobalConfig {
        owner: zero(),
        is_paused: false,
        points_per_exchange: 0,
        atx_per_exchange: 0,
        atx_mint: zero(),
        exchange_counter: 0,
    }
}

fn fresh_points() -> UserPoints {
    UserPoints { owner: zero(), points: 0, exchange_count: 0, last_exchange_time: 0 }
}

fn blank_record() -> ExchangeRecord {
    ExchangeRecord { user: zero(), points_used: 0, atx_received: 0, timestamp: 0, exchange_id: 0 }
}

const OWNER: u8 = 1;
const MINT: u8 = 2;
const USER: u8 = 3;
const OTHER: u8 = 4;

fn ready_config() -> GlobalConfig {
    let mut ctx = InitializeConfig { owner: key(OWNER), config: blank_config(), atx_mint: key(MINT), atx_mint_decimals: 9 };
    initialize_config(&mut ctx).unwrap();
    ctx.config
}

fn update(points: UserPoints) -> UpdateUserPoints {
    UpdateUserPoints { owner: key(OWNER), config: ready_config(), user: key(USER), user_points: points }
}

fn exchange_ctx(points: u64) -> ExchangePoints {
    ExchangePoints {
        user: key(USER),
        config_address: key(10),
        config: ready_config(),
        user_points: UserPoints {
            owner: key(USER),
            points,
            exchange_count: 0,
            last_exchange_time: 0,
        },
        exchange_record: blank_record(),
        atx_mint: key(MINT),
        vault_authority: key(11),
        vault_authority_bump: 254,
        vault_token_account: key(12),
        user_token_account: key(13),
    }
}

fn withdraw_ctx() -> WithdrawTokens {
    WithdrawTokens {
        owner: key(OWNER),
        config_address: key(10),
        config: ready_config(),
        atx_mint: key(MINT),
        vault_authority: key(11),
        vault_authority_bump: 253,
        vault_token_account: key(12),
        owner_token_account: key(14),
    }
}

fn vault_seeds(config_address: &PublicKey, bump: u8) -> Vec<Vec<u8>> {
    vec![b"vault-authority".to_vec(), config_address.bytes.to_vec(), vec![bump]]
}

#[test]
fn initialize_config_writes_the_default_rate() {
    let mut ctx = InitializeConfig { owner: key(OWNER), config: blank_config(), atx_mint: key(MINT), atx_mint_decimals: 9 };
    let event = initialize_config(&mut ctx).unwrap();
    assert_eq!(
        ctx.config,
        GlobalConfig {
            owner: key(OWNER),
            is_paused: false,
            points_per_exchange: 1_000,
            atx_per_exchange: 1_000_000,
            atx_mint: key(MINT),
            exchange_counter: 0,
        }
    );
    assert_eq!(
        event,
        ConfigInitialized {
            owner: key(OWNER),
            atx_mint: key(MINT),
            points_per_exchange: 1_000,
            atx_per_exchange: 1_000_000,
        }
    );
}

#[test]
fn initialize_config_refuses_zero_addresses() {
    let mut ctx = InitializeConfig { owner: zero(), config: blank_config(), atx_mint: key(MINT), atx_mint_decimals: 9 };
    assert_eq!(initialize_config(&mut ctx), Err(ExchangeError::InvalidAddress));
    assert_eq!(ctx.config, blank_config());
    let mut ctx = InitializeConfig { owner: key(OWNER), config: blank_config(), atx_mint: zero(), atx_mint_decimals: 9 };
    assert_eq!(initialize_config(&mut ctx), Err(ExchangeError::InvalidAddress));
    assert_eq!(ctx.config, blank_config());
}

#[test]
fn initialize_config_pays_a_thousandth_of_the_mints_token() {
    for (decimals, units) in [
        (3u8, 1u64),
        (6, 1_000),
        (9, 1_000_000),
        (18, 1_000_000_000_000_000),
        (22, 10_000_000_000_000_000_000),
    ] {
        let mut ctx = InitializeConfig {
            owner: key(OWNER),
            config: blank_config(),
            atx_mint: key(MINT),
            atx_mint_decimals: decimals,
        };
        let event = initialize_config(&mut ctx).unwrap();
        assert_eq!(ctx.config.atx_per_exchange, units);
        assert_eq!(event.atx_per_exchange, units);
        assert_eq!(ctx.config.points_per_exchange, 1_000);
        assert_eq!(
            1000u128 * units as u128,
            10u128.pow(decimals as u32),
            "1000 payouts make one whole token"
        );
    }
}

#[test]
fn initialize_config_keeps_the_default_payout_for_other_decimals() {
    for decimals in [0u8, 2, 23, 255] {
        let mut ctx = InitializeConfig {
            owner: key(OWNER),
            config: blank_config(),
            atx_mint: key(MINT),
            atx_mint_decimals: decimals,
        };
        let event = initialize_config(&mut ctx).unwrap();
        assert_eq!(ctx.config.atx_per_exchange, 1_000_000);
        assert_eq!(event.atx_per_exchange, 1_000_000);
        assert_eq!(ctx.config.points_per_exchange, 1_000);
    }
    let mut ctx =
        InitializeConfig { owner: zero(), config: blank_config(), atx_mint: key(MINT), atx_mint_decimals: 2 };
    assert_eq!(initialize_config(&mut ctx), Err(ExchangeError::InvalidAddress));
}

#[test]
fn add_user_points_claims_a_fresh_account() {
    let mut ctx = update(fresh_points());
    let event = add_user_points(&mut ctx, 250).unwrap();
    assert_eq!(
        ctx.user_points,
        UserPoints { owner: key(USER), points: 250, exchange_count: 0, last_exchange_time: 0 }
    );
    assert_eq!(
        event,
        PointsAdjusted { user: key(USER), operator: key(OWNER), delta: 250, new_balance: 250 }
    );
    let event = add_user_points(&mut ctx, 50).unwrap();
    assert_eq!(event.new_balance, 300);
    assert_eq!(ctx.user_points.points, 300);
}

#[test]
fn add_user_points_refusals() {
    let mut ctx = update(fresh_points());
    ctx.owner = key(OTHER);
    assert_eq!(add_user_points(&mut ctx, 5), Err(ExchangeError::NotOwner));
    assert_eq!(ctx.user_points, fresh_points());

    let mut ctx = update(fresh_points());
    assert_eq!(add_user_points(&mut ctx, 0), Err(ExchangeError::InvalidPointsAmount));

    let taken = UserPoints { owner: key(OTHER), points: 7, exchange_count: 1, last_exchange_time: 9 };
    let mut ctx = update(taken);
    assert_eq!(add_user_points(&mut ctx, 5), Err(ExchangeError::UnauthorizedUser));
    assert_eq!(ctx.user_points, taken);

    let full = UserPoints { owner: key(USER), points: u64::MAX - 1, exchange_count: 0, last_exchange_time: 0 };
    let mut ctx = update(full);
    assert_eq!(add_user_points(&mut ctx, 2), Err(ExchangeError::MathOverflow));
    assert_eq!(ctx.user_points, full);
    assert_eq!(add_user_points(&mut ctx, 1).unwrap().new_balance, u64::MAX);
}

#[test]
fn sub_user_points_debits_and_refuses_overdraft() {
    let held = UserPoints { owner: key(USER), points: 100, exchange_count: 2, last_exchange_time: 5 };
    let mut ctx = update(held);
    let event = sub_user_points(&mut ctx, 40).unwrap();
    assert_eq!(
        event,
        PointsAdjusted { user: key(USER), operator: key(OWNER), delta: -40, new_balance: 60 }
    );
    assert_eq!(ctx.user_points, UserPoints { points: 60, ..held });
    assert_eq!(sub_user_points(&mut ctx, 61), Err(ExchangeError::InsufficientPoints));
    assert_eq!(ctx.user_points.points, 60);
    assert_eq!(sub_user_points(&mut ctx, 60).unwrap().new_balance, 0);

    let mut ctx = update(fresh_points());
    assert_eq!(sub_user_points(&mut ctx, 1), Err(ExchangeError::InsufficientPoints));
    assert_eq!(ctx.user_points, fresh_points());
    let mut ctx = update(held);
    assert_eq!(sub_user_points(&mut ctx, 0), Err(ExchangeError::InvalidPointsAmount));
    ctx.owner = key(OTHER);
    assert_eq!(sub_user_points(&mut ctx, 1), Err(ExchangeError::NotOwner));
    let mut ctx = update(held);
    ctx.user = key(OTHER);
    assert_eq!(sub_user_points(&mut ctx, 1), Err(ExchangeError::UnauthorizedUser));
}

#[test]
fn toggle_pause_sets_the_flag() {
    let mut ctx = TogglePause { owner: key(OWNER), config: ready_config() };
    let event = toggle_pause(&mut ctx, true).unwrap();
    assert_eq!(event, PauseStatusChanged { operator: key(OWNER), is_paused: true });
    assert!(ctx.config.is_paused);
    assert_eq!(ctx.config, GlobalConfig { is_paused: true, ..ready_config() });
    toggle_pause(&mut ctx, false).unwrap();
    assert_eq!(ctx.config, ready_config());

    let mut ctx = TogglePause { owner: key(OTHER), config: ready_config() };
    assert_eq!(toggle_pause(&mut ctx, true), Err(ExchangeError::NotOwner));
    assert!(!ctx.config.is_paused);
}

#[test]
fn exchange_points_moves_points_and_writes_the_record() {
    let mut ctx = exchange_ctx(1_500);
    let transfer = exchange_transfer(&ctx).unwrap();
    assert_eq!(transfer.from, key(12));
    assert_eq!(transfer.to, key(13));
    assert_eq!(transfer.authority, key(11));
    assert_eq!(transfer.amount, 1_000_000);
    assert_eq!(transfer.signer_seeds, vault_seeds(&key(10), 254));

    let event = exchange_points(&mut ctx, 1_700_000_000, true).unwrap();
    assert_eq!(
        event,
        PointsExchanged {
            exchange_id: 0,
            user: key(USER),
            points_used: 1_000,
            atx_received: 1_000_000,
            timestamp: 1_700_000_000,
        }
    );
    assert_eq!(
        ctx.user_points,
        UserPoints { owner: key(USER), points: 500, exchange_count: 1, last_exchange_time: 1_700_000_000 }
    );
    assert_eq!(ctx.config.exchange_counter, 1);
    assert_eq!(
        ctx.exchange_record,
        ExchangeRecord {
            user: key(USER),
            points_used: 1_000,
            atx_received: 1_000_000,
            timestamp: 1_700_000_000,
            exchange_id: 0,
        }
    );
}

#[test]
fn exchange_points_refusals_in_order() {
    let mut ctx = exchange_ctx(5_000);
    ctx.config = blank_config();
    assert_eq!(exchange_transfer(&ctx).unwrap_err(), ExchangeError::ConfigNotInitialized);
    assert_eq!(exchange_points(&mut ctx, 1, true), Err(ExchangeError::ConfigNotInitialized));

    let mut ctx = exchange_ctx(5_000);
    ctx.config.atx_mint = zero();
    assert_eq!(exchange_points(&mut ctx, 1, true), Err(ExchangeError::ConfigNotInitialized));

    let mut ctx = exchange_ctx(5_000);
    ctx.config.is_paused = true;
    ctx.atx_mint = key(OTHER);
    assert_eq!(exchange_points(&mut ctx, 1, true), Err(ExchangeError::ExchangePaused));

    let mut ctx = exchange_ctx(5_000);
    ctx.atx_mint = key(OTHER);
    assert_eq!(exchange_transfer(&ctx).unwrap_err(), ExchangeError::InvalidMint);
    assert_eq!(exchange_points(&mut ctx, 1, true), Err(ExchangeError::InvalidMint));

    let mut ctx = exchange_ctx(5_000);
    ctx.user = key(OTHER);
    assert_eq!(exchange_points(&mut ctx, 1, true), Err(ExchangeError::UnauthorizedUser));

    let mut ctx = exchange_ctx(999);
    assert_eq!(exchange_transfer(&ctx).unwrap_err(), ExchangeError::InsufficientPoints);
    assert_eq!(exchange_points(&mut ctx, 1, true), Err(ExchangeError::InsufficientPoints));

    let mut ctx = exchange_ctx(5_000);
    ctx.user_points.exchange_count = u64::MAX;
    assert_eq!(exchange_points(&mut ctx, 1, true), Err(ExchangeError::MathOverflow));

    let before = exchange_ctx(5_000);
    let mut ctx = before;
    assert_eq!(exchange_points(&mut ctx, 1, false), Err(ExchangeError::TransferFailed));
    assert_eq!(ctx, before);

    let mut before = exchange_ctx(5_000);
    before.config.exchange_counter = u64::MAX;
    let mut ctx = before;
    assert!(exchange_transfer(&ctx).is_ok());
    assert_eq!(exchange_points(&mut ctx, 1, true), Err(ExchangeError::MathOverflow));
    assert_eq!(ctx, before);
}

#[test]
fn exchange_points_on_a_fresh_account_is_insufficient() {
    let mut ctx = exchange_ctx(0);
    ctx.user_points = fresh_points();
    assert_eq!(exchange_points(&mut ctx, 1, true), Err(ExchangeError::InsufficientPoints));
    assert_eq!(ctx.user_points, fresh_points());
}

#[test]
fn withdraw_tokens_pays_the_owner() {
    let ctx = withdraw_ctx();
    let transfer = withdraw_transfer(&ctx, 42).unwrap();
    assert_eq!(transfer.from, key(12));
    assert_eq!(transfer.to, key(14));
    assert_eq!(transfer.authority, key(11));
    assert_eq!(transfer.amount, 42);
    assert_eq!(transfer.signer_seeds, vault_seeds(&key(10), 253));
    assert_eq!(
        withdraw_tokens(&ctx, 42, true),
        Ok(TokensWithdrawn { operator: key(OWNER), amount: 42 })
    );
    assert_eq!(withdraw_tokens(&ctx, 42, false), Err(ExchangeError::TransferFailed));
}

#[test]
fn withdraw_tokens_refusals() {
    let mut ctx = withdraw_ctx();
    ctx.owner = key(OTHER);
    assert_eq!(withdraw_tokens(&ctx, 1, true), Err(ExchangeError::NotOwner));
    assert_eq!(withdraw_transfer(&ctx, 1).unwrap_err(), ExchangeError::NotOwner);
    let ctx = withdraw_ctx();
    assert_eq!(withdraw_tokens(&ctx, 0, true), Err(ExchangeError::InvalidTokenAmount));
    let mut ctx = withdraw_ctx();
    ctx.atx_mint = key(OTHER);
    assert_eq!(withdraw_tokens(&ctx, 1, true), Err(ExchangeError::InvalidMint));
}

#[test]
fn checks_on_their_own() {
    let config = ready_config();
    assert_eq!(require_owner(&config, &key(OWNER)), Ok(()));
    assert_eq!(require_owner(&config, &key(OTHER)), Err(ExchangeError::NotOwner));
    assert_eq!(require_config_ready(&config), Ok(()));
    assert_eq!(require_config_ready(&blank_config()), Err(ExchangeError::ConfigNotInitialized));

    let mut points = fresh_points();
    points.points = 77;
    assert_eq!(initialize_user_points_if_needed(&mut points, key(USER)), Ok(()));
    assert_eq!(points, UserPoints { owner: key(USER), points: 0, exchange_count: 0, last_exchange_time: 0 });
    points.points = 5;
    assert_eq!(initialize_user_points_if_needed(&mut points, key(USER)), Ok(()));
    assert_eq!(points.points, 5);
    assert_eq!(
        initialize_user_points_if_needed(&mut points, key(OTHER)),
        Err(ExchangeError::UnauthorizedUser)
    );
    assert_eq!(points.owner, key(USER));
}

#[test]
fn public_key_helpers() {
    assert!(zero().is_default());
    assert!(!key(1).is_default());
    let mut last = [0u8; 32];
    last[31] = 1;
    assert!(!PublicKey::new_from_array(last).is_default());
    assert!(key(5).same_as(&key(5)));
    assert!(!key(5).same_as(&key(6)));
    assert!(!PublicKey::new_from_array(last).same_as(&zero()));
    assert_eq!(key(9).to_bytes()[31], 9);
}
