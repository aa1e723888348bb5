use gold_rush::address::{bet_address, Address};
use gold_rush::constants::{BetDirection, BetStatus, ContractStatus, MarketType, RoundStatus};
use gold_rush::error::GoldRushError;
use gold_rush::instructions::{
    cancel_round, create_round, emergency_pause, emergency_unpause, initialize, pause_program,
    place_bet, start_round, unpause_program, update_config, CancelRound, CreateRound, EmergencyPause,
    EmergencyUnpause, Initialize, PauseProgram, PlaceBet, StartRound, UnpauseProgram, UpdateConfig,
};
use gold_rush::state::{Bet, Config, OraclePrice, PriceUpdate, RecordHandle, Round};

fn addr(n: u8) -> Address {
    Address::new([n; 32])
}

fn admin() -> Address {
    addr(1)
}

fn keeper() -> Address {
    addr(2)
}

fn treasury() -> Address {
    addr(3)
}

fn program() -> Address {
    addr(9)
}

fn round_key() -> Address {
    addr(20)
}

fn init(keepers: Vec<Address>, fee: u16, min_bet: u64, window: i64, min_tf: u16, max_tf: u16, df: u16) -> Result<Config, GoldRushError> {
    initialize::handler(
        &Initialize { signer: admin(), bump: 255 },
        keepers,
        addr(4),
        treasury(),
        [7u8; 32],
        60,
        fee,
        300,
        min_bet,
        window,
        min_tf,
        max_tf,
        df,
    )
}

fn config() -> Config {
    init(vec![keeper()], 500, 10, 10, 500, 10_000, 10_000).unwrap()
}

fn active_with_bets(stakes: &[u64]) -> (Config, Round, Vec<Bet>) {
    let mut ctx = CreateRound { signer: admin(), config: config(), vault: addr(21), vault_bump: 1, bump: 1, now: 0 };
    let round = create_round::handler(&mut ctx, MarketType::SingleAsset, 100, 1_100).unwrap();
    let mut ctx = StartRound {
        signer: keeper(),
        config: ctx.config,
        round,
        price_update: Some(PriceUpdate {
            feed_id: [7u8; 32],
            price: Some(OraclePrice { price: 100, exponent: -6, published_at: 0 }),
        }),
        now: 100,
    };
    start_round::handler(&mut ctx).unwrap();
    let (mut config, mut round) = (ctx.config, ctx.round);
    let mut bets = Vec::new();
    for (i, stake) in stakes.iter().enumerate() {
        let mut ctx = PlaceBet {
            signer: addr(30 + i as u8),
            config,
            round,
            round_key: round_key(),
            group_asset: None,
            bump: 1,
            now: 100,
        };
        bets.push(place_bet::handler(&mut ctx, *stake, BetDirection::Up).unwrap().bet);
        config = ctx.config;
        round = ctx.round;
    }
    (config, round, bets)
}

fn pair(bet: &Bet, destination: u8) -> Vec<RecordHandle<Bet>> {
    vec![
        RecordHandle {
            address: bet_address(&round_key(), bet.id, &program()).unwrap(),
            owner: program(),
            data: Some(*bet),
        },
        RecordHandle { address: addr(destination), owner: addr(50), data: None },
    ]
}

fn cancel_ctx(config: Config, round: Round, accounts: Vec<RecordHandle<Bet>>) -> CancelRound {
    CancelRound {
        signer: admin(),
        config,
        round,
        round_key: round_key(),
        treasury: treasury(),
        program_id: program(),
        remaining_accounts: accounts,
    }
}

#[test]
fn cancelling_a_round_without_bets_closes_it_at_once() {
    let (config, round, _) = active_with_bets(&[]);
    let mut ctx = cancel_ctx(config, round, vec![]);
    let receipt = cancel_round::handler(&mut ctx).unwrap();
    assert!(receipt.closed);
    assert!(receipt.refunds.is_empty());
    assert_eq!(ctx.round.total_pool, 0);
}

#[test]
fn cancelling_refunds_every_bet_before_the_round_is_closed() {
    let (config, round, bets) = active_with_bets(&[400, 600, 50]);
    let initial_pool = round.total_pool;
    assert_eq!(initial_pool, 1_050);
    let mut accounts = pair(&bets[0], 80);
    accounts.extend(pair(&bets[2], 82));
    let mut ctx = cancel_ctx(config, round, accounts);
    let first = cancel_round::handler(&mut ctx).unwrap();
    assert!(!first.closed);
    assert_eq!(first.refunds.len(), 2);
    assert_eq!(first.refunds[0].amount, 400);
    assert_eq!(first.refunds[0].destination, addr(80));
    assert_eq!(first.refunds[0].bet, bet_address(&round_key(), 1, &program()).unwrap());
    assert_eq!(first.refunds[1].amount, 50);
    assert_eq!(first.refunds[1].destination, addr(82));
    assert_eq!(ctx.round.status, RoundStatus::Cancelling);
    assert_eq!(ctx.round.total_pool, 600);
    assert_eq!(ctx.round.cancelled_bets, 2);
    assert_eq!(ctx.round.total_bets, 3);
    // an empty batch makes no progress
    let mut ctx = cancel_ctx(ctx.config, ctx.round, vec![]);
    let idle = cancel_round::handler(&mut ctx).unwrap();
    assert!(!idle.closed);
    assert!(idle.refunds.is_empty());
    let mut ctx = cancel_ctx(ctx.config, ctx.round, pair(&bets[1], 81));
    let last = cancel_round::handler(&mut ctx).unwrap();
    assert!(last.closed);
    assert_eq!(last.refunds[0].amount, 600);
    assert_eq!(ctx.round.total_pool, 0);
    assert_eq!(ctx.round.cancelled_bets, 3);
    let refunded: u64 = first.refunds.iter().chain(last.refunds.iter()).map(|r| r.amount).sum();
    assert_eq!(refunded, initial_pool);
}

#[test]
fn cancel_round_rejections() {
    let (config, round, bets) = active_with_bets(&[400, 600]);
    let base = |accounts: Vec<RecordHandle<Bet>>| cancel_ctx(config.clone(), round.clone(), accounts);
    let mut ctx = base(pair(&bets[0], 80));
    ctx.signer = keeper();
    assert_eq!(cancel_round::handler(&mut ctx).err(), Some(GoldRushError::Unauthorized));
    let mut ctx = base(pair(&bets[0], 80));
    ctx.treasury = addr(66);
    assert_eq!(cancel_round::handler(&mut ctx).err(), Some(GoldRushError::InvalidTreasuryAuthority));
    let mut ctx = base(pair(&bets[0], 80));
    ctx.config.status = ContractStatus::Paused;
    assert_eq!(cancel_round::handler(&mut ctx).err(), Some(GoldRushError::ProgramPaused));
    let mut ctx = base(pair(&bets[0], 80));
    ctx.config.status = ContractStatus::EmergencyPaused;
    assert!(cancel_round::handler(&mut ctx).is_ok());
    for status in [RoundStatus::PendingSettlement, RoundStatus::Ended] {
        let mut ctx = base(pair(&bets[0], 80));
        ctx.round.status = status;
        assert_eq!(cancel_round::handler(&mut ctx).err(), Some(GoldRushError::InvalidRoundStatus));
    }
    let mut odd = pair(&bets[0], 80);
    odd.pop();
    let mut ctx = base(odd);
    assert_eq!(cancel_round::handler(&mut ctx).err(), Some(GoldRushError::InvalidRemainingAccountsLength));
    let mut many = Vec::new();
    for _ in 0..11 {
        many.extend(pair(&bets[0], 80));
    }
    let mut ctx = base(many);
    assert_eq!(cancel_round::handler(&mut ctx).err(), Some(GoldRushError::InvalidRemainingAccountsLength));
    let mut forged = pair(&bets[0], 80);
    forged[0].address = addr(66);
    let mut ctx = base(forged);
    assert_eq!(cancel_round::handler(&mut ctx).err(), Some(GoldRushError::InvalidBetAccount));
    assert_eq!(ctx.round.status, RoundStatus::Active);
    assert_eq!(ctx.round.total_pool, 1_000);
    let mut garbled = pair(&bets[0], 80);
    garbled[0].data = None;
    let mut ctx = base(garbled);
    assert_eq!(cancel_round::handler(&mut ctx).err(), Some(GoldRushError::InvalidBetAccountData));
    // the same bet handed in twice takes more out of the pool than it holds
    let mut twice = pair(&bets[1], 81);
    twice.extend(pair(&bets[1], 81));
    let mut ctx = base(twice);
    assert_eq!(cancel_round::handler(&mut ctx).err(), Some(GoldRushError::Underflow));
    assert_eq!(ctx.round.cancelled_bets, 0);
    let mut ctx = base(pair(&bets[0], 80));
    ctx.round.cancelled_bets = u64::MAX;
    ctx.round.status = RoundStatus::Cancelling;
    assert_eq!(cancel_round::handler(&mut ctx).err(), Some(GoldRushError::Overflow));
}

#[test]
fn a_bet_keeps_its_fields_through_cancellation_checks() {
    let (_, _, bets) = active_with_bets(&[400]);
    assert_eq!(bets[0].status, BetStatus::Pending);
    assert_eq!(bets[0].direction, BetDirection::Up);
}

#[test]
fn initialize_sets_every_field() {
    let config = config();
    assert_eq!(config.admin, admin());
    assert_eq!(config.keeper_authorities, vec![keeper()]);
    assert_eq!(config.token_mint, addr(4));
    assert_eq!(config.treasury, treasury());
    assert_eq!(config.single_asset_feed_id, [7u8; 32]);
    assert_eq!(config.max_price_update_age_secs, 60);
    assert_eq!(config.fee_single_asset_bps, 500);
    assert_eq!(config.fee_group_battle_bps, 300);
    assert_eq!(config.min_bet_amount, 10);
    assert_eq!(config.bet_cutoff_window_secs, 10);
    assert_eq!(config.min_time_factor_bps, 500);
    assert_eq!(config.max_time_factor_bps, 10_000);
    assert_eq!(config.default_direction_factor_bps, 10_000);
    assert_eq!(config.status, ContractStatus::Active);
    assert_eq!(config.current_round_counter, 0);
    assert_eq!(config.version, 0);
    assert_eq!(config.bump, 255);
    assert!(config.is_admin(&admin()));
    assert!(!config.is_admin(&keeper()));
    assert!(config.is_keeper(&keeper()));
    assert!(!config.is_keeper(&admin()));
}

#[test]
fn initialize_rejections() {
    let k = || vec![keeper()];
    assert_eq!(init(vec![], 500, 10, 10, 500, 10_000, 10_000).err(), Some(GoldRushError::InvalidKeeperAuthorities));
    assert_eq!(
        init((0..6).map(addr).collect(), 500, 10, 10, 500, 10_000, 10_000).err(),
        Some(GoldRushError::InvalidKeeperAuthorities)
    );
    assert!(init((0..5).map(addr).collect(), 10_000, 10, 0, 0, 0, 0).is_ok());
    assert_eq!(init(k(), 10_001, 10, 10, 500, 10_000, 10_000).err(), Some(GoldRushError::InvalidFee));
    assert_eq!(init(k(), 500, 0, 10, 500, 10_000, 10_000).err(), Some(GoldRushError::InvalidMinBetAmount));
    assert_eq!(init(k(), 500, 10, -1, 500, 10_000, 10_000).err(), Some(GoldRushError::InvalidNewBetCutoffWindowSecs));
    assert_eq!(init(k(), 500, 10, 10, 10_001, 10_000, 10_000).err(), Some(GoldRushError::InvalidTimeFactorConfig));
    assert_eq!(init(k(), 500, 10, 10, 500, 10_001, 10_000).err(), Some(GoldRushError::InvalidTimeFactorConfig));
    assert_eq!(init(k(), 500, 10, 10, 500, 10_000, 10_001).err(), Some(GoldRushError::InvalidDirectionFactorConfig));
    assert_eq!(init(k(), 500, 10, 10, 501, 500, 10_000).err(), Some(GoldRushError::InvalidTimeFactorRange));
    let fee_group = initialize::handler(
        &Initialize { signer: admin(), bump: 255 },
        k(),
        addr(4),
        treasury(),
        [7u8; 32],
        60,
        500,
        10_001,
        10,
        10,
        500,
        10_000,
        10_000,
    );
    assert_eq!(fee_group.err(), Some(GoldRushError::InvalidFee));
}

fn update(ctx: &mut UpdateConfig, admin: Option<Address>, keepers: Option<Vec<Address>>, mint: Option<Address>, treasury: Option<Address>, fee_single: Option<u16>, fee_group: Option<u16>, min_bet: Option<u64>, window: Option<i64>) -> Result<(), GoldRushError> {
    update_config::handler(ctx, admin, keepers, mint, treasury, None, None, fee_single, fee_group, min_bet, window)
}

#[test]
fn update_config_changes_what_is_given_and_keeps_the_rest() {
    let mut ctx = UpdateConfig { signer: admin(), config: config() };
    assert_eq!(
        update_config::handler(
            &mut ctx,
            Some(addr(40)),
            Some(vec![addr(41), addr(42)]),
            None,
            Some(addr(43)),
            Some([8u8; 32]),
            Some(90),
            Some(250),
            None,
            Some(77),
            Some(30),
        ),
        Ok(())
    );
    let config = &ctx.config;
    assert_eq!(config.admin, addr(40));
    assert_eq!(config.keeper_authorities, vec![addr(41), addr(42)]);
    assert_eq!(config.token_mint, addr(4));
    assert_eq!(config.treasury, addr(43));
    assert_eq!(config.single_asset_feed_id, [8u8; 32]);
    assert_eq!(config.max_price_update_age_secs, 90);
    assert_eq!(config.fee_single_asset_bps, 250);
    assert_eq!(config.fee_group_battle_bps, 300);
    assert_eq!(config.min_bet_amount, 77);
    assert_eq!(config.bet_cutoff_window_secs, 30);
    assert_eq!(config.version, 1);
    assert_eq!(config.status, ContractStatus::Active);
    // the former administrator has lost the right
    assert_eq!(update(&mut ctx, None, None, None, None, None, None, None, None), Err(GoldRushError::Unauthorized));
    assert_eq!(ctx.config.version, 1);
}

#[test]
fn update_config_rejections() {
    let fresh = || UpdateConfig { signer: admin(), config: config() };
    let mut ctx = UpdateConfig { signer: keeper(), config: config() };
    assert_eq!(update(&mut ctx, None, None, None, None, None, None, None, None), Err(GoldRushError::Unauthorized));
    let mut ctx = fresh();
    assert_eq!(update(&mut ctx, Some(admin()), None, None, None, None, None, None, None), Err(GoldRushError::InvalidNewAdmin));
    assert_eq!(update(&mut ctx, None, Some(vec![]), None, None, None, None, None, None), Err(GoldRushError::NoNewKeeperAuthorities));
    assert_eq!(
        update(&mut ctx, None, Some((0..6).map(addr).collect()), None, None, None, None, None, None),
        Err(GoldRushError::MaxKeeperAuthoritiesReached)
    );
    assert_eq!(update(&mut ctx, None, None, Some(addr(4)), None, None, None, None, None), Err(GoldRushError::InvalidNewTokenMint));
    assert_eq!(update(&mut ctx, None, None, None, Some(treasury()), None, None, None, None), Err(GoldRushError::InvalidNewTreasury));
    assert_eq!(update(&mut ctx, None, None, None, None, Some(10_000), None, None, None), Err(GoldRushError::InvalidNewFeeGoldPriceBps));
    assert_eq!(update(&mut ctx, None, None, None, None, None, Some(10_000), None, None), Err(GoldRushError::InvalidNewFeeStockPriceBps));
    assert_eq!(update(&mut ctx, None, None, None, None, None, None, Some(0), None), Err(GoldRushError::InvalidNewMinBetAmount));
    assert_eq!(update(&mut ctx, None, None, None, None, None, None, None, Some(-1)), Err(GoldRushError::InvalidNewBetCutoffWindowSecs));
    assert_eq!(ctx.config.version, 0);
    assert_eq!(ctx.config.fee_single_asset_bps, 500);
    ctx.config.version = u8::MAX;
    assert_eq!(update(&mut ctx, None, None, None, None, Some(1), None, None, None), Err(GoldRushError::Overflow));
    assert_eq!(ctx.config.fee_single_asset_bps, 500);
}

#[test]
fn pausing_and_resuming() {
    let mut pause = PauseProgram { signer: admin(), config: config() };
    assert_eq!(pause_program::handler(&mut pause), Ok(()));
    assert_eq!(pause.config.status, ContractStatus::Paused);
    assert_eq!(pause_program::handler(&mut pause), Err(GoldRushError::AlreadyPaused));
    let mut stranger = UnpauseProgram { signer: keeper(), config: pause.config.clone() };
    assert_eq!(unpause_program::handler(&mut stranger), Err(GoldRushError::Unauthorized));
    assert_eq!(stranger.config.status, ContractStatus::Paused);
    let mut resume = UnpauseProgram { signer: admin(), config: pause.config };
    assert_eq!(unpause_program::handler(&mut resume), Ok(()));
    assert_eq!(resume.config.status, ContractStatus::Active);
    assert_eq!(unpause_program::handler(&mut resume), Err(GoldRushError::AlreadyActive));
    let mut stranger = PauseProgram { signer: keeper(), config: resume.config };
    assert_eq!(pause_program::handler(&mut stranger), Err(GoldRushError::Unauthorized));
}

#[test]
fn emergency_halt_and_release() {
    let mut halt = EmergencyPause { signer: admin(), config: config() };
    assert_eq!(emergency_pause::handler(&mut halt), Ok(()));
    assert_eq!(halt.config.status, ContractStatus::EmergencyPaused);
    assert_eq!(emergency_pause::handler(&mut halt), Err(GoldRushError::AlreadyEmergencyPaused));
    let mut stranger = EmergencyUnpause { signer: keeper(), config: halt.config.clone() };
    assert_eq!(emergency_unpause::handler(&mut stranger), Err(GoldRushError::Unauthorized));
    let mut release = EmergencyUnpause { signer: admin(), config: halt.config };
    assert_eq!(emergency_unpause::handler(&mut release), Ok(()));
    assert_eq!(release.config.status, ContractStatus::Active);
    assert_eq!(emergency_unpause::handler(&mut release), Err(GoldRushError::NotEmergencyPaused));
    // a paused engine can still be halted
    let mut pause = PauseProgram { signer: admin(), config: release.config };
    pause_program::handler(&mut pause).unwrap();
    let mut halt = EmergencyPause { signer: admin(), config: pause.config };
    assert_eq!(emergency_pause::handler(&mut halt), Ok(()));
    assert_eq!(halt.config.status, ContractStatus::EmergencyPaused);
}
