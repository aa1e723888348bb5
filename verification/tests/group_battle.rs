use gold_rush::address::{asset_address, bet_address, group_asset_address, Address};
use gold_rush::capture::{capture, PricePhase};
use gold_rush::constants::{BetDirection, BetStatus, ContractStatus, MarketType, RoundStatus};
use gold_rush::error::GoldRushError;
use gold_rush::instructions::place_bet::BackedGroup;
use gold_rush::instructions::{
    capture_end_price, capture_start_price, create_round, finalize_end_group_asset,
    finalize_end_groups, finalize_start_group_asset, finalize_start_groups, initialize, insert_asset,
    insert_group_asset, place_bet, settle_group_round, start_round, CaptureEndPrice,
    CaptureStartPrice, CreateRound, FinalizeEndGroupAsset, FinalizeEndGroups,
    FinalizeStartGroupAsset, FinalizeStartGroups, Initialize, InsertAsset, InsertGroupAsset, PlaceBet,
    SettleGroupRound, StartRound,
};
use gold_rush::state::{Asset, Bet, Config, GroupAsset, OraclePrice, PriceUpdate, RecordHandle, Round};

fn addr(n: u8) -> Address {
    Address::new([n; 32])
}

fn admin() -> Address {
    addr(1)
}

fn keeper() -> Address {
    addr(2)
}

fn treasury() -> Address {
    addr(3)
}

fn program() -> Address {
    addr(9)
}

fn round_key() -> Address {
    addr(20)
}

fn group_key(id: u64) -> Address {
    group_asset_address(&round_key(), id, &program()).unwrap()
}

fn config() -> Config {
    initialize::handler(
        &Initialize { signer: admin(), bump: 255 },
        vec![keeper(), addr(8)],
        addr(4),
        treasury(),
        [7u8; 32],
        60,
        500,
        300,
        10,
        10,
        500,
        10_000,
        10_000,
    )
    .unwrap()
}

fn scheduled() -> (Config, Round) {
    let mut ctx = CreateRound { signer: admin(), config: config(), vault: addr(21), vault_bump: 1, bump: 1, now: 0 };
    let round = create_round::handler(&mut ctx, MarketType::GroupBattle, 100, 1_100).unwrap();
    (ctx.config, round)
}

fn add_group(config: Config, round: Round, symbol: u8) -> (Config, Round, GroupAsset) {
    let mut ctx = InsertGroupAsset { signer: admin(), config, round, round_key: round_key(), bump: 2, now: 10 };
    let group = insert_group_asset::handler(&mut ctx, [symbol; 8]).unwrap();
    (ctx.config, ctx.round, group)
}

fn add_asset(config: &Config, round: &Round, group: GroupAsset, feed: u8) -> (GroupAsset, Asset) {
    let mut ctx = InsertAsset {
        signer: admin(),
        config: config.clone(),
        round: round.clone(),
        round_key: round_key(),
        group_asset: group,
        group_asset_key: group_key(group.id),
        feed_id: [feed; 32],
        bump: 3,
        now: 20,
    };
    let asset = insert_asset::handler(&mut ctx, [feed; 8]).unwrap();
    (ctx.group_asset, asset)
}

fn asset_handle(asset: &Asset) -> RecordHandle<Asset> {
    RecordHandle {
        address: asset_address(&asset.group, asset.id, &program()).unwrap(),
        owner: program(),
        data: Some(*asset),
    }
}

fn group_handle(group: &GroupAsset) -> RecordHandle<GroupAsset> {
    RecordHandle { address: group_key(group.id), owner: program(), data: Some(*group) }
}

fn bet_handle(bet: &Bet) -> RecordHandle<Bet> {
    RecordHandle {
        address: bet_address(&round_key(), bet.id, &program()).unwrap(),
        owner: program(),
        data: Some(*bet),
    }
}

fn update(feed: u8, price: i64) -> Option<PriceUpdate> {
    Some(PriceUpdate {
        feed_id: [feed; 32],
        price: Some(OraclePrice { price, exponent: -6, published_at: 0 }),
    })
}

fn finalized_group(id: u64, average: i64) -> GroupAsset {
    GroupAsset {
        id,
        round: round_key(),
        symbol: [id as u8; 8],
        total_assets: 1,
        finalized_start_price_assets: 1,
        captured_end_price_assets: 1,
        finalized_end_price_assets: 1,
        total_final_price: 100,
        total_growth_rate_bps: average,
        avg_growth_rate_bps: Some(average),
        created_at: 0,
        start_price_at: None,
        finalized_price_at: Some(1_100),
        bump: 2,
    }
}

/// An active group-battle round with `groups` groups.
fn active(groups: u8) -> (Config, Round) {
    let (mut config, mut round) = scheduled();
    let mut handles = Vec::new();
    for symbol in 0..groups {
        let (c, r, group) = add_group(config, round, symbol);
        config = c;
        round = r;
        handles.push(group_handle(&group));
    }
    let mut ctx = FinalizeStartGroups {
        signer: keeper(),
        config,
        round,
        round_key: round_key(),
        program_id: program(),
        remaining_accounts: handles,
    };
    finalize_start_groups::handler(&mut ctx).unwrap();
    let mut ctx = StartRound { signer: keeper(), config: ctx.config, round: ctx.round, price_update: None, now: 100 };
    start_round::handler(&mut ctx).unwrap();
    (ctx.config, ctx.round)
}

fn place(config: Config, round: Round, bettor: u8, amount: u64, group: u64) -> (Config, Round, Bet) {
    let mut ctx = PlaceBet {
        signer: addr(bettor),
        config,
        round,
        round_key: round_key(),
        group_asset: Some(BackedGroup { key: group_key(group), group: finalized_group(group, 0) }),
        bump: 4,
        now: 100,
    };
    let receipt = place_bet::handler(&mut ctx, amount, BetDirection::Up).unwrap();
    (ctx.config, ctx.round, receipt.bet)
}

fn choose_winners(config: Config, round: Round, averages: &[i64]) -> FinalizeEndGroups {
    let handles = averages
        .iter()
        .enumerate()
        .map(|(i, average)| group_handle(&finalized_group(i as u64 + 1, *average)))
        .collect();
    FinalizeEndGroups {
        signer: keeper(),
        config,
        round,
        round_key: round_key(),
        program_id: program(),
        remaining_accounts: handles,
        now: 1_100,
    }
}

#[test]
fn groups_and_assets_are_numbered_from_one() {
    let (config, round) = scheduled();
    let (config, round, first) = add_group(config, round, 1);
    let (config, round, second) = add_group(config, round, 2);
    assert_eq!((first.id, second.id), (1, 2));
    assert_eq!(round.total_groups, 2);
    assert_eq!(first.round, round_key());
    assert_eq!(first.symbol, [1u8; 8]);
    assert_eq!(first.total_assets, 0);
    assert_eq!(first.avg_growth_rate_bps, None);
    let (group, a) = add_asset(&config, &round, first, 11);
    let (group, b) = add_asset(&config, &round, group, 12);
    assert_eq!((a.id, b.id), (1, 2));
    assert_eq!(group.total_assets, 2);
    assert_eq!(a.group, group_key(1));
    assert_eq!(a.round, round_key());
    assert_eq!(a.feed_id, [11u8; 32]);
    assert_eq!(a.start_price, None);
    assert_eq!(a.growth_rate_bps, None);
}

#[test]
fn insert_rejections() {
    let (config, round) = scheduled();
    let (config, round, group) = add_group(config, round, 1);
    let mut paused = InsertGroupAsset { signer: admin(), config: config.clone(), round: round.clone(), round_key: round_key(), bump: 2, now: 10 };
    paused.config.status = ContractStatus::Paused;
    assert_eq!(insert_group_asset::handler(&mut paused, [0; 8]).err(), Some(GoldRushError::ProgramPaused));
    let mut full = InsertGroupAsset { signer: admin(), config: config.clone(), round: round.clone(), round_key: round_key(), bump: 2, now: 10 };
    full.round.total_groups = u64::MAX;
    assert_eq!(insert_group_asset::handler(&mut full, [0; 8]).err(), Some(GoldRushError::Overflow));
    let base = |signer: Address, group: GroupAsset| InsertAsset {
        signer,
        config: config.clone(),
        round: round.clone(),
        round_key: round_key(),
        group_asset: group,
        group_asset_key: group_key(group.id),
        feed_id: [5; 32],
        bump: 3,
        now: 20,
    };
    let mut ctx = base(keeper(), group);
    assert_eq!(insert_asset::handler(&mut ctx, [0; 8]).err(), Some(GoldRushError::Unauthorized));
    let mut crowded = group;
    crowded.total_assets = 10;
    let mut ctx = base(admin(), crowded);
    assert_eq!(insert_asset::handler(&mut ctx, [0; 8]).err(), Some(GoldRushError::MaxAssetsReached));
    assert_eq!(ctx.group_asset.total_assets, 10);
    let mut ctx = base(admin(), group);
    ctx.config.status = ContractStatus::Paused;
    assert_eq!(insert_asset::handler(&mut ctx, [0; 8]).err(), Some(GoldRushError::ProgramPaused));
}

#[test]
fn start_prices_are_captured_once() {
    let (config, round) = scheduled();
    let (config, round, group) = add_group(config, round, 1);
    let (group, a) = add_asset(&config, &round, group, 11);
    let (group, b) = add_asset(&config, &round, group, 12);
    let ctx = |assets: Vec<RecordHandle<Asset>>, updates: Vec<Option<PriceUpdate>>| CaptureStartPrice {
        signer: keeper(),
        config: config.clone(),
        round: round.clone(),
        round_key: round_key(),
        group_asset: group,
        group_asset_key: group_key(1),
        program_id: program(),
        remaining_accounts: assets,
        price_updates: updates,
        now: 50,
    };
    let captured = capture_start_price::handler(&ctx(
        vec![asset_handle(&a), asset_handle(&b)],
        vec![update(11, 100), update(12, 250)],
    ))
    .unwrap();
    assert_eq!(captured[0].start_price, Some(100));
    assert_eq!(captured[1].start_price, Some(250));
    assert_eq!(captured[0].final_price, None);
    // a second capture leaves the price as it is
    let again = capture_start_price::handler(&ctx(vec![asset_handle(&captured[0])], vec![update(11, 999)]))
        .unwrap();
    assert_eq!(again[0].start_price, Some(100));
    // even a zero reading is passed over once the price is there
    let again = capture_start_price::handler(&ctx(vec![asset_handle(&captured[0])], vec![update(11, 0)]))
        .unwrap();
    assert_eq!(again[0].start_price, Some(100));
    let run = |assets, updates| capture_start_price::handler(&ctx(assets, updates)).err();
    assert_eq!(run(vec![asset_handle(&a)], vec![update(11, 0)]), Some(GoldRushError::InvalidAssetPrice));
    assert_eq!(run(vec![asset_handle(&a)], vec![update(12, 5)]), Some(GoldRushError::InvalidPriceFeedAccount));
    assert_eq!(run(vec![asset_handle(&a)], vec![None]), Some(GoldRushError::InvalidPriceUpdateAccountData));
    assert_eq!(
        run(vec![asset_handle(&a)], vec![Some(PriceUpdate { feed_id: [11; 32], price: None })]),
        Some(GoldRushError::PythError)
    );
    assert_eq!(run(vec![asset_handle(&a)], vec![]), Some(GoldRushError::InvalidRemainingAccountsLength));
    assert_eq!(
        run((0..11).map(|_| asset_handle(&a)).collect(), (0..11).map(|_| update(11, 5)).collect()),
        Some(GoldRushError::InvalidRemainingAccountsLength)
    );
    let mut foreign = asset_handle(&a);
    foreign.owner = addr(66);
    assert_eq!(run(vec![foreign], vec![update(11, 5)]), Some(GoldRushError::InvalidAssetAccount));
    let mut moved = asset_handle(&a);
    moved.address = asset_handle(&b).address;
    assert_eq!(run(vec![moved], vec![update(11, 5)]), Some(GoldRushError::InvalidAssetAccount));
    let mut garbled = asset_handle(&a);
    garbled.data = None;
    assert_eq!(run(vec![garbled], vec![update(11, 5)]), Some(GoldRushError::InvalidAssetAccountData));
    let mut elsewhere = a;
    elsewhere.round = addr(66);
    assert_eq!(run(vec![asset_handle(&elsewhere)], vec![update(11, 5)]), Some(GoldRushError::InvalidAssetAccount));
    assert_eq!(capture_start_price::handler(&ctx(vec![], vec![])).unwrap().len(), 0);
    let mut paused = ctx(vec![], vec![]);
    paused.config.status = ContractStatus::Paused;
    assert_eq!(capture_start_price::handler(&paused).err(), Some(GoldRushError::ProgramPaused));
}

#[test]
fn capture_writes_only_the_price_of_its_phase() {
    let (config, round) = scheduled();
    let (_, _, group) = add_group(config.clone(), round.clone(), 1);
    let (_, asset) = add_asset(&config, &round, group, 11);
    let started = capture(&asset, PricePhase::Start, &update(11, 100)).unwrap();
    assert_eq!((started.start_price, started.final_price), (Some(100), None));
    let ended = capture(&started, PricePhase::End, &update(11, 120)).unwrap();
    assert_eq!((ended.start_price, ended.final_price), (Some(100), Some(120)));
    assert_eq!(capture(&asset, PricePhase::End, &update(11, -3)).err(), Some(GoldRushError::InvalidAssetPrice));
    assert_eq!(capture(&asset, PricePhase::End, &update(11, 0)).err(), Some(GoldRushError::InvalidAssetPrice));
}

#[test]
fn start_price_finalization() {
    let (config, round) = scheduled();
    let (config, round, group) = add_group(config, round, 1);
    let (group, a) = add_asset(&config, &round, group, 11);
    let (group, b) = add_asset(&config, &round, group, 12);
    let ctx = |assets: Vec<RecordHandle<Asset>>| FinalizeStartGroupAsset {
        signer: keeper(),
        config: config.clone(),
        round: round.clone(),
        round_key: round_key(),
        group_asset: group,
        group_asset_key: group_key(1),
        program_id: program(),
        remaining_accounts: assets,
    };
    let mut priced_a = a;
    priced_a.start_price = Some(100);
    let mut priced_b = b;
    priced_b.start_price = Some(250);
    let mut ok = ctx(vec![asset_handle(&priced_a), asset_handle(&priced_b)]);
    assert_eq!(finalize_start_group_asset::handler(&mut ok), Ok(()));
    assert_eq!(ok.group_asset.finalized_start_price_assets, 2);
    let mut again = ctx(vec![asset_handle(&priced_a)]);
    again.group_asset = ok.group_asset;
    assert_eq!(
        finalize_start_group_asset::handler(&mut again),
        Err(GoldRushError::GroupAssetAlreadyFinalizedStartPrice)
    );
    let mut missing = ctx(vec![asset_handle(&priced_a), asset_handle(&b)]);
    assert_eq!(finalize_start_group_asset::handler(&mut missing), Err(GoldRushError::InvalidAssetPrice));
    assert_eq!(missing.group_asset.finalized_start_price_assets, 0);
    let mut zero = b;
    zero.start_price = Some(0);
    let mut unset = ctx(vec![asset_handle(&zero)]);
    assert_eq!(finalize_start_group_asset::handler(&mut unset), Err(GoldRushError::AssetStartPriceNotSet));
    let mut empty = ctx(vec![]);
    assert_eq!(
        finalize_start_group_asset::handler(&mut empty),
        Err(GoldRushError::InvalidRemainingAccountsLength)
    );
    let mut stranger = ctx(vec![asset_handle(&priced_a)]);
    stranger.signer = addr(66);
    assert_eq!(finalize_start_group_asset::handler(&mut stranger), Err(GoldRushError::UnauthorizedKeeper));
    let mut single = ctx(vec![asset_handle(&priced_a)]);
    single.round.market_type = MarketType::SingleAsset;
    assert_eq!(finalize_start_group_asset::handler(&mut single), Err(GoldRushError::InvalidRoundStatus));
    let mut started = ctx(vec![asset_handle(&priced_a)]);
    started.round.status = RoundStatus::Active;
    assert_eq!(finalize_start_group_asset::handler(&mut started), Err(GoldRushError::InvalidRoundStatus));
    let mut other = ctx(vec![asset_handle(&priced_a)]);
    other.group_asset.round = addr(66);
    assert_eq!(finalize_start_group_asset::handler(&mut other), Err(GoldRushError::InvalidAssetAccount));
}

#[test]
fn a_group_battle_starts_once_its_groups_are_confirmed() {
    let (config, round) = scheduled();
    let (config, round, first) = add_group(config, round, 1);
    let (config, round, second) = add_group(config, round, 2);
    let mut early = StartRound { signer: keeper(), config: config.clone(), round: round.clone(), price_update: None, now: 100 };
    assert_eq!(start_round::handler(&mut early), Err(GoldRushError::RoundNotCapturedStartPrice));
    let ctx = |groups: Vec<RecordHandle<GroupAsset>>| FinalizeStartGroups {
        signer: keeper(),
        config: config.clone(),
        round: round.clone(),
        round_key: round_key(),
        program_id: program(),
        remaining_accounts: groups,
    };
    let mut unconfirmed = first;
    unconfirmed.total_assets = 2;
    unconfirmed.finalized_start_price_assets = 1;
    let mut bad = ctx(vec![group_handle(&second), group_handle(&unconfirmed)]);
    assert_eq!(
        finalize_start_groups::handler(&mut bad),
        Err(GoldRushError::GroupAssetNotFullyCapturedStartPrice)
    );
    assert_eq!(bad.round.captured_start_groups, 0);
    let mut forged = group_handle(&first);
    forged.address = addr(66);
    let mut bad = ctx(vec![forged]);
    assert_eq!(finalize_start_groups::handler(&mut bad), Err(GoldRushError::InvalidGroupAssetAccount));
    let mut garbled = group_handle(&first);
    garbled.data = None;
    let mut bad = ctx(vec![garbled]);
    assert_eq!(finalize_start_groups::handler(&mut bad), Err(GoldRushError::InvalidGroupAssetAccount));
    let mut bad = ctx(vec![]);
    assert_eq!(finalize_start_groups::handler(&mut bad), Err(GoldRushError::InvalidRemainingAccountsLength));
    let mut ok = ctx(vec![group_handle(&first), group_handle(&second)]);
    assert_eq!(finalize_start_groups::handler(&mut ok), Ok(()));
    assert_eq!(ok.round.captured_start_groups, 2);
    let mut again = ctx(vec![group_handle(&first)]);
    again.round = ok.round.clone();
    assert_eq!(finalize_start_groups::handler(&mut again), Err(GoldRushError::RoundAlreadyCapturedStartPrice));
    let mut start = StartRound { signer: keeper(), config: ok.config, round: ok.round, price_update: None, now: 100 };
    assert_eq!(start_round::handler(&mut start), Ok(()));
    assert_eq!(start.round.status, RoundStatus::Active);
    assert_eq!(start.round.start_price, None);
}

#[test]
fn final_prices_are_captured_once_and_counted() {
    let (config, round) = active(1);
    let mut group = finalized_group(1, 0);
    group.total_assets = 2;
    group.captured_end_price_assets = 0;
    group.finalized_end_price_assets = 0;
    group.finalized_price_at = None;
    group.avg_growth_rate_bps = None;
    let asset = |id: u64, feed: u8| Asset {
        id,
        group: group_key(1),
        round: round_key(),
        feed_id: [feed; 32],
        symbol: [feed; 8],
        start_price: Some(100),
        final_price: None,
        growth_rate_bps: None,
        created_at: 0,
        started_price_at: None,
        finalized_at: None,
        bump: 3,
    };
    let (a, b) = (asset(1, 11), asset(2, 12));
    let ctx = |group: GroupAsset, assets: Vec<RecordHandle<Asset>>, updates: Vec<Option<PriceUpdate>>, now: i64| CaptureEndPrice {
        signer: keeper(),
        config: config.clone(),
        round: round.clone(),
        round_key: round_key(),
        group_asset: group,
        group_asset_key: group_key(1),
        program_id: program(),
        remaining_accounts: assets,
        price_updates: updates,
        now,
    };
    let mut first = ctx(group, vec![asset_handle(&a)], vec![update(11, 120)], 1_100);
    assert_eq!(first.reference_time(), 1_100);
    let captured = capture_end_price::handler(&mut first).unwrap();
    assert_eq!(captured[0].final_price, Some(120));
    assert_eq!(first.group_asset.finalized_price_at, Some(1_100));
    assert_eq!(first.group_asset.captured_end_price_assets, 1);
    // the next batch is read as of the first capture and passes over what is captured
    let mut second = ctx(
        first.group_asset,
        vec![asset_handle(&captured[0]), asset_handle(&b)],
        vec![update(11, 999), update(12, 80)],
        1_250,
    );
    assert_eq!(second.reference_time(), 1_100);
    let captured = capture_end_price::handler(&mut second).unwrap();
    assert_eq!(captured[0].final_price, Some(120));
    assert_eq!(captured[1].final_price, Some(80));
    assert_eq!(second.group_asset.finalized_price_at, Some(1_100));
    assert_eq!(second.group_asset.captured_end_price_assets, 2);
    let mut done = ctx(second.group_asset, vec![], vec![], 1_300);
    assert_eq!(capture_end_price::handler(&mut done).err(), Some(GoldRushError::GroupAssetAlreadyCapturedEndPrice));
    let mut early = ctx(group, vec![asset_handle(&a)], vec![update(11, 120)], 1_099);
    assert_eq!(capture_end_price::handler(&mut early).err(), Some(GoldRushError::RoundNotReadyForSettlement));
    let mut zero = ctx(group, vec![asset_handle(&a)], vec![update(11, 0)], 1_100);
    assert_eq!(capture_end_price::handler(&mut zero).err(), Some(GoldRushError::InvalidAssetPrice));
    assert_eq!(zero.group_asset.finalized_price_at, None);
    let mut stranger = ctx(group, vec![asset_handle(&a)], vec![update(11, 120)], 1_100);
    stranger.signer = addr(66);
    assert_eq!(capture_end_price::handler(&mut stranger).err(), Some(GoldRushError::UnauthorizedKeeper));
    let mut single = ctx(group, vec![asset_handle(&a)], vec![update(11, 120)], 1_100);
    single.round.market_type = MarketType::SingleAsset;
    assert_eq!(capture_end_price::handler(&mut single).err(), Some(GoldRushError::InvalidRoundMarketType));
    let mut ended = ctx(group, vec![asset_handle(&a)], vec![update(11, 120)], 1_100);
    ended.round.status = RoundStatus::Ended;
    assert_eq!(capture_end_price::handler(&mut ended).err(), Some(GoldRushError::InvalidRoundStatus));
    let mut odd = ctx(group, vec![asset_handle(&a)], vec![], 1_100);
    assert_eq!(capture_end_price::handler(&mut odd).err(), Some(GoldRushError::InvalidRemainingAccountsLength));
}

#[test]
fn growth_rates_and_group_average() {
    let (config, round) = active(1);
    let mut group = finalized_group(1, 0);
    group.total_assets = 2;
    group.finalized_end_price_assets = 0;
    group.total_final_price = 0;
    group.total_growth_rate_bps = 0;
    group.avg_growth_rate_bps = None;
    let asset = |id: u64, start: u64, last: u64| Asset {
        id,
        group: group_key(1),
        round: round_key(),
        feed_id: [id as u8; 32],
        symbol: [id as u8; 8],
        start_price: Some(start),
        final_price: Some(last),
        growth_rate_bps: None,
        created_at: 0,
        started_price_at: None,
        finalized_at: None,
        bump: 3,
    };
    let ctx = |group: GroupAsset, assets: Vec<RecordHandle<Asset>>| FinalizeEndGroupAsset {
        signer: keeper(),
        config: config.clone(),
        round: round.clone(),
        round_key: round_key(),
        group_asset: group,
        group_asset_key: group_key(1),
        program_id: program(),
        remaining_accounts: assets,
        now: 1_100,
    };
    assert_eq!(finalize_end_group_asset::growth_rate_bps(100, 120), Ok(2_000));
    assert_eq!(finalize_end_group_asset::growth_rate_bps(200, 150), Ok(-2_500));
    assert_eq!(finalize_end_group_asset::growth_rate_bps(3, 2), Ok(-3_333));
    assert_eq!(finalize_end_group_asset::growth_rate_bps(3, 4), Ok(3_333));
    assert_eq!(finalize_end_group_asset::growth_rate_bps(1, u64::MAX), Err(GoldRushError::Overflow));
    let (a, b) = (asset(1, 100, 120), asset(2, 10_000, 7_995));
    let mut first = ctx(group, vec![asset_handle(&a)]);
    let done = finalize_end_group_asset::handler(&mut first).unwrap();
    assert_eq!(done[0].growth_rate_bps, Some(2_000));
    assert_eq!(done[0].finalized_at, Some(1_100));
    assert_eq!(first.group_asset.finalized_end_price_assets, 1);
    assert_eq!(first.group_asset.total_growth_rate_bps, 2_000);
    assert_eq!(first.group_asset.total_final_price, 120);
    assert_eq!(first.group_asset.avg_growth_rate_bps, None);
    // an asset that has its growth rate is passed over; the average rounds toward zero
    let mut second = ctx(first.group_asset, vec![asset_handle(&done[0]), asset_handle(&b)]);
    let done = finalize_end_group_asset::handler(&mut second).unwrap();
    assert_eq!(done[0].growth_rate_bps, Some(2_000));
    assert_eq!(done[1].growth_rate_bps, Some(-2_005));
    assert_eq!(second.group_asset.finalized_end_price_assets, 2);
    assert_eq!(second.group_asset.total_growth_rate_bps, -5);
    assert_eq!(second.group_asset.total_final_price, 8_115);
    assert_eq!(second.group_asset.avg_growth_rate_bps, Some(-2));
    let mut again = ctx(second.group_asset, vec![asset_handle(&b)]);
    assert_eq!(
        finalize_end_group_asset::handler(&mut again).err(),
        Some(GoldRushError::GroupAssetAlreadyFinalizedEndPrice)
    );
    let mut unpriced = a;
    unpriced.final_price = None;
    let mut bad = ctx(group, vec![asset_handle(&b), asset_handle(&unpriced)]);
    assert_eq!(finalize_end_group_asset::handler(&mut bad).err(), Some(GoldRushError::InvalidAssetPrice));
    assert_eq!(bad.group_asset.finalized_end_price_assets, 0);
    assert_eq!(bad.group_asset.total_growth_rate_bps, 0);
    let mut unstarted = a;
    unstarted.start_price = Some(0);
    let mut bad = ctx(group, vec![asset_handle(&unstarted)]);
    assert_eq!(finalize_end_group_asset::handler(&mut bad).err(), Some(GoldRushError::InvalidAssetPrice));
    let mut bad = ctx(group, vec![asset_handle(&asset(1, 1, u64::MAX))]);
    assert_eq!(finalize_end_group_asset::handler(&mut bad).err(), Some(GoldRushError::Overflow));
    let mut full = group;
    full.total_growth_rate_bps = i64::MAX;
    let mut bad = ctx(full, vec![asset_handle(&a)]);
    assert_eq!(finalize_end_group_asset::handler(&mut bad).err(), Some(GoldRushError::Overflow));
    let mut bad = ctx(group, vec![]);
    assert_eq!(
        finalize_end_group_asset::handler(&mut bad).err(),
        Some(GoldRushError::InvalidRemainingAccountsLength)
    );
    let mut bad = ctx(group, vec![asset_handle(&a)]);
    bad.now = 1_099;
    assert_eq!(
        finalize_end_group_asset::handler(&mut bad).err(),
        Some(GoldRushError::RoundNotReadyForSettlement)
    );
}

#[test]
fn tied_groups_all_win() {
    let (config, round) = active(3);
    let mut ctx = choose_winners(config, round, &[200, 200, 150]);
    assert_eq!(finalize_end_groups::handler(&mut ctx), Ok(()));
    assert_eq!(ctx.round.winner_group_ids, vec![1, 2]);
    // winners are chosen once
    let mut again = choose_winners(ctx.config, ctx.round, &[150, 150, 900]);
    assert_eq!(finalize_end_groups::handler(&mut again), Err(GoldRushError::SettlementFailed));
    assert_eq!(again.round.winner_group_ids, vec![1, 2]);
}

#[test]
fn a_later_better_group_replaces_the_leaders() {
    let (config, round) = active(4);
    let mut ctx = choose_winners(config.clone(), round.clone(), &[-50, -50, 10, -50]);
    assert_eq!(finalize_end_groups::handler(&mut ctx), Ok(()));
    assert_eq!(ctx.round.winner_group_ids, vec![3]);
    let mut ctx = choose_winners(config.clone(), round.clone(), &[i64::MIN, i64::MIN, i64::MIN, i64::MIN]);
    assert_eq!(finalize_end_groups::handler(&mut ctx), Ok(()));
    assert_eq!(ctx.round.winner_group_ids, vec![1, 2, 3, 4]);
    let groups = vec![finalized_group(1, 5), finalized_group(2, 7), finalized_group(3, 7), finalized_group(4, 6)];
    assert_eq!(finalize_end_groups::select_winners(&groups), vec![2, 3]);
}

#[test]
fn finalize_end_groups_rejections() {
    let (config, round) = active(3);
    let base = |averages: &[i64]| choose_winners(config.clone(), round.clone(), averages);
    let mut ctx = base(&[1, 2, 3]);
    let mut unfinished = finalized_group(2, 2);
    unfinished.total_assets = 2;
    ctx.remaining_accounts[1] = group_handle(&unfinished);
    assert_eq!(finalize_end_groups::handler(&mut ctx), Err(GoldRushError::SettlementFailed));
    assert!(ctx.round.winner_group_ids.is_empty());
    let mut ctx = base(&[1, 2, 3]);
    let mut no_average = finalized_group(3, 3);
    no_average.avg_growth_rate_bps = None;
    ctx.remaining_accounts[2] = group_handle(&no_average);
    assert_eq!(finalize_end_groups::handler(&mut ctx), Err(GoldRushError::SettlementFailed));
    // more groups tie than a round can hold: nothing is written
    let mut ctx = base(&[4; 11]);
    assert_eq!(finalize_end_groups::handler(&mut ctx), Err(GoldRushError::SettlementFailed));
    assert!(ctx.round.winner_group_ids.is_empty());
    let mut ctx = base(&[4; 10]);
    assert_eq!(finalize_end_groups::handler(&mut ctx), Ok(()));
    assert_eq!(ctx.round.winner_group_ids.len(), 10);
    let mut ctx = base(&[]);
    assert_eq!(finalize_end_groups::handler(&mut ctx), Err(GoldRushError::InvalidRemainingAccountsLength));
    let mut ctx = base(&[0; 21]);
    assert_eq!(finalize_end_groups::handler(&mut ctx), Err(GoldRushError::InvalidRemainingAccountsLength));
    let mut ctx = base(&[1, 2, 3]);
    ctx.remaining_accounts[0].address = group_key(2);
    assert_eq!(finalize_end_groups::handler(&mut ctx), Err(GoldRushError::InvalidAssetAccount));
    let mut ctx = base(&[1, 2, 3]);
    ctx.remaining_accounts[0].data = None;
    assert_eq!(finalize_end_groups::handler(&mut ctx), Err(GoldRushError::InvalidAssetAccountData));
    let mut ctx = base(&[1, 2, 3]);
    ctx.now = 1_099;
    assert_eq!(finalize_end_groups::handler(&mut ctx), Err(GoldRushError::RoundNotReadyForSettlement));
    let mut ctx = base(&[1, 2, 3]);
    ctx.round.captured_end_groups = 3;
    assert_eq!(finalize_end_groups::handler(&mut ctx), Err(GoldRushError::GroupAssetAlreadyCapturedEndPrice));
    let mut ctx = base(&[1, 2, 3]);
    ctx.signer = addr(66);
    assert_eq!(finalize_end_groups::handler(&mut ctx), Err(GoldRushError::UnauthorizedKeeper));
}

fn battle() -> (Config, Round, Vec<Bet>) {
    let (config, round) = active(3);
    let (config, round, a) = place(config, round, 30, 300, 1);
    let (config, round, b) = place(config, round, 31, 500, 2);
    let (config, round, c) = place(config, round, 32, 200, 3);
    let mut ctx = choose_winners(config, round, &[200, 200, 150]);
    finalize_end_groups::handler(&mut ctx).unwrap();
    (ctx.config, ctx.round, vec![a, b, c])
}

fn settle_ctx(config: Config, round: Round, bets: Vec<RecordHandle<Bet>>) -> SettleGroupRound {
    SettleGroupRound {
        signer: keeper(),
        config,
        round,
        round_key: round_key(),
        treasury: treasury(),
        program_id: program(),
        remaining_accounts: bets,
        now: 1_100,
    }
}

#[test]
fn bets_on_the_tied_winners_split_the_pool() {
    let (config, round, bets) = battle();
    assert_eq!(bets[0].group, Some(group_key(1)));
    assert_eq!(round.total_pool, 1_000);
    let mut ctx = settle_ctx(config, round, bets.iter().map(bet_handle).collect());
    let receipt = settle_group_round::handler(&mut ctx).unwrap();
    assert_eq!(receipt.settled[0].status, BetStatus::Won);
    assert_eq!(receipt.settled[1].status, BetStatus::Won);
    assert_eq!(receipt.settled[2].status, BetStatus::Lost);
    // the group-battle fee of 300 bps
    assert_eq!(receipt.fee_transfer, 30);
    assert_eq!(ctx.round.total_fee_collected, 30);
    assert_eq!(ctx.round.total_reward_pool, 970);
    assert_eq!(ctx.round.winners_weight, 800);
    assert_eq!(ctx.round.status, RoundStatus::Ended);
    assert_eq!(ctx.round.settled_at, Some(1_100));
    assert_eq!(ctx.round.final_price, None);
    let first = gold_rush::instructions::claim_reward::calculate_reward(&receipt.settled[0], &ctx.round).unwrap();
    let second = gold_rush::instructions::claim_reward::calculate_reward(&receipt.settled[1], &ctx.round).unwrap();
    assert_eq!(first, 363);
    assert_eq!(second, 606);
    assert!(first + second <= 970);
}

#[test]
fn a_bet_without_a_group_never_wins() {
    let (config, round, bets) = battle();
    let mut orphan = bets[0];
    orphan.group = None;
    let mut elsewhere = bets[1];
    elsewhere.group = Some(addr(66));
    let mut ctx = settle_ctx(config, round, vec![bet_handle(&orphan), bet_handle(&elsewhere)]);
    let receipt = settle_group_round::handler(&mut ctx).unwrap();
    assert_eq!(receipt.settled[0].status, BetStatus::Lost);
    assert_eq!(receipt.settled[1].status, BetStatus::Lost);
    assert_eq!(ctx.round.winners_weight, 0);
    assert_eq!(ctx.round.status, RoundStatus::PendingSettlement);
}

#[test]
fn when_every_group_wins_all_bets_draw_and_no_fee_is_taken() {
    let (config, round) = active(3);
    let (config, round, a) = place(config, round, 30, 300, 1);
    let (config, round, b) = place(config, round, 31, 700, 3);
    let mut ctx = choose_winners(config, round, &[40, 40, 40]);
    finalize_end_groups::handler(&mut ctx).unwrap();
    assert_eq!(ctx.round.winner_group_ids, vec![1, 2, 3]);
    let mut ctx = settle_ctx(ctx.config, ctx.round, vec![bet_handle(&a), bet_handle(&b)]);
    let receipt = settle_group_round::handler(&mut ctx).unwrap();
    assert_eq!(receipt.fee_transfer, 0);
    assert_eq!(receipt.settled[0].status, BetStatus::Draw);
    assert_eq!(receipt.settled[1].status, BetStatus::Draw);
    assert_eq!(ctx.round.total_fee_collected, 0);
    assert_eq!(ctx.round.total_reward_pool, 1_000);
    assert_eq!(ctx.round.status, RoundStatus::Ended);
}

#[test]
fn settle_group_round_rejections() {
    let (config, round, bets) = battle();
    let base = || settle_ctx(config.clone(), round.clone(), bets.iter().map(bet_handle).collect());
    let mut ctx = base();
    ctx.round.winner_group_ids = vec![];
    assert_eq!(settle_group_round::handler(&mut ctx).err(), Some(GoldRushError::SettlementFailed));
    let mut ctx = base();
    ctx.round.settled_bets = 3;
    assert_eq!(settle_group_round::handler(&mut ctx).err(), Some(GoldRushError::AllBetsAlreadySettled));
    let mut ctx = base();
    ctx.round.market_type = MarketType::SingleAsset;
    assert_eq!(settle_group_round::handler(&mut ctx).err(), Some(GoldRushError::InvalidRoundMarketType));
    let mut ctx = base();
    ctx.now = 1_099;
    assert_eq!(settle_group_round::handler(&mut ctx).err(), Some(GoldRushError::RoundNotReadyForSettlement));
    let mut ctx = base();
    ctx.round.status = RoundStatus::Ended;
    assert_eq!(settle_group_round::handler(&mut ctx).err(), Some(GoldRushError::InvalidRoundStatus));
    let mut ctx = base();
    ctx.round.status = RoundStatus::Cancelling;
    assert_eq!(settle_group_round::handler(&mut ctx).err(), Some(GoldRushError::InvalidRoundStatus));
    let mut ctx = base();
    ctx.config.status = ContractStatus::EmergencyPaused;
    assert_eq!(settle_group_round::handler(&mut ctx).err(), Some(GoldRushError::ProgramPaused));
    let mut ctx = base();
    ctx.treasury = addr(66);
    assert_eq!(settle_group_round::handler(&mut ctx).err(), Some(GoldRushError::InvalidTreasuryAuthority));
    let mut ctx = base();
    ctx.remaining_accounts[2].owner = addr(66);
    assert_eq!(settle_group_round::handler(&mut ctx).err(), Some(GoldRushError::InvalidBetAccount));
    assert_eq!(ctx.round.settled_bets, 0);
    assert!(!ctx.round.fee_locked);
    let mut ctx = base();
    ctx.remaining_accounts = (0..21).map(|_| bet_handle(&bets[0])).collect();
    assert_eq!(
        settle_group_round::handler(&mut ctx).err(),
        Some(GoldRushError::InvalidRemainingAccountsLength)
    );
    // a group battle without bets ends at once
    let (config, round) = active(2);
    let mut ctx = choose_winners(config, round, &[1, 2]);
    finalize_end_groups::handler(&mut ctx).unwrap();
    let mut ctx = settle_ctx(ctx.config, ctx.round, vec![]);
    let receipt = settle_group_round::handler(&mut ctx).unwrap();
    assert!(receipt.settled.is_empty());
    assert_eq!(ctx.round.status, RoundStatus::Ended);
    assert!(!ctx.round.fee_locked);
}
