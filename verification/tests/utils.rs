use gold_rush::constants::{BetDirection, MarketType, HUNDRED_PERCENT_BPS};
use gold_rush::error::GoldRushError;
use gold_rush::utils::math::{checked_pow10, trunc_div};
use gold_rush::utils::{
    calculate_bet_weight, calculate_direction_factor, calculate_time_factor, is_bet_winner,
    normalize_price_to_u64,
};

#[test]
fn test_is_bet_winner_true() {
    assert_eq!(is_bet_winner(BetDirection::Up, 1), Some(true));
    assert_eq!(is_bet_winner(BetDirection::Down, -1), Some(true));
    assert_eq!(is_bet_winner(BetDirection::PercentageChangeBps(1), 1), Some(true));
    assert_eq!(is_bet_winner(BetDirection::PercentageChangeBps(-1), -1), Some(true));
}

#[test]
fn test_is_bet_winner_false() {
    assert_eq!(is_bet_winner(BetDirection::PercentageChangeBps(0), 1), Some(false));
    assert_eq!(is_bet_winner(BetDirection::PercentageChangeBps(0), -1), Some(false));
    assert_eq!(is_bet_winner(BetDirection::Up, -1), Some(false));
    assert_eq!(is_bet_winner(BetDirection::Down, 1), Some(false));
    assert_eq!(is_bet_winner(BetDirection::PercentageChangeBps(1), -1), Some(false));
    assert_eq!(is_bet_winner(BetDirection::PercentageChangeBps(-1), 1), Some(false));
}

#[test]
fn test_is_bet_winner_none() {
    assert_eq!(is_bet_winner(BetDirection::Up, 0), None);
    assert_eq!(is_bet_winner(BetDirection::Down, 0), None);
    assert_eq!(is_bet_winner(BetDirection::PercentageChangeBps(0), 0), None);
}

#[test]
fn test_up_down_direction() {
    let default = HUNDRED_PERCENT_BPS as u64;

    assert_eq!(
        calculate_direction_factor(&MarketType::SingleAsset, &BetDirection::Up, default).unwrap(),
        default
    );
    assert_eq!(
        calculate_direction_factor(&MarketType::GroupBattle, &BetDirection::Down, default).unwrap(),
        default
    );
}

#[test]
fn test_percentage_change_zero() {
    let default = HUNDRED_PERCENT_BPS as u64;
    assert_eq!(
        calculate_direction_factor(
            &MarketType::SingleAsset,
            &BetDirection::PercentageChangeBps(0),
            default
        )
        .unwrap(),
        default
    );
}

#[test]
fn test_gold_percentage_change_positive() {
    let default = HUNDRED_PERCENT_BPS as u64;
    let result = calculate_direction_factor(
        &MarketType::SingleAsset,
        &BetDirection::PercentageChangeBps(500),
        default,
    )
    .unwrap();
    assert_eq!(result, 12_500);
}

#[test]
fn test_gold_percentage_change_negative() {
    let default = HUNDRED_PERCENT_BPS as u64;
    let result = calculate_direction_factor(
        &MarketType::SingleAsset,
        &BetDirection::PercentageChangeBps(-300),
        default,
    )
    .unwrap();
    assert_eq!(result, 10_900);
}

#[test]
fn test_stock_percentage_change_positive() {
    let default = HUNDRED_PERCENT_BPS as u64;
    let result = calculate_direction_factor(
        &MarketType::GroupBattle,
        &BetDirection::PercentageChangeBps(400),
        default,
    )
    .unwrap();
    assert_eq!(result, 10_400);
}

#[test]
fn test_stock_percentage_change_negative() {
    let default = HUNDRED_PERCENT_BPS as u64;
    let result = calculate_direction_factor(
        &MarketType::GroupBattle,
        &BetDirection::PercentageChangeBps(-200),
        default,
    )
    .unwrap();
    assert_eq!(result, 10_200);
}

#[test]
fn test_time_factor_at_start() {
    let factor = calculate_time_factor(&MarketType::SingleAsset, 0, 500, 10_000, 100).unwrap();
    assert_eq!(factor, 10_000);

    let factor = calculate_time_factor(&MarketType::GroupBattle, 0, 500, 10_000, 100).unwrap();
    assert_eq!(factor, 10_000);
}

#[test]
fn test_time_factor_halfway_gold() {
    let factor = calculate_time_factor(&MarketType::SingleAsset, 50, 500, 10_000, 100).unwrap();
    assert_eq!(factor, 2_500);
}

#[test]
fn test_time_factor_halfway_stock() {
    let factor = calculate_time_factor(&MarketType::GroupBattle, 50, 500, 10_000, 100).unwrap();
    assert_eq!(factor, 5_000);
}

#[test]
fn test_time_factor_at_end() {
    let factor = calculate_time_factor(&MarketType::SingleAsset, 100, 500, 10_000, 100).unwrap();
    assert_eq!(factor, 500);

    let factor = calculate_time_factor(&MarketType::GroupBattle, 100, 500, 10_000, 100).unwrap();
    assert_eq!(factor, 500);
}

#[test]
fn test_time_factor_invalid_duration() {
    let result = calculate_time_factor(&MarketType::SingleAsset, 50, 500, 10_000, 0);
    assert!(result.is_err());

    let result = calculate_time_factor(&MarketType::GroupBattle, 50, 500, 10_000, -10);
    assert!(result.is_err());
}

#[test]
fn invalid_duration_is_the_error_reported() {
    assert_eq!(
        calculate_time_factor(&MarketType::SingleAsset, 50, 500, 10_000, 0),
        Err(GoldRushError::InvalidDuration)
    );
    assert_eq!(
        calculate_time_factor(&MarketType::GroupBattle, 0, 500, 10_000, i64::MIN),
        Err(GoldRushError::InvalidDuration)
    );
}

#[test]
fn time_factor_never_grows_with_elapsed_time() {
    for market in [MarketType::SingleAsset, MarketType::GroupBattle] {
        let mut previous = u64::MAX;
        for elapsed in -5i64..=130 {
            let factor = calculate_time_factor(&market, elapsed, 700, 9_000, 120).unwrap();
            assert!(factor <= previous);
            assert!(factor >= 700 && factor <= 9_000);
            previous = factor;
        }
        assert_eq!(calculate_time_factor(&market, 0, 700, 9_000, 120), Ok(9_000));
        assert_eq!(calculate_time_factor(&market, 120, 700, 9_000, 120), Ok(700));
        assert_eq!(calculate_time_factor(&market, i64::MAX, 700, 9_000, 120), Ok(700));
    }
}

#[test]
fn negative_elapsed_time_counts_as_none() {
    assert_eq!(calculate_time_factor(&MarketType::SingleAsset, -1, 500, 10_000, 100), Ok(10_000));
    assert_eq!(calculate_time_factor(&MarketType::GroupBattle, -1, 500, 10_000, 100), Ok(10_000));
    assert_eq!(
        calculate_time_factor(&MarketType::GroupBattle, i64::MIN, 500, 10_000, 100),
        Ok(10_000)
    );
}

#[test]
fn time_factor_exact_values() {
    // linear: 10000 - 25 * 10000 / 100
    assert_eq!(calculate_time_factor(&MarketType::GroupBattle, 25, 500, 10_000, 100), Ok(7_500));
    // quadratic: 75^2 * 10000 / 100^2
    assert_eq!(calculate_time_factor(&MarketType::SingleAsset, 25, 500, 10_000, 100), Ok(5_625));
    // rounding down: 2^2 * 10 / 3^2 = 40 / 9
    assert_eq!(calculate_time_factor(&MarketType::SingleAsset, 1, 0, 10, 3), Ok(4));
    // rounding of the reduction: 10 - floor(1 * 10 / 3)
    assert_eq!(calculate_time_factor(&MarketType::GroupBattle, 1, 0, 10, 3), Ok(7));
    // the floor applies before the end
    assert_eq!(calculate_time_factor(&MarketType::SingleAsset, 90, 500, 10_000, 100), Ok(500));
}

#[test]
fn quadratic_decay_reports_overflow() {
    assert_eq!(
        calculate_time_factor(&MarketType::SingleAsset, 0, 0, u64::MAX, i64::MAX),
        Err(GoldRushError::Overflow)
    );
    assert_eq!(
        calculate_time_factor(&MarketType::GroupBattle, 0, 0, u64::MAX, i64::MAX),
        Ok(u64::MAX)
    );
}

#[test]
fn direction_factor_overflow_cases() {
    assert_eq!(
        calculate_direction_factor(
            &MarketType::SingleAsset,
            &BetDirection::PercentageChangeBps(i16::MIN),
            10_000
        ),
        Err(GoldRushError::Overflow)
    );
    assert_eq!(
        calculate_direction_factor(
            &MarketType::GroupBattle,
            &BetDirection::PercentageChangeBps(i16::MIN),
            10_000
        ),
        Err(GoldRushError::Overflow)
    );
    assert_eq!(
        calculate_direction_factor(
            &MarketType::GroupBattle,
            &BetDirection::PercentageChangeBps(1),
            u64::MAX
        ),
        Err(GoldRushError::Overflow)
    );
    assert_eq!(
        calculate_direction_factor(
            &MarketType::SingleAsset,
            &BetDirection::PercentageChangeBps(10),
            u64::MAX
        ),
        Err(GoldRushError::Overflow)
    );
    // a bonus of zero does not overflow
    assert_eq!(
        calculate_direction_factor(
            &MarketType::SingleAsset,
            &BetDirection::PercentageChangeBps(9),
            u64::MAX
        ),
        Ok(u64::MAX)
    );
    assert_eq!(
        calculate_direction_factor(
            &MarketType::SingleAsset,
            &BetDirection::PercentageChangeBps(i16::MAX),
            10_000
        ),
        Ok(10_000 + 32_767 * 32_767 / 100)
    );
    assert_eq!(
        calculate_direction_factor(
            &MarketType::GroupBattle,
            &BetDirection::PercentageChangeBps(-32_767),
            10_000
        ),
        Ok(42_767)
    );
}

#[test]
fn bet_weight_exact_values() {
    assert_eq!(calculate_bet_weight(1_000_000, 12_500, 2_500), Ok(312_500));
    assert_eq!(calculate_bet_weight(400, 10_000, 10_000), Ok(400));
    // rounds down: 999 * 10000 * 5000 / 10^8 = 499.5
    assert_eq!(calculate_bet_weight(999, 10_000, 5_000), Ok(499));
    assert_eq!(calculate_bet_weight(0, 10_000, 10_000), Ok(0));
    assert_eq!(calculate_bet_weight(u64::MAX, 10_000, 10_000), Ok(u64::MAX));
}

#[test]
fn bet_weight_reports_overflow() {
    assert_eq!(calculate_bet_weight(u64::MAX, 10_001, 10_000), Err(GoldRushError::Overflow));
    assert_eq!(calculate_bet_weight(u64::MAX, u64::MAX, u64::MAX), Err(GoldRushError::Overflow));
}

#[test]
fn bet_weight_stays_within_the_bounds_of_the_market() {
    let default = 10_000u64;
    let (min, max) = (500u64, 10_000u64);
    for market in [MarketType::SingleAsset, MarketType::GroupBattle] {
        let top = calculate_direction_factor(
            &market,
            &BetDirection::PercentageChangeBps(i16::MAX),
            default,
        )
        .unwrap();
        let bound = calculate_bet_weight(1_000_000, top, max).unwrap();
        for direction in [
            BetDirection::Up,
            BetDirection::Down,
            BetDirection::PercentageChangeBps(-700),
            BetDirection::PercentageChangeBps(i16::MAX),
        ] {
            for elapsed in [0i64, 1, 50, 99, 100] {
                let df = calculate_direction_factor(&market, &direction, default).unwrap();
                let tf = calculate_time_factor(&market, elapsed, min, max, 100).unwrap();
                assert!(calculate_bet_weight(1_000_000, df, tf).unwrap() <= bound);
            }
        }
    }
}

#[test]
fn normalize_price_exact_values() {
    assert_eq!(normalize_price_to_u64(123_456_789, -8), Ok(1_234_567));
    assert_eq!(normalize_price_to_u64(123_456_789, -6), Ok(123_456_789));
    assert_eq!(normalize_price_to_u64(123_456_789, -4), Ok(12_345_678_900));
    assert_eq!(normalize_price_to_u64(7, 0), Ok(7_000_000));
    assert_eq!(normalize_price_to_u64(0, -8), Ok(0));
    // a negative price that rounds toward zero is no longer negative
    assert_eq!(normalize_price_to_u64(-5, -7), Ok(0));
    assert_eq!(normalize_price_to_u64(i64::MAX, -44), Ok(0));
}

#[test]
fn normalize_price_errors() {
    assert_eq!(normalize_price_to_u64(-5, -6), Err(GoldRushError::InvalidAssetPrice));
    assert_eq!(normalize_price_to_u64(-50, -7), Err(GoldRushError::InvalidAssetPrice));
    assert_eq!(normalize_price_to_u64(1, 14), Err(GoldRushError::Overflow));
    assert_eq!(normalize_price_to_u64(1, i32::MAX), Err(GoldRushError::Overflow));
    assert_eq!(normalize_price_to_u64(1, 40), Err(GoldRushError::Overflow));
    assert_eq!(normalize_price_to_u64(1, -50), Err(GoldRushError::Overflow));
    assert_eq!(normalize_price_to_u64(i64::MIN, 30), Err(GoldRushError::Overflow));
}

#[test]
fn powers_of_ten_and_truncating_division() {
    assert_eq!(checked_pow10(0), Some(1));
    assert_eq!(checked_pow10(6), Some(1_000_000));
    assert_eq!(checked_pow10(38), Some(100_000_000_000_000_000_000_000_000_000_000_000_000));
    assert_eq!(checked_pow10(39), None);
    assert_eq!(checked_pow10(u32::MAX), None);
    assert_eq!(trunc_div(-5, 2), -2);
    assert_eq!(trunc_div(5, 2), 2);
    assert_eq!(trunc_div(-4, 2), -2);
}
