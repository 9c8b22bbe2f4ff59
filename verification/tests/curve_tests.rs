use launchpad::address::Address;
use launchpad::errors::LaunchpadError;
use launchpad::state::{CurveType, Launch, LaunchStatus, MigrateType};

fn curve_launch(curve_type: CurveType, tokens_sold: u64) -> Launch {
    Launch {
        creator: Address::new([1u8; 32]),
        mint: Address::new([2u8; 32]),
        name: String::from("Sample"),
        symbol: String::from("SMP"),
        uri: String::from("https://example.org/sample.json"),
        total_supply: 1_000_000_000,
        total_sell_amount: 600_000_000,
        total_fund_raising: 30_000_000_000,
        tokens_sold,
        sol_raised: 0,
        curve_type,
        migrate_type: MigrateType::CPMM,
        status: LaunchStatus::Active,
        creator_fee_earned: 0,
        cliff_period: 0,
        unlock_period: 0,
        launch_time: 1_700_000_000,
        migrate_time: 0,
        pool_address: Address::default(),
        bump: 254,
    }
}

#[test]
fn every_curve_starts_at_the_base_price() {
    assert_eq!(curve_launch(CurveType::Linear, 0).calculate_price(0), Ok(50_000_000));
    assert_eq!(curve_launch(CurveType::Exponential, 0).calculate_price(0), Ok(50_000_000));
    assert_eq!(curve_launch(CurveType::Logarithmic, 0).calculate_price(0), Ok(50_000_000));
}

#[test]
fn linear_price_grows_with_progress() {
    let launch = curve_launch(CurveType::Linear, 0);
    assert_eq!(launch.calculate_price(10_000_000), Ok(50_833_300));
    assert_eq!(launch.calculate_price(30_000_000), Ok(52_500_000));
    assert_eq!(launch.calculate_price(300_000_000), Ok(75_000_000));
    assert_eq!(launch.calculate_price(600_000_000), Ok(100_000_000));
    assert_eq!(launch.calculate_price(123_456_789), Ok(60_288_050));
}

#[test]
fn exponential_price_grows_with_the_square() {
    let launch = curve_launch(CurveType::Exponential, 0);
    assert_eq!(launch.calculate_price(10_000_000), Ok(51_680_450));
    assert_eq!(launch.calculate_price(30_000_000), Ok(55_125_000));
    assert_eq!(launch.calculate_price(300_000_000), Ok(112_500_000));
    assert_eq!(launch.calculate_price(600_000_000), Ok(200_000_000));
    assert_eq!(launch.calculate_price(123_456_789), Ok(72_692_950));
}

#[test]
fn logarithmic_price_slows_down_after_a_tenth() {
    let launch = curve_launch(CurveType::Logarithmic, 0);
    assert_eq!(launch.calculate_price(10_000_000), Ok(50_833_300));
    assert_eq!(launch.calculate_price(30_000_000), Ok(52_500_000));
    assert_eq!(launch.calculate_price(59_999_999), Ok(54_999_950));
    assert_eq!(launch.calculate_price(60_000_000), Ok(55_000_000));
    assert_eq!(launch.calculate_price(300_000_000), Ok(65_000_000));
    assert_eq!(launch.calculate_price(600_000_000), Ok(77_500_000));
    assert_eq!(launch.calculate_price(123_456_789), Ok(57_644_000));
}

#[test]
fn price_is_zero_when_nothing_is_for_sale() {
    let curves = [CurveType::Linear, CurveType::Exponential, CurveType::Logarithmic];
    for curve in curves {
        let mut launch = curve_launch(curve, 0);
        launch.total_sell_amount = 0;
        assert_eq!(launch.calculate_price(0), Ok(0));
        assert_eq!(launch.calculate_price(1_000), Ok(0));
        assert_eq!(launch.calculate_price(u64::MAX), Ok(0));
        assert_eq!(launch.calculate_tokens_for_sol(1_000_000), Ok(0));
        assert_eq!(launch.calculate_sol_for_tokens(1_000_000), Ok(0));
        assert_eq!(launch.get_progress(), 0);
    }
}

#[test]
fn price_is_zero_when_the_base_price_rounds_to_zero() {
    let curves = [CurveType::Linear, CurveType::Exponential, CurveType::Logarithmic];
    for curve in curves {
        let mut launch = curve_launch(curve, 0);
        launch.total_fund_raising = 599;
        assert_eq!(launch.calculate_price(0), Ok(0));
        assert_eq!(launch.calculate_price(u64::MAX), Ok(0));
    }
}

#[test]
fn price_never_falls_as_more_is_sold() {
    let curves = [CurveType::Linear, CurveType::Exponential, CurveType::Logarithmic];
    for curve in curves {
        let launch = curve_launch(curve, 0);
        let mut sold: u64 = 0;
        let mut last: u64 = 0;
        while sold <= 600_000_000 {
            let price = launch.calculate_price(sold).unwrap();
            assert!(price >= last);
            last = price;
            sold += 7_777_777;
        }
    }
}

#[test]
fn price_uses_wide_products() {
    // Sold count and target whose products with the scale exceed 64 bits.
    let mut launch = curve_launch(CurveType::Exponential, 0);
    launch.total_sell_amount = 800_000_000_000_000_000;
    launch.total_fund_raising = 400_000_000_000_000_000;
    assert_eq!(launch.calculate_price(0), Ok(500_000));
    assert_eq!(launch.calculate_price(400_000_000_000_000_000), Ok(1_125_000));
    assert_eq!(launch.calculate_price(800_000_000_000_000_000), Ok(2_000_000));
}

#[test]
fn price_above_64_bits_is_an_overflow() {
    let mut launch = curve_launch(CurveType::Linear, 0);
    launch.total_sell_amount = 1;
    launch.total_fund_raising = 18_446_744_073_709;
    assert_eq!(launch.calculate_price(0), Ok(18_446_744_073_709_000_000));
    launch.total_fund_raising = 18_446_744_073_710;
    assert_eq!(launch.calculate_price(0), Err(LaunchpadError::ArithmeticOverflow));

    let mut steep = curve_launch(CurveType::Exponential, 0);
    steep.total_sell_amount = 1;
    steep.total_fund_raising = u64::MAX;
    assert_eq!(steep.calculate_price(u64::MAX), Err(LaunchpadError::ArithmeticOverflow));
    steep.tokens_sold = u64::MAX;
    assert_eq!(steep.calculate_tokens_for_sol(1), Err(LaunchpadError::ArithmeticOverflow));
    assert_eq!(steep.calculate_sol_for_tokens(1), Err(LaunchpadError::ArithmeticOverflow));
}

#[test]
fn quotes_use_the_current_spot_price() {
    let launch = curve_launch(CurveType::Linear, 10_000_000);
    assert_eq!(launch.calculate_price(launch.tokens_sold), Ok(50_833_300));
    assert_eq!(launch.calculate_tokens_for_sol(500_000_000), Ok(9_836_072));
    assert_eq!(launch.calculate_sol_for_tokens(1_000_000), Ok(50_833_300));
    assert_eq!(launch.calculate_sol_for_tokens(9_836_072), Ok(499_999_998));
    assert_eq!(launch.calculate_tokens_for_sol(0), Ok(0));
    assert_eq!(launch.calculate_sol_for_tokens(0), Ok(0));
}

#[test]
fn quote_above_64_bits_is_an_overflow() {
    let mut cheap = curve_launch(CurveType::Linear, 0);
    cheap.total_sell_amount = u64::MAX;
    cheap.total_fund_raising = 30_000_000_000_000;
    // The price is 1 millionth of a unit per token.
    assert_eq!(cheap.calculate_price(0), Ok(1));
    assert_eq!(cheap.calculate_tokens_for_sol(18_446_744_073_709), Ok(18_446_744_073_709_000_000));
    assert_eq!(
        cheap.calculate_tokens_for_sol(18_446_744_073_710),
        Err(LaunchpadError::ArithmeticOverflow)
    );

    let mut dear = curve_launch(CurveType::Linear, 0);
    dear.total_sell_amount = 1;
    dear.total_fund_raising = 18_446_744_073_709;
    assert_eq!(dear.calculate_sol_for_tokens(1_000_000), Ok(18_446_744_073_709_000_000));
    assert_eq!(dear.calculate_sol_for_tokens(1_000_001), Err(LaunchpadError::ArithmeticOverflow));
}

#[test]
fn round_trip_returns_no_more_than_was_paid() {
    let curves = [CurveType::Linear, CurveType::Exponential, CurveType::Logarithmic];
    for curve in curves {
        let mut sold: u64 = 0;
        while sold <= 600_000_000 {
            let launch = curve_launch(curve, sold);
            let mut amount: u64 = 1;
            while amount < 1_000_000_000_000 {
                let tokens = launch.calculate_tokens_for_sol(amount).unwrap();
                let back = launch.calculate_sol_for_tokens(tokens).unwrap();
                assert!(back <= amount);
                amount = amount * 7 + 3;
            }
            sold += 99_999_999;
        }
    }
}

#[test]
fn progress_is_a_percentage() {
    assert_eq!(curve_launch(CurveType::Linear, 0).get_progress(), 0);
    assert_eq!(curve_launch(CurveType::Linear, 5_999_999).get_progress(), 0);
    assert_eq!(curve_launch(CurveType::Linear, 6_000_000).get_progress(), 1);
    assert_eq!(curve_launch(CurveType::Linear, 300_000_000).get_progress(), 50);
    assert_eq!(curve_launch(CurveType::Linear, 599_999_999).get_progress(), 99);
    assert_eq!(curve_launch(CurveType::Linear, 600_000_000).get_progress(), 100);
    let mut large = curve_launch(CurveType::Linear, u64::MAX);
    large.total_sell_amount = u64::MAX;
    assert_eq!(large.get_progress(), 100);
}
