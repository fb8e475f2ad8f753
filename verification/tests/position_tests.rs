use crucible_engine::errors::EngineError;
use crucible_engine::liquidation::{liquidate, ltv_bps, LiquidationParams};
use crucible_engine::position::{close_position, open_position, PositionParams};

fn standard_params() -> PositionParams {
    PositionParams {
        min_collateral: 1_000,
        max_collateral: 1_000_000_000_000_000_000,
        max_leverage_factor: 200,
        principal_fee_bps: 200,
        yield_fee_bps: 1_000,
        fee_vault_share_bps: 8_000,
        max_price_change_bps: 5_000,
    }
}

#[test]
fn open_computes_value_and_borrow_from_leverage() {
    let receipt =
        open_position(&standard_params(), false, 7, 1_000, 150, 2_000_000, None, 1_000_000, 7)
            .unwrap();
    assert_eq!(receipt.collateral_value, 2_000);
    assert_eq!(receipt.borrowed, 1_000);
    assert!(receipt.position.is_open);
    assert_eq!(receipt.position.entry_price, 2_000_000);
    assert_eq!(receipt.position.entry_index, 1_000_000);
    assert_eq!(receipt.position.created_at, 7);
}

#[test]
fn open_rejects_bad_leverage_bounds_and_spoofed_borrow() {
    let params = standard_params();
    assert_eq!(
        open_position(&params, false, 7, 1_000, 99, 2_000_000, None, 1, 0),
        Err(EngineError::InvalidAmount)
    );
    assert_eq!(
        open_position(&params, false, 7, 1_000, 201, 2_000_000, None, 1, 0),
        Err(EngineError::InvalidAmount)
    );
    assert_eq!(
        open_position(&params, false, 7, 999, 150, 2_000_000, None, 1, 0),
        Err(EngineError::InvalidAmount)
    );
    assert_eq!(
        open_position(&params, true, 7, 1_000, 150, 2_000_000, None, 1, 0),
        Err(EngineError::ProtocolPaused)
    );
    // A supplied borrow amount must match the recomputed one exactly.
    assert_eq!(
        open_position(&params, false, 7, 1_000, 150, 2_000_000, Some(1_001), 1, 0),
        Err(EngineError::InvalidAmount)
    );
    assert!(open_position(&params, false, 7, 1_000, 150, 2_000_000, Some(1_000), 1, 0).is_ok());
}

#[test]
fn immediate_close_returns_collateral_minus_principal_fee() {
    let params = standard_params();
    let opened =
        open_position(&params, false, 7, 1_000, 150, 2_000_000, None, 1_000_000, 0).unwrap();
    let mut pos = opened.position;
    let receipt =
        close_position(&mut pos, &params, 7, 2_000_000, 1_000_000, opened.borrowed, 100).unwrap();
    assert_eq!(receipt.yield_value, 0);
    assert_eq!(receipt.principal_fee, 40);
    assert_eq!(receipt.yield_fee, 0);
    // 40 quote units of fee are 20 base units at a price of 2.0.
    assert_eq!(receipt.payout, 1_000 - 20);
    assert_eq!(receipt.repay_amount, 1_000);
    assert!(!pos.is_open);
}

#[test]
fn close_settles_rate_yield_and_price_gain() {
    let params = standard_params();
    let opened =
        open_position(&params, false, 7, 1_000, 150, 2_000_000, None, 1_000_000, 0).unwrap();
    let mut pos = opened.position;
    // The vault index grew 5% and the price 4%.
    let receipt =
        close_position(&mut pos, &params, 7, 2_080_000, 1_050_000, opened.borrowed, 500).unwrap();
    assert_eq!(receipt.entry_value, 2_000);
    assert_eq!(receipt.current_value, 2_080);
    // Yield: 2_000 * 5% index growth + 80 price gain = 180 quote units.
    assert_eq!(receipt.yield_value, 180);
    assert_eq!(receipt.principal_fee, 40);
    assert_eq!(receipt.yield_fee, 18);
    assert_eq!(receipt.total_fee, 58);
    assert_eq!(receipt.vault_fee_share, 46);
    assert_eq!(receipt.treasury_fee_share, 12);
    // Payout: 1_000 + floor(180 / 2.08) - floor(58 / 2.08) = 1_000 + 86 - 27.
    assert_eq!(receipt.payout, 1_059);
}

#[test]
fn close_rejects_closed_positions_price_jumps_and_slippage() {
    let params = standard_params();
    let opened =
        open_position(&params, false, 7, 1_000, 150, 2_000_000, None, 1_000_000, 0).unwrap();
    let mut pos = opened.position;
    // More than 50% price move since entry.
    assert_eq!(
        close_position(&mut pos, &params, 7, 3_100_000, 1_000_000, 0, 10_000),
        Err(EngineError::OracleOutOfBounds)
    );
    // Value moved 4%, tolerance 1%.
    assert_eq!(
        close_position(&mut pos, &params, 7, 2_080_000, 1_000_000, 0, 100),
        Err(EngineError::SlippageExceeded)
    );
    assert!(pos.is_open);
    close_position(&mut pos, &params, 7, 2_000_000, 1_000_000, 0, 100).unwrap();
    assert_eq!(
        close_position(&mut pos, &params, 7, 2_000_000, 1_000_000, 0, 100),
        Err(EngineError::PositionNotOpen)
    );
}

#[test]
fn only_the_owner_may_close_a_position() {
    let params = standard_params();
    let opened =
        open_position(&params, false, 7, 1_000, 150, 2_000_000, None, 1_000_000, 0).unwrap();
    let mut pos = opened.position;
    assert_eq!(pos.owner, 7);
    assert_eq!(
        close_position(&mut pos, &params, 8, 2_000_000, 1_000_000, 0, 100),
        Err(EngineError::Unauthorized)
    );
    assert!(pos.is_open);
    assert!(close_position(&mut pos, &params, 7, 2_000_000, 1_000_000, 0, 100).is_ok());
}

#[test]
fn ltv_measures_debt_against_collateral_value() {
    // 5_000 base units at a price of 2.0 are worth 10_000: the loan-to-value
    // in basis points equals the debt.
    assert_eq!(ltv_bps(5_000, 2_000_000, 4_000).unwrap(), 4_000);
    assert_eq!(ltv_bps(5_000, 2_000_000, 0).unwrap(), 0);
    // Worthless collateral cannot be measured.
    assert_eq!(ltv_bps(0, 2_000_000, 1), Err(EngineError::InvalidAmount));
}

#[test]
fn liquidation_boundary_is_exact() {
    let params = LiquidationParams { threshold_bps: 8_500, bonus_bps: 500 };
    let opened = open_position(
        &standard_params(),
        false,
        7,
        5_000,
        150,
        2_000_000,
        None,
        1_000_000,
        0,
    )
    .unwrap();

    // One basis point below the threshold: refused.
    let mut pos = opened.position;
    assert_eq!(
        liquidate(&mut pos, &params, 2_000_000, 8_499),
        Err(EngineError::NotLiquidatable)
    );
    assert!(pos.is_open);

    // Exactly at the threshold: accepted, seizing min(collateral, repay/price).
    let receipt = liquidate(&mut pos, &params, 2_000_000, 8_500).unwrap();
    assert_eq!(receipt.ltv_bps, 8_500);
    assert_eq!(receipt.bonus, 425);
    assert_eq!(receipt.repay_amount, 8_925);
    // 8_925 quote units at a price of 2.0 are 4_462 base units < 5_000.
    assert_eq!(receipt.collateral_seized, 4_462);
    assert!(!pos.is_open);
    assert_eq!(pos.collateral, 5_000 - 4_462);
    assert_eq!(pos.borrowed, 0);
}

#[test]
fn liquidation_seizure_is_capped_at_the_collateral() {
    let params = LiquidationParams { threshold_bps: 8_500, bonus_bps: 500 };
    let opened = open_position(
        &standard_params(),
        false,
        7,
        5_000,
        150,
        2_000_000,
        None,
        1_000_000,
        0,
    )
    .unwrap();
    let mut pos = opened.position;
    // A debt worth more than the collateral: everything is seized.
    let receipt = liquidate(&mut pos, &params, 2_000_000, 20_000).unwrap();
    assert_eq!(receipt.collateral_seized, 5_000);
    assert_eq!(pos.collateral, 0);
}

#[test]
fn liquidating_a_closed_position_is_refused() {
    let params = LiquidationParams { threshold_bps: 8_500, bonus_bps: 500 };
    let opened = open_position(
        &standard_params(),
        false,
        7,
        5_000,
        150,
        2_000_000,
        None,
        1_000_000,
        0,
    )
    .unwrap();
    let mut pos = opened.position;
    liquidate(&mut pos, &params, 2_000_000, 20_000).unwrap();
    assert_eq!(
        liquidate(&mut pos, &params, 2_000_000, 20_000),
        Err(EngineError::PositionNotOpen)
    );
}

#[test]
fn configs_are_validated() {
    let mut params = standard_params();
    params.max_leverage_factor = 99;
    assert_eq!(params.validate(), Err(EngineError::InvalidConfig));
    let mut params = standard_params();
    params.principal_fee_bps = 10_001;
    assert_eq!(params.validate(), Err(EngineError::InvalidConfig));
    assert!(standard_params().validate().is_ok());

    assert_eq!(
        LiquidationParams { threshold_bps: 0, bonus_bps: 0 }.validate(),
        Err(EngineError::InvalidConfig)
    );
    assert_eq!(
        LiquidationParams { threshold_bps: 8_500, bonus_bps: 5_001 }.validate(),
        Err(EngineError::InvalidConfig)
    );
    assert!(LiquidationParams { threshold_bps: 8_500, bonus_bps: 500 }.validate().is_ok());
}
