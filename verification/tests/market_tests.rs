use crucible_engine::errors::EngineError;
use crucible_engine::market::{BorrowerAccount, InterestRateModel, LendingMarket};
use crucible_engine::{PAUSE_TIMELOCK_SECONDS, RATE_SCALE, SECONDS_PER_YEAR};

fn standard_model() -> InterestRateModel {
    InterestRateModel {
        base_rate_bps: 500,
        slope1_bps: 1_000,
        slope2_bps: 5_000,
        kink_bps: 8_000,
    }
}

fn standard_market() -> LendingMarket {
    LendingMarket::new(standard_model(), 8_500, 0, 0).unwrap()
}

#[test]
fn new_market_starts_at_index_one() {
    let m = standard_market();
    assert_eq!(m.accumulated_index, RATE_SCALE);
    assert_eq!(m.total_supply, 0);
    assert_eq!(m.total_borrowed, 0);
    assert!(!m.paused);
}

#[test]
fn market_config_is_validated() {
    let mut model = standard_model();
    model.base_rate_bps = 1_000_001;
    assert!(LendingMarket::new(model, 8_500, 0, 0).is_err());
    let mut model = standard_model();
    model.kink_bps = 10_001;
    assert!(LendingMarket::new(model, 8_500, 0, 0).is_err());
    assert_eq!(
        LendingMarket::new(standard_model(), 0, 0, 0),
        Err(EngineError::InvalidConfig)
    );
    assert_eq!(
        LendingMarket::new(standard_model(), 10_000, 0, 0),
        Err(EngineError::InvalidConfig)
    );
}

#[test]
fn one_year_below_kink_accrues_the_exact_linear_rate() {
    let mut m = standard_market();
    m.supply_liquidity(1_000_000, 0).unwrap();
    let mut acct = BorrowerAccount::new(7);
    m.borrow(&mut acct, 7, 400_000, 0).unwrap();
    // Utilization 40%: rate = 5% base + 40% * 10% slope = 9% annually.
    m.accrue(SECONDS_PER_YEAR).unwrap();
    assert_eq!(m.accumulated_index, RATE_SCALE + RATE_SCALE * 9 / 100);
    assert_eq!(m.last_accrued_ts, SECONDS_PER_YEAR);
}

#[test]
fn accrual_above_the_kink_uses_the_steeper_slope() {
    // Pin utilization at 90% directly through the fields.
    let mut m = standard_market();
    m.total_supply = 1_000_000;
    m.total_borrowed = 900_000;
    // Rate = 5% + 80% * 10% + 10% * 50% = 5% + 8% + 5% = 18% annually.
    m.accrue(SECONDS_PER_YEAR).unwrap();
    assert_eq!(m.accumulated_index, RATE_SCALE + RATE_SCALE * 18 / 100);
}

#[test]
fn index_never_decreases_and_past_calls_are_no_ops() {
    let mut m = standard_market();
    m.total_supply = 1_000_000;
    m.total_borrowed = 500_000;
    let mut previous = m.accumulated_index;
    for now in [100u64, 100, 50, 10_000, 10_000, 1_000_000] {
        m.accrue(now).unwrap();
        assert!(m.accumulated_index >= previous);
        previous = m.accumulated_index;
    }
    // A zero-rate model leaves the index exactly where it was.
    let model = InterestRateModel {
        base_rate_bps: 0,
        slope1_bps: 0,
        slope2_bps: 0,
        kink_bps: 8_000,
    };
    let mut flat = LendingMarket::new(model, 8_500, 0, 0).unwrap();
    flat.total_borrowed = 123;
    flat.total_supply = 456;
    flat.accrue(1_000_000_000).unwrap();
    assert_eq!(flat.accumulated_index, RATE_SCALE);
}

#[test]
fn borrow_respects_the_reserve_floor() {
    let mut m = LendingMarket::new(standard_model(), 8_500, 1_000_000, 0).unwrap();
    m.supply_liquidity(2_000_000, 0).unwrap();
    let mut acct = BorrowerAccount::new(7);
    // 2_000_000 supplied, 1_000_000 reserved: at most 1_000_000 borrowable.
    assert_eq!(
        m.borrow(&mut acct, 7, 1_000_001, 0),
        Err(EngineError::InsufficientLiquidity)
    );
    assert_eq!(acct.principal, 0);
    m.borrow(&mut acct, 7, 1_000_000, 0).unwrap();
    assert_eq!(acct.principal, 1_000_000);
    assert_eq!(acct.borrow_index, RATE_SCALE);
    assert_eq!(m.total_borrowed, 1_000_000);
}

#[test]
fn second_borrow_averages_the_entry_index_by_principal() {
    let mut m = standard_market();
    m.supply_liquidity(10_000_000, 0).unwrap();
    let mut acct = BorrowerAccount::new(7);
    m.borrow(&mut acct, 7, 400_000, 0).unwrap();
    let first_index = acct.borrow_index;
    assert_eq!(first_index, RATE_SCALE);
    // Let interest accrue for a year, then double the position.
    m.accrue(SECONDS_PER_YEAR).unwrap();
    let second_index = m.accumulated_index;
    assert!(second_index > first_index);
    m.borrow(&mut acct, 7, 400_000, SECONDS_PER_YEAR).unwrap();
    let expected = (400_000u128 * first_index + 400_000u128 * second_index) / 800_000u128;
    assert_eq!(acct.borrow_index, expected);
    assert!(first_index < acct.borrow_index && acct.borrow_index < second_index + 1);
}

#[test]
fn debt_at_the_entry_index_is_exactly_the_principal() {
    let mut m = standard_market();
    m.supply_liquidity(2_000_000, 0).unwrap();
    let mut acct = BorrowerAccount::new(7);
    m.borrow(&mut acct, 7, 700_000, 0).unwrap();
    assert_eq!(m.total_owed(&acct).unwrap(), 700_000);
}

#[test]
fn repay_in_full_clears_the_account() {
    let mut m = standard_market();
    m.supply_liquidity(2_000_000, 0).unwrap();
    let mut acct = BorrowerAccount::new(7);
    m.borrow(&mut acct, 7, 400_000, 0).unwrap();
    // Utilization 20%: rate = 5% + 2% = 7%; debt after one year = 428_000.
    let receipt = m
        .repay(&mut acct, 7, 428_000, SECONDS_PER_YEAR)
        .unwrap();
    assert_eq!(receipt.total_owed, 428_000);
    assert_eq!(receipt.principal_repaid, 400_000);
    assert_eq!(acct.principal, 0);
    assert_eq!(acct.borrow_index, 0);
    assert_eq!(m.total_borrowed, 0);
}

#[test]
fn partial_repay_retires_the_weighted_principal_portion() {
    let mut m = standard_market();
    m.supply_liquidity(2_000_000, 0).unwrap();
    let mut acct = BorrowerAccount::new(7);
    m.borrow(&mut acct, 7, 400_000, 0).unwrap();
    let receipt = m.repay(&mut acct, 7, 107_000, SECONDS_PER_YEAR).unwrap();
    assert_eq!(receipt.total_owed, 428_000);
    // principal_repaid = 107_000 * RATE_SCALE / (1.07 * RATE_SCALE) = 100_000.
    assert_eq!(receipt.principal_repaid, 100_000);
    assert_eq!(acct.principal, 300_000);
    assert_eq!(acct.borrow_index, RATE_SCALE);
    assert_eq!(m.total_borrowed, 300_000);
}

#[test]
fn repay_rejects_more_than_the_debt() {
    let mut m = standard_market();
    m.supply_liquidity(2_000_000, 0).unwrap();
    let mut acct = BorrowerAccount::new(7);
    m.borrow(&mut acct, 7, 400_000, 0).unwrap();
    assert_eq!(
        m.repay(&mut acct, 7, 428_001, SECONDS_PER_YEAR),
        Err(EngineError::InvalidAmount)
    );
    assert_eq!(acct.principal, 400_000);
    // The failed call rolled the accrual back too.
    assert_eq!(m.accumulated_index, RATE_SCALE);
}

#[test]
fn withdraw_and_available_liquidity() {
    let mut m = standard_market();
    m.supply_liquidity(2_000_000, 0).unwrap();
    let mut acct = BorrowerAccount::new(7);
    m.borrow(&mut acct, 7, 500_000, 0).unwrap();
    assert_eq!(m.available_liquidity().unwrap(), 1_500_000);
    m.withdraw(300_000, 0).unwrap();
    assert_eq!(m.available_liquidity().unwrap(), 1_200_000);
    assert_eq!(
        m.withdraw(2_000_000, 0),
        Err(EngineError::InsufficientLiquidity)
    );
    assert_eq!(m.supply_liquidity(0, 0), Err(EngineError::InvalidAmount));
    assert_eq!(m.withdraw(0, 0), Err(EngineError::InvalidAmount));
}

#[test]
fn paused_market_refuses_every_operation() {
    let mut m = standard_market();
    m.paused = true;
    let mut acct = BorrowerAccount::new(7);
    assert_eq!(m.supply_liquidity(1, 0), Err(EngineError::ProtocolPaused));
    assert_eq!(m.withdraw(1, 0), Err(EngineError::ProtocolPaused));
    assert_eq!(m.borrow(&mut acct, 7, 1, 0), Err(EngineError::ProtocolPaused));
    assert_eq!(m.repay(&mut acct, 7, 1, 0), Err(EngineError::ProtocolPaused));
}

#[test]
fn pause_needs_the_timelock_and_unpause_is_immediate() {
    let mut m = standard_market();
    m.propose_pause(true, 1_000).unwrap();
    assert_eq!(m.pause_proposed_at, Some(1_000));
    assert!(!m.paused);
    // A second proposal while one is pending is refused.
    assert_eq!(m.propose_pause(true, 2_000), Err(EngineError::InvalidConfig));
    // Executing before the delay has elapsed is refused.
    assert_eq!(
        m.execute_pause(1_000 + PAUSE_TIMELOCK_SECONDS - 1),
        Err(EngineError::InvalidConfig)
    );
    assert!(!m.paused);
    m.execute_pause(1_000 + PAUSE_TIMELOCK_SECONDS).unwrap();
    assert!(m.paused);
    assert_eq!(m.pause_proposed_at, None);
    // Unpausing takes effect immediately.
    m.propose_pause(false, 0).unwrap();
    assert!(!m.paused);
}

#[test]
fn only_the_account_owner_may_borrow_or_repay() {
    let mut m = standard_market();
    m.supply_liquidity(2_000_000, 0).unwrap();
    let mut acct = BorrowerAccount::new(7);
    assert_eq!(
        m.borrow(&mut acct, 8, 400_000, 0),
        Err(EngineError::Unauthorized)
    );
    m.borrow(&mut acct, 7, 400_000, 0).unwrap();
    assert_eq!(
        m.repay(&mut acct, 8, 100_000, 0),
        Err(EngineError::Unauthorized)
    );
    assert_eq!(acct.principal, 400_000);
}

#[test]
fn accrual_overflow_aborts_and_changes_nothing() {
    let mut m = standard_market();
    m.accumulated_index = u128::MAX;
    m.total_supply = 1_000_000;
    m.total_borrowed = 900_000;
    assert_eq!(m.accrue(1_000), Err(EngineError::ArithmeticOverflow));
    assert_eq!(m.accumulated_index, u128::MAX);
    assert_eq!(m.last_accrued_ts, 0);
}

#[test]
fn execute_pause_without_a_proposal_is_refused() {
    let mut m = standard_market();
    assert_eq!(m.execute_pause(u64::MAX), Err(EngineError::InvalidConfig));
}
