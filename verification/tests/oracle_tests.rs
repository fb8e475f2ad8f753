use crucible_engine::errors::EngineError;
use crucible_engine::oracle::{validate_price, OracleConfig, PriceData};

fn standard_config() -> OracleConfig {
    OracleConfig {
        max_staleness_seconds: 300,
        max_confidence_bps: 500,
        min_price: 1_000,
        max_price: 1_000_000_000_000,
    }
}

fn fresh_reading() -> PriceData {
    PriceData { price: 2_000_000, confidence_bps: 100, publish_time: 1_000 }
}

#[test]
fn a_fresh_confident_reading_within_bounds_is_accepted() {
    let r = validate_price(&standard_config(), Some(fresh_reading()), 1_200);
    assert_eq!(r, Ok(2_000_000));
    // A reading exactly at the staleness limit still passes.
    let r = validate_price(&standard_config(), Some(fresh_reading()), 1_300);
    assert_eq!(r, Ok(2_000_000));
    // A publish time in the future counts as age zero.
    let r = validate_price(&standard_config(), Some(fresh_reading()), 900);
    assert_eq!(r, Ok(2_000_000));
}

#[test]
fn a_stale_reading_is_rejected() {
    let r = validate_price(&standard_config(), Some(fresh_reading()), 1_301);
    assert_eq!(r, Err(EngineError::StaleOracle));
}

#[test]
fn a_wide_confidence_interval_is_rejected() {
    let mut data = fresh_reading();
    data.confidence_bps = 501;
    assert_eq!(
        validate_price(&standard_config(), Some(data), 1_200),
        Err(EngineError::OracleOutOfBounds)
    );
}

#[test]
fn prices_outside_the_absolute_bounds_are_rejected() {
    let mut low = fresh_reading();
    low.price = 999;
    assert_eq!(
        validate_price(&standard_config(), Some(low), 1_200),
        Err(EngineError::OracleOutOfBounds)
    );
    let mut high = fresh_reading();
    high.price = 1_000_000_000_001;
    assert_eq!(
        validate_price(&standard_config(), Some(high), 1_200),
        Err(EngineError::OracleOutOfBounds)
    );
    let mut edge = fresh_reading();
    edge.price = 1_000;
    assert_eq!(validate_price(&standard_config(), Some(edge), 1_200), Ok(1_000));
}

#[test]
fn a_required_oracle_must_be_supplied() {
    assert_eq!(
        validate_price(&standard_config(), None, 1_200),
        Err(EngineError::InvalidConfig)
    );
}

#[test]
fn error_kinds_describe_themselves() {
    assert_eq!(EngineError::StaleOracle.describe(), "oracle price is stale");
    assert_eq!(EngineError::VaultBalanceMismatch.describe(), "vault balance mismatch");
    assert_ne!(EngineError::InvalidAmount.describe(), "");
}
