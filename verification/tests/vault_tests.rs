use crucible_engine::errors::EngineError;
use crucible_engine::vault::{Vault, VaultConfig};
use crucible_engine::SCALE;

fn standard_config() -> VaultConfig {
    VaultConfig {
        mint_fee_bps: 50,
        burn_fee_bps: 50,
        fee_vault_share_bps: 8000,
        yield_vault_share_bps: 8000,
        yield_reward_bps: 100,
        min_amount: 1000,
        max_amount: 1_000_000_000_000_000_000,
        max_deviation_bps: 10_000,
    }
}

#[test]
fn first_deposit_splits_fee_and_mints_one_to_one() {
    let mut v = Vault::new(standard_config()).unwrap();
    let receipt = v.mint(1_000_000, 0).unwrap();
    assert_eq!(receipt.fee, 5_000);
    assert_eq!(receipt.vault_fee_share, 4_000);
    assert_eq!(receipt.treasury_fee_share, 1_000);
    assert_eq!(receipt.net_deposit, 995_000);
    assert_eq!(receipt.shares, 995_000);
    assert_eq!(receipt.rate, SCALE);

    assert_eq!(v.total_deposited, 995_000);
    assert_eq!(v.accrued_fees, 4_000);
    assert_eq!(v.expected_balance, 999_000);
    assert_eq!(v.share_supply, 995_000);

    // The vault's fee share is instant yield: the rate moves above 1.0.
    let rate = v.exchange_rate(v.expected_balance).unwrap();
    assert_eq!(rate, 1_004_020);
    assert!(rate > SCALE);
}

#[test]
fn mint_rejects_dust_ceiling_and_paused() {
    let mut v = Vault::new(standard_config()).unwrap();
    assert_eq!(v.mint(999, 0), Err(EngineError::InvalidAmount));
    assert_eq!(
        v.mint(1_000_000_000_000_000_001, 0),
        Err(EngineError::InvalidAmount)
    );
    v.paused = true;
    assert_eq!(v.mint(1_000_000, 0), Err(EngineError::ProtocolPaused));
    // A failed deposit changes nothing.
    assert_eq!(v.total_deposited, 0);
    assert_eq!(v.share_supply, 0);
}

#[test]
fn round_trip_returns_amount_minus_both_fees() {
    // All fees go to the treasury, so the redeemer cannot reclaim any of
    // their own fee as yield.
    let mut config = standard_config();
    config.fee_vault_share_bps = 0;
    config.burn_fee_bps = 75;
    let mut v = Vault::new(config).unwrap();

    let minted = v.mint(1_000_000, 0).unwrap();
    assert_eq!(minted.fee, 5_000);
    assert_eq!(minted.shares, 995_000);

    let burned = v.burn(minted.shares, v.expected_balance).unwrap();
    assert_eq!(burned.gross, 995_000);
    assert_eq!(burned.fee, 7_462); // floor(995_000 * 75 / 10_000)
    assert_eq!(burned.payout, 1_000_000 - 5_000 - 7_462);
    assert_eq!(v.share_supply, 0);
}

#[test]
fn burn_pays_yield_and_reduces_principal_only_proportionally() {
    let mut v = Vault::new(standard_config()).unwrap();
    v.mint(1_000_000, 0).unwrap();
    // Redeem half the shares against the grown rate.
    let receipt = v.burn(497_500, v.expected_balance).unwrap();
    assert_eq!(receipt.rate, 1_004_020);
    assert_eq!(receipt.gross, 497_500 * 1_004_020 / 1_000_000);
    // Only the principal portion of the redemption leaves the tracked
    // deposits; the yield portion is carried by the accrued fees.
    let gross = receipt.gross as u128;
    let expected_principal = gross * 995_000 / (995_000 + 4_000);
    assert_eq!(receipt.principal_portion as u128, expected_principal);
    assert!(receipt.principal_portion as u128 <= gross);
}

#[test]
fn burn_rejects_more_shares_than_supply_and_missing_liquidity() {
    let mut v = Vault::new(standard_config()).unwrap();
    v.mint(1_000_000, 0).unwrap();
    assert_eq!(
        v.burn(995_001, v.expected_balance),
        Err(EngineError::InvalidAmount)
    );
    // A pool holding less than the gross redemption value cannot serve it:
    // 995_000 shares are worth 998_999 here, more than 998_000.
    let mut drained = v;
    drained.expected_balance = 998_000;
    assert_eq!(
        drained.burn(995_000, 998_000),
        Err(EngineError::InsufficientLiquidity)
    );
    // The untouched vault covers the same redemption.
    assert!(v.burn(995_000, v.expected_balance).is_ok());
}

#[test]
fn redeemable_value_never_exceeds_backing_over_a_sequence() {
    let mut v = Vault::new(standard_config()).unwrap();
    let amounts = [1_000_000u64, 5_000, 777_777, 123_456_789];
    for a in amounts {
        v.mint(a, v.expected_balance).unwrap();
        let rate = v.exchange_rate(v.expected_balance).unwrap() as u128;
        let redeemable = v.share_supply as u128 * rate;
        let backing = (v.total_deposited as u128 + v.accrued_fees as u128) * SCALE as u128;
        assert!(redeemable <= backing);
    }
    for s in [1_000u64, 250_000, 10_000_000] {
        v.burn(s, v.expected_balance).unwrap();
        let rate = v.exchange_rate(v.expected_balance).unwrap() as u128;
        let redeemable = v.share_supply as u128 * rate;
        let backing = (v.total_deposited as u128 + v.accrued_fees as u128) * SCALE as u128;
        assert!(redeemable <= backing);
    }
}

#[test]
fn donation_cannot_move_the_rate_and_draining_trips_the_check() {
    let mut v = Vault::new(standard_config()).unwrap();
    v.mint(1_000_000, 0).unwrap();
    assert_eq!(v.expected_balance, 999_000);
    let honest = v.exchange_rate(999_000).unwrap();

    // A donation within the deviation bound is tolerated but the rate is
    // computed from tracked balances alone: it does not move.
    let donated = v.exchange_rate(1_000_000).unwrap();
    assert_eq!(donated, honest);

    // A donation beyond the configured bound is refused outright.
    assert_eq!(
        v.exchange_rate(2_100_000),
        Err(EngineError::VaultBalanceMismatch)
    );

    // Draining below the expectation trips the check on the next operation.
    assert_eq!(
        v.exchange_rate(998_999),
        Err(EngineError::VaultBalanceMismatch)
    );
    assert_eq!(v.mint(10_000, 998_999), Err(EngineError::VaultBalanceMismatch));
}

#[test]
fn exchange_rate_overflow_is_a_hard_abort() {
    let mut v = Vault::new(standard_config()).unwrap();
    v.total_deposited = u64::MAX;
    v.share_supply = 1;
    assert_eq!(
        v.exchange_rate(v.expected_balance),
        Err(EngineError::ArithmeticOverflow)
    );
}

#[test]
fn yield_deposit_splits_and_rewards() {
    let mut v = Vault::new(standard_config()).unwrap();
    v.mint(1_000_000, 0).unwrap();
    let receipt = v.deposit_yield(100_000, v.expected_balance).unwrap();
    assert_eq!(receipt.vault_share, 80_000);
    assert_eq!(receipt.treasury_share, 20_000);
    // Reward: 1% of the deposit, converted at the pre-deposit rate.
    assert_eq!(receipt.rate, 1_004_020);
    assert_eq!(receipt.reward_shares, 1_000 * 1_000_000 / 1_004_020);
    assert_eq!(v.accrued_fees, 4_000 + 80_000);
    assert_eq!(v.expected_balance, 999_000 + 80_000);
}

#[test]
fn yield_deposit_rejects_zero() {
    let mut v = Vault::new(standard_config()).unwrap();
    assert_eq!(v.deposit_yield(0, 0), Err(EngineError::InvalidAmount));
}

#[test]
fn a_zero_rate_makes_minting_impossible() {
    // Shares outstanding but nothing backing them: the rate collapses to
    // zero and the share computation cannot be served.
    let mut v = Vault::new(standard_config()).unwrap();
    v.share_supply = 1_000_000;
    assert_eq!(v.mint(1_000_000, 0), Err(EngineError::ArithmeticOverflow));
}

#[test]
fn vault_config_is_validated() {
    let mut config = standard_config();
    config.mint_fee_bps = 10_001;
    assert_eq!(Vault::new(config), Err(EngineError::InvalidConfig));
    let mut config = standard_config();
    config.min_amount = 0;
    assert_eq!(Vault::new(config), Err(EngineError::InvalidConfig));
    let mut config = standard_config();
    config.min_amount = 10;
    config.max_amount = 9;
    assert_eq!(Vault::new(config), Err(EngineError::InvalidConfig));
}
