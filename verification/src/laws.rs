//! The engine's global laws, stated and proved once over the spec-level
//! state. Together with the operations' exact contracts they carry over to
//! every executable call.

use vstd::prelude::*;

use crate::errors::EngineError;
use crate::liquidation::{liquidate_error, liquidation_bonus, ltv_error, ltv_of, LiquidationParams};
use crate::market::{owed_at, BorrowerAccount};
use crate::position::LeveragedPosition;
use crate::vault::Vault;
use crate::{BPS_DENOM, SCALE};

verus! {

/// The total redeemable value never exceeds the tracked backing: for every
/// well-formed vault state, `share_supply * exchange_rate` is at most
/// `(total_deposited + accrued_fees) * SCALE`, whatever fee rates in
/// `[0, 10_000]` basis points produced that state. Since deposits and
/// redemptions only move between these tracked balances, the bound holds
/// after any sequence of them.
pub proof fn lemma_redeemable_value_bounded(v: Vault)
    requires
        v.wf(),
    ensures
        v.share_supply * v.spec_rate() <= v.tracked_balance() * SCALE,
{
    let backing_scaled = v.tracked_balance() * (SCALE as int);
    vstd::arithmetic::mul::lemma_mul_nonnegative(v.tracked_balance(), SCALE as int);
    if v.share_supply == 0 {
        assert(v.share_supply * v.spec_rate() == 0);
    } else {
        let s = v.share_supply as int;
        vstd::arithmetic::div_mod::lemma_fundamental_div_mod(backing_scaled, s);
        vstd::arithmetic::div_mod::lemma_mod_bound(backing_scaled, s);
        vstd::arithmetic::mul::lemma_mul_is_commutative(s, backing_scaled / s);
    }
}

/// Redeeming what a deposit minted returns the deposit minus both fees:
/// on a fresh vault whose fees go wholly to the treasury, burning the
/// shares minted for `amount` pays out exactly
/// `amount - mint_fee - burn_fee`, and every step of the round trip is
/// accepted. (With a positive vault fee share the burner would reclaim part
/// of the fee kept in the vault and receive strictly more; with a 100% mint
/// fee nothing is deposited and the redemption degenerates.) No read-only
/// call between the two steps can disturb this: only deposits and
/// redemptions change the tracked state the payout is computed from.
pub proof fn lemma_mint_burn_round_trip(v: Vault, amount: u64)
    requires
        v.wf(),
        !v.paused,
        v.total_deposited == 0,
        v.accrued_fees == 0,
        v.expected_balance == 0,
        v.share_supply == 0,
        v.config.fee_vault_share_bps == 0,
        v.config.mint_fee_bps < BPS_DENOM,
        v.config.min_amount <= amount <= v.config.max_amount,
    ensures
        v.mint_error(amount, 0) is None,
        v.mint_shares(amount) == v.mint_net(amount),
        ({
            let v1 = v.mint_post(amount);
            let shares = v.mint_shares(amount) as u64;
            &&& v1.burn_error(shares, v1.expected_balance) is None
            &&& v1.burn_payout(shares) == amount - v.mint_fee(amount) - v1.burn_fee(shares)
        }),
{
    crate::lemma_bps_le(amount as int, v.config.mint_fee_bps as int);
    let fee = v.mint_fee(amount);
    assert(fee < amount) by (nonlinear_arith)
        requires
            fee == amount * v.config.mint_fee_bps / (BPS_DENOM as int),
            0 <= v.config.mint_fee_bps < BPS_DENOM,
            BPS_DENOM == 10_000,
            1 <= amount,
    ;
    let net = v.mint_net(amount);

    // On an empty vault the rate is 1.0, so the shares equal the net deposit.
    assert(v.spec_rate() == SCALE);
    vstd::arithmetic::div_mod::lemma_div_multiples_vanish(net, SCALE as int);
    vstd::arithmetic::mul::lemma_mul_is_commutative(net, SCALE as int);
    assert(v.mint_shares(amount) == net);

    // The whole fee leaves for the treasury: nothing is kept in the vault.
    assert(v.mint_vault_share(amount) == 0) by {
        assert(fee * 0int == 0) by (nonlinear_arith);
    }
    assert(v.mint_error(amount, 0) is None);

    let v1 = v.mint_post(amount);
    let shares = v.mint_shares(amount) as u64;
    assert(v1.total_deposited == net && v1.accrued_fees == 0 && v1.expected_balance == net
        && v1.share_supply == net);

    // With supply equal to backing the rate is exactly 1.0 again.
    vstd::arithmetic::mul::lemma_mul_is_commutative(net, SCALE as int);
    vstd::arithmetic::div_mod::lemma_div_multiples_vanish(SCALE as int, net);
    assert(v1.spec_rate() == SCALE);

    // Burning all shares redeems the whole net deposit.
    vstd::arithmetic::div_mod::lemma_div_multiples_vanish(net, SCALE as int);
    assert(v1.burn_gross(shares) == net);
    vstd::arithmetic::div_mod::lemma_div_multiples_vanish(net, net);
    vstd::arithmetic::mul::lemma_mul_is_commutative(net, net);
    assert(v1.burn_principal_portion(shares) == net);

    crate::lemma_bps_le(net, v1.config.burn_fee_bps as int);
    assert(v1.burn_vault_share(shares) == 0) by {
        assert(v1.burn_fee(shares) * 0int == 0) by (nonlinear_arith);
    }
    assert(v1.burn_error(shares, v1.expected_balance) is None);
    assert(v1.burn_payout(shares) == amount - v.mint_fee(amount) - v1.burn_fee(shares));
}

/// Donation resistance. The exchange rate is a function of the tracked
/// balances alone (see `Vault::exchange_rate`, whose accepted result is
/// always `spec_rate`), so no accepted pooled balance can move it. This law
/// pins down when a manipulated balance is refused outright: draining the
/// pool below the tracked expectation trips `VaultBalanceMismatch` on the
/// next rate computation, and so does inflating it beyond the configured
/// deviation bound.
pub proof fn lemma_donation_resistance(v: Vault, balance: u64)
    requires
        v.wf(),
    ensures
        balance < v.expected_balance ==> v.rate_error(balance) == Some(
            EngineError::VaultBalanceMismatch,
        ),
        balance > v.expected_balance && v.expected_balance > 0 && (balance - v.expected_balance)
            * BPS_DENOM / v.expected_balance as int > v.config.max_deviation_bps
            ==> v.rate_error(balance) == Some(EngineError::VaultBalanceMismatch),
{
}

/// A debt measured at its own entry index is exactly the principal: interest
/// only begins once the market index moves past the borrower's snapshot.
pub proof fn lemma_owed_at_entry_index(acct: BorrowerAccount)
    requires
        acct.borrow_index >= 1,
    ensures
        owed_at(acct.borrow_index as int, acct) == acct.principal,
{
    vstd::arithmetic::div_mod::lemma_div_multiples_vanish(
        acct.principal as int,
        acct.borrow_index as int,
    );
    vstd::arithmetic::mul::lemma_mul_is_commutative(
        acct.principal as int,
        acct.borrow_index as int,
    );
}

/// The liquidation boundary: a measurable open position is refused as
/// `NotLiquidatable` exactly while its loan-to-value is below the threshold;
/// from the threshold upward, liquidation is accepted whenever the bonus
/// arithmetic fits, and then seizes `min(collateral, repay * SCALE / price)`
/// (see `liquidate`'s contract).
pub proof fn lemma_liquidation_boundary(
    pos: LeveragedPosition,
    params: LiquidationParams,
    price: u64,
    debt: u128,
)
    requires
        params.wf(),
        pos.wf(),
        pos.is_open,
        price >= 1,
        ltv_error(pos.collateral, price, debt) is None,
    ensures
        ltv_of(pos.collateral, price, debt) < params.threshold_bps <==> liquidate_error(
            pos,
            params,
            price,
            debt,
        ) == Some(EngineError::NotLiquidatable),
        (ltv_of(pos.collateral, price, debt) >= params.threshold_bps && debt * params.bonus_bps
            <= u128::MAX && debt + liquidation_bonus(params, debt) <= u128::MAX && (debt
            + liquidation_bonus(params, debt)) * SCALE <= u128::MAX) ==> liquidate_error(
            pos,
            params,
            price,
            debt,
        ) is None,
{
}

} // verus!
