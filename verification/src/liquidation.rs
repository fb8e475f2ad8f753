//! Health measurement and forced closure of under-margined positions. A
//! position's health is its loan-to-value: debt over collateral value, in
//! basis points. At or above the liquidation threshold anyone may repay the
//! debt plus a bonus and seize the matching collateral.

use vstd::prelude::*;

use crate::errors::EngineError;
use crate::position::{value_at, LeveragedPosition};
use crate::{lemma_mul_fits, BPS_DENOM, SCALE};

verus! {

/// Hard ceiling for the configured liquidation bonus (50%).
pub const MAX_LIQUIDATION_BONUS_BPS: u64 = 5_000;

/// Configuration of the liquidation engine, fixed at creation.
#[derive(Clone, Copy, Debug, PartialEq, Eq, Structural)]
pub struct LiquidationParams {
    /// Loan-to-value, in basis points, at which a position becomes
    /// liquidatable; strictly between 0% and 100%.
    pub threshold_bps: u64,
    /// Bonus, in basis points of the debt, paid to the liquidator.
    pub bonus_bps: u64,
}

impl LiquidationParams {
    /// The threshold is a meaningful fraction and the bonus within its cap.
    pub open spec fn wf(self) -> bool {
        &&& 0 < self.threshold_bps < BPS_DENOM
        &&& self.bonus_bps <= MAX_LIQUIDATION_BONUS_BPS
    }

    /// Validate a configuration.
    pub fn validate(self) -> (r: Result<LiquidationParams, EngineError>)
        ensures
            match r {
                Ok(p) => p == self && self.wf(),
                Err(e) => e == EngineError::InvalidConfig && !self.wf(),
            },
    {
        if self.threshold_bps == 0 || self.threshold_bps >= BPS_DENOM || self.bonus_bps
            > MAX_LIQUIDATION_BONUS_BPS {
            return Err(EngineError::InvalidConfig);
        }
        Ok(self)
    }
}

/// The loan-to-value of `debt` against `collateral` valued at `price`, in
/// basis points, saturating at `u64::MAX`; only meaningful when the
/// collateral value is positive.
pub open spec fn ltv_of(collateral: u64, price: u64, debt: u128) -> int {
    let raw = debt * BPS_DENOM / value_at(collateral as int, price as int);
    if raw > u64::MAX {
        u64::MAX as int
    } else {
        raw
    }
}

/// Why the loan-to-value cannot be measured, or `None` when it can.
pub open spec fn ltv_error(collateral: u64, price: u64, debt: u128) -> Option<EngineError> {
    if value_at(collateral as int, price as int) == 0 {
        Some(EngineError::InvalidAmount)
    } else if debt * BPS_DENOM > u128::MAX {
        Some(EngineError::ArithmeticOverflow)
    } else {
        None
    }
}

/// Measure a position's health: debt over collateral value, in basis points
/// (lower is healthier), saturating at `u64::MAX`.
///
/// Fails exactly when the collateral is worth nothing at `price` or the
/// scaled debt overflows.
pub fn ltv_bps(collateral: u64, price: u64, debt: u128) -> (r: Result<u64, EngineError>)
    requires
        price >= 1,
    ensures
        match r {
            Ok(v) => {
                &&& ltv_error(collateral, price, debt) is None
                &&& v == ltv_of(collateral, price, debt)
            },
            Err(e) => ltv_error(collateral, price, debt) == Some(e),
        },
{
    proof {
        lemma_mul_fits(collateral as int, price as int, u64::MAX as int, u64::MAX as int);
    }
    let collateral_value: u128 = (collateral as u128) * (price as u128) / (SCALE as u128);
    if collateral_value == 0 {
        return Err(EngineError::InvalidAmount);
    }
    let scaled: u128 = match debt.checked_mul(BPS_DENOM as u128) {
        Some(v) => v,
        None => { return Err(EngineError::ArithmeticOverflow) },
    };
    let raw: u128 = scaled / collateral_value;
    if raw > u64::MAX as u128 {
        return Ok(u64::MAX);
    }
    Ok(raw as u64)
}

/// What a liquidation settled: the liquidator repays `repay_amount` (debt
/// plus bonus) on the owner's behalf and receives `collateral_seized` base
/// units from the vault; the position is closed and its debt zeroed.
#[derive(Clone, Copy, Debug, PartialEq, Eq, Structural)]
pub struct LiquidationReceipt {
    /// The position's loan-to-value at liquidation time, in basis points.
    pub ltv_bps: u64,
    /// The liquidator's bonus, in quote units.
    pub bonus: u128,
    /// Debt plus bonus, the amount the liquidator settles, in quote units.
    pub repay_amount: u128,
    /// Collateral handed to the liquidator, in base units.
    pub collateral_seized: u64,
}

/// The liquidator's bonus on a debt of `debt`.
pub open spec fn liquidation_bonus(params: LiquidationParams, debt: u128) -> int {
    debt * params.bonus_bps / (BPS_DENOM as int)
}

/// Collateral seized: the repaid value converted to base units at `price`,
/// capped at the position's collateral.
pub open spec fn seized_collateral(
    pos: LeveragedPosition,
    params: LiquidationParams,
    price: u64,
    debt: u128,
) -> int {
    let repay = debt + liquidation_bonus(params, debt);
    let raw = repay * SCALE / price as int;
    if raw > pos.collateral {
        pos.collateral as int
    } else {
        raw
    }
}

/// Why liquidating is rejected, or `None` when it is accepted; the rules are
/// checked in this order.
pub open spec fn liquidate_error(
    pos: LeveragedPosition,
    params: LiquidationParams,
    price: u64,
    debt: u128,
) -> Option<EngineError> {
    if !pos.is_open {
        Some(EngineError::PositionNotOpen)
    } else if ltv_error(pos.collateral, price, debt) is Some {
        ltv_error(pos.collateral, price, debt)
    } else if ltv_of(pos.collateral, price, debt) < params.threshold_bps {
        Some(EngineError::NotLiquidatable)
    } else if debt * params.bonus_bps > u128::MAX {
        Some(EngineError::ArithmeticOverflow)
    } else if debt + liquidation_bonus(params, debt) > u128::MAX {
        Some(EngineError::ArithmeticOverflow)
    } else if (debt + liquidation_bonus(params, debt)) * SCALE > u128::MAX {
        Some(EngineError::ArithmeticOverflow)
    } else {
        None
    }
}

/// Forcibly close an under-margined position.
///
/// Rejected with `NotLiquidatable` exactly while the loan-to-value is below
/// the threshold; at or above it, the liquidator repays the debt plus
/// `bonus_bps` of it and seizes `min(collateral, repay * SCALE / price)`
/// base units. On success the position loses the seized collateral, its
/// debt is zeroed and it is closed; on failure it is unchanged.
pub fn liquidate(
    pos: &mut LeveragedPosition,
    params: &LiquidationParams,
    price: u64,
    debt: u128,
) -> (r: Result<LiquidationReceipt, EngineError>)
    requires
        params.wf(),
        old(pos).wf(),
        price >= 1,
    ensures
        final(pos).wf(),
        match r {
            Ok(receipt) => {
                &&& liquidate_error(*old(pos), *params, price, debt) is None
                &&& receipt.ltv_bps == ltv_of(old(pos).collateral, price, debt)
                &&& receipt.ltv_bps >= params.threshold_bps
                &&& receipt.bonus == liquidation_bonus(*params, debt)
                &&& receipt.repay_amount == debt + liquidation_bonus(*params, debt)
                &&& receipt.collateral_seized == seized_collateral(*old(pos), *params, price, debt)
                &&& *final(pos) == (LeveragedPosition {
                    collateral: (old(pos).collateral - receipt.collateral_seized) as u64,
                    borrowed: 0u64,
                    is_open: false,
                    ..*old(pos)
                })
            },
            Err(e) => {
                &&& liquidate_error(*old(pos), *params, price, debt) == Some(e)
                &&& *final(pos) == *old(pos)
            },
        },
{
    if !pos.is_open {
        return Err(EngineError::PositionNotOpen);
    }
    let ltv: u64 = match ltv_bps(pos.collateral, price, debt) {
        Ok(v) => v,
        Err(e) => { return Err(e) },
    };
    if ltv < params.threshold_bps {
        return Err(EngineError::NotLiquidatable);
    }
    let bonus_scaled: u128 = match debt.checked_mul(params.bonus_bps as u128) {
        Some(v) => v,
        None => { return Err(EngineError::ArithmeticOverflow) },
    };
    let bonus: u128 = bonus_scaled / (BPS_DENOM as u128);
    let repay_amount: u128 = match debt.checked_add(bonus) {
        Some(v) => v,
        None => { return Err(EngineError::ArithmeticOverflow) },
    };
    let seize_scaled: u128 = match repay_amount.checked_mul(SCALE as u128) {
        Some(v) => v,
        None => { return Err(EngineError::ArithmeticOverflow) },
    };
    let seize_raw: u128 = seize_scaled / (price as u128);
    let collateral_seized: u64 = if seize_raw > pos.collateral as u128 {
        pos.collateral
    } else {
        seize_raw as u64
    };

    pos.collateral = pos.collateral - collateral_seized;
    pos.borrowed = 0;
    pos.is_open = false;
    Ok(LiquidationReceipt { ltv_bps: ltv, bonus, repay_amount, collateral_seized })
}

} // verus!
