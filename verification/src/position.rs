//! Oracle-priced leveraged positions. A position deposits collateral, borrows
//! against its value according to a leverage factor, and records the entry
//! price and the vault's exchange-rate index. Closing settles yield from
//! index growth and price appreciation, charges fees on principal and yield,
//! and tells the caller what to pay out and what debt to repay.

use vstd::prelude::*;

use crate::errors::EngineError;
use crate::{bps_of, lemma_bps_le, lemma_mul_fits, BPS_DENOM, SCALE};

verus! {

/// Leverage factor meaning 1x: no borrowing.
pub const LEVERAGE_ONE: u64 = 100;

/// Hard ceiling for a configured maximum leverage factor (500x).
pub const MAX_LEVERAGE_LIMIT: u64 = 50_000;

/// Value, in quote units, of `amount` base units at `price`
/// (price scaled by [`SCALE`]).
pub open spec fn value_at(amount: int, price: int) -> int {
    amount * price / (SCALE as int)
}

/// Configuration of the position manager, fixed at creation.
#[derive(Clone, Copy, Debug, PartialEq, Eq, Structural)]
pub struct PositionParams {
    /// Smallest accepted collateral amount (dust floor); at least 1.
    pub min_collateral: u64,
    /// Largest accepted collateral amount (overflow ceiling).
    pub max_collateral: u64,
    /// Largest accepted leverage factor (100 = 1x).
    pub max_leverage_factor: u64,
    /// Fee, in basis points of the entry value, charged on close.
    pub principal_fee_bps: u64,
    /// Fee, in basis points of the realized yield, charged on close.
    pub yield_fee_bps: u64,
    /// Portion of the close fee, in basis points, kept in the vault; the
    /// rest goes to the treasury.
    pub fee_vault_share_bps: u64,
    /// Largest tolerated move, in basis points, of the price since entry.
    pub max_price_change_bps: u64,
}

impl PositionParams {
    /// All rates are valid fractions and the bounds are ordered.
    pub open spec fn wf(self) -> bool {
        &&& LEVERAGE_ONE <= self.max_leverage_factor <= MAX_LEVERAGE_LIMIT
        &&& self.principal_fee_bps <= BPS_DENOM
        &&& self.yield_fee_bps <= BPS_DENOM
        &&& self.fee_vault_share_bps <= BPS_DENOM
        &&& self.max_price_change_bps <= BPS_DENOM
        &&& 1 <= self.min_collateral <= self.max_collateral
    }

    /// Validate a configuration.
    ///
    /// Accepted exactly when the leverage ceiling lies between 1x and the
    /// hard limit, every fee is a valid basis-point fraction, and the
    /// collateral bounds are ordered.
    pub fn validate(self) -> (r: Result<PositionParams, EngineError>)
        ensures
            match r {
                Ok(p) => p == self && self.wf(),
                Err(e) => e == EngineError::InvalidConfig && !self.wf(),
            },
    {
        if self.max_leverage_factor < LEVERAGE_ONE || self.max_leverage_factor
            > MAX_LEVERAGE_LIMIT || self.principal_fee_bps > BPS_DENOM || self.yield_fee_bps
            > BPS_DENOM || self.fee_vault_share_bps > BPS_DENOM || self.max_price_change_bps
            > BPS_DENOM || self.min_collateral < 1 || self.min_collateral > self.max_collateral {
            return Err(EngineError::InvalidConfig);
        }
        Ok(self)
    }
}

/// One leveraged position.
#[derive(Clone, Copy, Debug, PartialEq, Eq, Structural)]
pub struct LeveragedPosition {
    /// Identity of the position's owner, as assigned by the host; only the
    /// owner may close the position.
    pub owner: u64,
    /// Collateral deposited, in base units.
    pub collateral: u64,
    /// Amount borrowed against the collateral, in quote units.
    pub borrowed: u64,
    /// Leverage factor at entry (100 = 1x).
    pub leverage_factor: u64,
    /// Validated oracle price at entry, scaled by [`SCALE`]; at least 1.
    pub entry_price: u64,
    /// Vault exchange-rate index at entry, scaled by [`SCALE`]; at least 1.
    pub entry_index: u64,
    /// Timestamp the position was opened at.
    pub created_at: u64,
    /// Whether the position is still open.
    pub is_open: bool,
}

impl LeveragedPosition {
    /// The recorded entry price and index can serve as divisors.
    pub open spec fn wf(self) -> bool {
        &&& self.entry_price >= 1
        &&& self.entry_index >= 1
    }

    /// Collateral value at the entry price, in quote units.
    pub open spec fn entry_value(self) -> int {
        value_at(self.collateral as int, self.entry_price as int)
    }

    /// Collateral value at `price`, in quote units.
    pub open spec fn current_value(self, price: u64) -> int {
        value_at(self.collateral as int, price as int)
    }

    /// How far `price` has moved from the entry price, in basis points of
    /// the entry price.
    pub open spec fn price_change_bps(self, price: u64) -> int {
        if price >= self.entry_price {
            (price - self.entry_price) * BPS_DENOM / self.entry_price as int
        } else {
            (self.entry_price - price) * BPS_DENOM / self.entry_price as int
        }
    }

    /// How far the position's value has moved since entry, in basis points
    /// of the entry value.
    pub open spec fn slippage_bps(self, price: u64) -> int {
        if self.current_value(price) >= self.entry_value() {
            (self.current_value(price) - self.entry_value()) * BPS_DENOM / self.entry_value()
        } else {
            (self.entry_value() - self.current_value(price)) * BPS_DENOM / self.entry_value()
        }
    }

    /// Yield from exchange-rate growth since entry: the entry value scaled
    /// by the index's relative growth, or nothing if the index did not grow.
    pub open spec fn rate_yield(self, index: u64) -> int {
        if index > self.entry_index {
            self.entry_value() * (index - self.entry_index) / self.entry_index as int
        } else {
            0
        }
    }

    /// Positive price appreciation since entry, in quote units.
    pub open spec fn price_gain(self, price: u64) -> int {
        if self.current_value(price) > self.entry_value() {
            self.current_value(price) - self.entry_value()
        } else {
            0
        }
    }

    /// Total realized yield on close: exchange-rate growth plus price gain.
    pub open spec fn yield_value(self, price: u64, index: u64) -> int {
        self.rate_yield(index) + self.price_gain(price)
    }

    /// Close fee on the principal, in quote units.
    pub open spec fn principal_fee(self, params: PositionParams) -> int {
        bps_of(self.entry_value(), params.principal_fee_bps as int)
    }

    /// Close fee on the yield, in quote units.
    pub open spec fn yield_fee(self, params: PositionParams, price: u64, index: u64) -> int {
        bps_of(self.yield_value(price, index), params.yield_fee_bps as int)
    }

    /// Total close fee, in quote units.
    pub open spec fn total_fee(self, params: PositionParams, price: u64, index: u64) -> int {
        self.principal_fee(params) + self.yield_fee(params, price, index)
    }

    /// Realized yield converted to base units at the close price.
    pub open spec fn yield_base(self, price: u64, index: u64) -> int {
        self.yield_value(price, index) * SCALE / price as int
    }

    /// Total close fee converted to base units at the close price.
    pub open spec fn fee_base(self, params: PositionParams, price: u64, index: u64) -> int {
        self.total_fee(params, price, index) * SCALE / price as int
    }

    /// Base units returned to the owner on close: collateral plus yield,
    /// minus the fees (the borrowed debt is repaid separately).
    pub open spec fn payout_base(self, params: PositionParams, price: u64, index: u64) -> int {
        self.collateral + self.yield_base(price, index) - self.fee_base(params, price, index)
    }
}

/// What opening a position decided: the caller transfers the collateral into
/// the vault and borrows `borrowed` from the lending market for the owner.
#[derive(Clone, Copy, Debug, PartialEq, Eq, Structural)]
pub struct OpenReceipt {
    /// The freshly opened position.
    pub position: LeveragedPosition,
    /// Collateral value at entry, in quote units.
    pub collateral_value: u64,
    /// Amount to borrow from the lending market, in quote units.
    pub borrowed: u64,
}

/// Collateral value of `collateral` at `price`, in quote units.
pub open spec fn open_collateral_value(collateral: u64, price: u64) -> int {
    value_at(collateral as int, price as int)
}

/// Amount borrowed for a position: the collateral value times the leverage
/// in excess of 1x.
pub open spec fn open_borrowed(collateral: u64, price: u64, leverage_factor: u64) -> int {
    open_collateral_value(collateral, price) * (leverage_factor - LEVERAGE_ONE) / (
    LEVERAGE_ONE as int)
}

/// Why opening a position is rejected, or `None` when it is accepted; the
/// rules are checked in this order. `supplied_borrow` is an optional
/// caller-supplied borrow amount that must match the recomputed one exactly,
/// which rejects spoofed leverage inputs.
pub open spec fn open_error(
    params: PositionParams,
    paused: bool,
    collateral: u64,
    leverage_factor: u64,
    price: u64,
    supplied_borrow: Option<u64>,
) -> Option<EngineError> {
    if paused {
        Some(EngineError::ProtocolPaused)
    } else if collateral < params.min_collateral || collateral > params.max_collateral {
        Some(EngineError::InvalidAmount)
    } else if leverage_factor < LEVERAGE_ONE || leverage_factor > params.max_leverage_factor {
        Some(EngineError::InvalidAmount)
    } else if open_collateral_value(collateral, price) > u64::MAX {
        Some(EngineError::ArithmeticOverflow)
    } else if open_borrowed(collateral, price, leverage_factor) > u64::MAX {
        Some(EngineError::ArithmeticOverflow)
    } else if supplied_borrow is Some && supplied_borrow->Some_0 != open_borrowed(
        collateral,
        price,
        leverage_factor,
    ) {
        Some(EngineError::InvalidAmount)
    } else {
        None
    }
}

/// Open a leveraged position.
///
/// The collateral value is `collateral * price / SCALE`; the borrow amount is
/// that value times the leverage in excess of 1x. When the caller supplies a
/// borrow amount of their own it must equal the recomputed one exactly. The
/// position records its owner, the validated entry price, the vault's
/// exchange-rate index and the opening time. Accepted exactly when the
/// manager is not
/// paused, collateral and leverage lie within their bounds, the derived
/// values fit, and any supplied borrow amount matches.
pub fn open_position(
    params: &PositionParams,
    paused: bool,
    owner: u64,
    collateral: u64,
    leverage_factor: u64,
    price: u64,
    supplied_borrow: Option<u64>,
    entry_index: u64,
    now: u64,
) -> (r: Result<OpenReceipt, EngineError>)
    requires
        params.wf(),
        price >= 1,
        entry_index >= 1,
    ensures
        match r {
            Ok(receipt) => {
                &&& open_error(*params, paused, collateral, leverage_factor, price, supplied_borrow)
                    is None
                &&& receipt.collateral_value == open_collateral_value(collateral, price)
                &&& receipt.borrowed == open_borrowed(collateral, price, leverage_factor)
                &&& receipt.position == (LeveragedPosition {
                    owner,
                    collateral,
                    borrowed: receipt.borrowed,
                    leverage_factor,
                    entry_price: price,
                    entry_index,
                    created_at: now,
                    is_open: true,
                })
                &&& receipt.position.wf()
            },
            Err(e) => open_error(
                *params,
                paused,
                collateral,
                leverage_factor,
                price,
                supplied_borrow,
            ) == Some(e),
        },
{
    if paused {
        return Err(EngineError::ProtocolPaused);
    }
    if collateral < params.min_collateral || collateral > params.max_collateral {
        return Err(EngineError::InvalidAmount);
    }
    if leverage_factor < LEVERAGE_ONE || leverage_factor > params.max_leverage_factor {
        return Err(EngineError::InvalidAmount);
    }
    proof {
        lemma_mul_fits(collateral as int, price as int, u64::MAX as int, u64::MAX as int);
    }
    let value_wide: u128 = (collateral as u128) * (price as u128) / (SCALE as u128);
    if value_wide > u64::MAX as u128 {
        return Err(EngineError::ArithmeticOverflow);
    }
    let collateral_value: u64 = value_wide as u64;
    proof {
        lemma_mul_fits(
            collateral_value as int,
            leverage_factor - LEVERAGE_ONE,
            u64::MAX as int,
            MAX_LEVERAGE_LIMIT as int,
        );
    }
    let borrowed_wide: u128 = (collateral_value as u128) * ((leverage_factor - LEVERAGE_ONE)
        as u128) / (LEVERAGE_ONE as u128);
    if borrowed_wide > u64::MAX as u128 {
        return Err(EngineError::ArithmeticOverflow);
    }
    let borrowed: u64 = borrowed_wide as u64;
    match supplied_borrow {
        Some(b) => {
            if b != borrowed {
                return Err(EngineError::InvalidAmount);
            }
        },
        None => (),
    }
    Ok(
        OpenReceipt {
            position: LeveragedPosition {
                owner,
                collateral,
                borrowed,
                leverage_factor,
                entry_price: price,
                entry_index,
                created_at: now,
                is_open: true,
            },
            collateral_value,
            borrowed,
        },
    )
}

/// What closing a position settled. The caller pays `payout` base units from
/// the vault to the owner, sends `treasury_fee_share` (in quote value) to the
/// treasury, and repays `repay_amount` to the lending market on the owner's
/// behalf.
#[derive(Clone, Copy, Debug, PartialEq, Eq, Structural)]
pub struct CloseReceipt {
    /// Collateral value at entry, in quote units.
    pub entry_value: u128,
    /// Collateral value at the close price, in quote units.
    pub current_value: u128,
    /// Realized yield, in quote units: index growth plus price gain.
    pub yield_value: u128,
    /// Fee on the principal, in quote units.
    pub principal_fee: u128,
    /// Fee on the yield, in quote units.
    pub yield_fee: u128,
    /// Total close fee, in quote units.
    pub total_fee: u128,
    /// Fee portion kept in the vault, in quote units.
    pub vault_fee_share: u128,
    /// Fee portion owed to the treasury, in quote units.
    pub treasury_fee_share: u128,
    /// Debt to repay to the lending market, in quote units.
    pub repay_amount: u64,
    /// Base units returned to the owner.
    pub payout: u64,
}

/// Why closing a position is rejected, or `None` when it is accepted; the
/// rules are checked in this order.
pub open spec fn close_error(
    pos: LeveragedPosition,
    params: PositionParams,
    caller: u64,
    price: u64,
    index: u64,
    max_slippage_bps: u64,
) -> Option<EngineError> {
    if max_slippage_bps > BPS_DENOM {
        Some(EngineError::InvalidAmount)
    } else if !pos.is_open {
        Some(EngineError::PositionNotOpen)
    } else if caller != pos.owner {
        Some(EngineError::Unauthorized)
    } else if pos.price_change_bps(price) > params.max_price_change_bps {
        Some(EngineError::OracleOutOfBounds)
    } else if pos.entry_value() == 0 {
        Some(EngineError::InvalidAmount)
    } else if pos.slippage_bps(price) > max_slippage_bps {
        Some(EngineError::SlippageExceeded)
    } else if index > pos.entry_index && pos.entry_value() * (index - pos.entry_index)
        > u128::MAX {
        Some(EngineError::ArithmeticOverflow)
    } else if pos.yield_value(price, index) > u128::MAX {
        Some(EngineError::ArithmeticOverflow)
    } else if pos.yield_value(price, index) * params.yield_fee_bps > u128::MAX {
        Some(EngineError::ArithmeticOverflow)
    } else if pos.total_fee(params, price, index) > u128::MAX {
        Some(EngineError::ArithmeticOverflow)
    } else if pos.total_fee(params, price, index) * params.fee_vault_share_bps > u128::MAX {
        Some(EngineError::ArithmeticOverflow)
    } else if pos.yield_value(price, index) * SCALE > u128::MAX {
        Some(EngineError::ArithmeticOverflow)
    } else if pos.total_fee(params, price, index) * SCALE > u128::MAX {
        Some(EngineError::ArithmeticOverflow)
    } else if pos.collateral + pos.yield_base(price, index) > u128::MAX {
        Some(EngineError::ArithmeticOverflow)
    } else if pos.payout_base(params, price, index) < 0 {
        Some(EngineError::ArithmeticOverflow)
    } else if pos.payout_base(params, price, index) > u64::MAX {
        Some(EngineError::ArithmeticOverflow)
    } else {
        None
    }
}

/// Close a position at the validated price `price` and vault index `index`.
///
/// Only the position's owner may close it. The move of the price since
/// entry must stay within the manager's bound
/// and the move of the position's value within the caller's slippage
/// tolerance. Yield is the entry value scaled by the index's growth since
/// entry plus any positive price appreciation; fees are charged on the entry
/// value and on that yield, split between vault and treasury. The owner
/// receives `collateral + yield - fees`, converted to base units at the
/// close price, and separately owes the market `debt_owed`, which the
/// receipt passes through. Accepted exactly when the position is open, both
/// move checks pass and every checked step fits; on failure the position is
/// unchanged, on success it is marked closed.
pub fn close_position(
    pos: &mut LeveragedPosition,
    params: &PositionParams,
    caller: u64,
    price: u64,
    index: u64,
    debt_owed: u64,
    max_slippage_bps: u64,
) -> (r: Result<CloseReceipt, EngineError>)
    requires
        params.wf(),
        old(pos).wf(),
        price >= 1,
    ensures
        final(pos).wf(),
        match r {
            Ok(receipt) => {
                &&& close_error(*old(pos), *params, caller, price, index, max_slippage_bps)
                    is None
                &&& receipt.entry_value == old(pos).entry_value()
                &&& receipt.current_value == old(pos).current_value(price)
                &&& receipt.yield_value == old(pos).yield_value(price, index)
                &&& receipt.principal_fee == old(pos).principal_fee(*params)
                &&& receipt.yield_fee == old(pos).yield_fee(*params, price, index)
                &&& receipt.total_fee == old(pos).total_fee(*params, price, index)
                &&& receipt.vault_fee_share == bps_of(
                    old(pos).total_fee(*params, price, index),
                    params.fee_vault_share_bps as int,
                )
                &&& receipt.treasury_fee_share == old(pos).total_fee(*params, price, index)
                    - receipt.vault_fee_share
                &&& receipt.repay_amount == debt_owed
                &&& receipt.payout == old(pos).payout_base(*params, price, index)
                &&& *final(pos) == (LeveragedPosition { is_open: false, ..*old(pos) })
            },
            Err(e) => {
                &&& close_error(*old(pos), *params, caller, price, index, max_slippage_bps)
                    == Some(e)
                &&& *final(pos) == *old(pos)
            },
        },
{
    if max_slippage_bps > BPS_DENOM {
        return Err(EngineError::InvalidAmount);
    }
    if !pos.is_open {
        return Err(EngineError::PositionNotOpen);
    }
    if caller != pos.owner {
        return Err(EngineError::Unauthorized);
    }

    let price_diff: u64 = if price >= pos.entry_price {
        price - pos.entry_price
    } else {
        pos.entry_price - price
    };
    proof {
        lemma_mul_fits(price_diff as int, BPS_DENOM as int, u64::MAX as int, BPS_DENOM as int);
    }
    let price_change: u128 = (price_diff as u128) * (BPS_DENOM as u128) / (pos.entry_price
        as u128);
    if price_change > params.max_price_change_bps as u128 {
        return Err(EngineError::OracleOutOfBounds);
    }

    proof {
        lemma_mul_fits(pos.collateral as int, price as int, u64::MAX as int, u64::MAX as int);
        lemma_mul_fits(
            pos.collateral as int,
            pos.entry_price as int,
            u64::MAX as int,
            u64::MAX as int,
        );
    }
    let entry_value: u128 = (pos.collateral as u128) * (pos.entry_price as u128) / (
    SCALE as u128);
    let current_value: u128 = (pos.collateral as u128) * (price as u128) / (SCALE as u128);
    if entry_value == 0 {
        return Err(EngineError::InvalidAmount);
    }
    let value_diff: u128 = if current_value >= entry_value {
        current_value - entry_value
    } else {
        entry_value - current_value
    };
    proof {
        lemma_mul_fits(
            value_diff as int,
            BPS_DENOM as int,
            u64::MAX as int * u64::MAX as int,
            BPS_DENOM as int,
        );
    }
    let slippage: u128 = value_diff * (BPS_DENOM as u128) / entry_value;
    if slippage > max_slippage_bps as u128 {
        return Err(EngineError::SlippageExceeded);
    }

    let rate_yield: u128 = if index > pos.entry_index {
        let growth: u128 = match entry_value.checked_mul((index - pos.entry_index) as u128) {
            Some(v) => v,
            None => { return Err(EngineError::ArithmeticOverflow) },
        };
        growth / (pos.entry_index as u128)
    } else {
        0
    };
    let price_gain: u128 = if current_value > entry_value {
        current_value - entry_value
    } else {
        0
    };
    let yield_value: u128 = match rate_yield.checked_add(price_gain) {
        Some(v) => v,
        None => { return Err(EngineError::ArithmeticOverflow) },
    };

    proof {
        lemma_bps_le(entry_value as int, params.principal_fee_bps as int);
        lemma_mul_fits(
            entry_value as int,
            params.principal_fee_bps as int,
            u64::MAX as int * u64::MAX as int,
            BPS_DENOM as int,
        );
    }
    let principal_fee: u128 = entry_value * (params.principal_fee_bps as u128) / (
    BPS_DENOM as u128);
    let yield_fee_scaled: u128 = match yield_value.checked_mul(params.yield_fee_bps as u128) {
        Some(v) => v,
        None => { return Err(EngineError::ArithmeticOverflow) },
    };
    let yield_fee: u128 = yield_fee_scaled / (BPS_DENOM as u128);
    let total_fee: u128 = match principal_fee.checked_add(yield_fee) {
        Some(v) => v,
        None => { return Err(EngineError::ArithmeticOverflow) },
    };
    let vault_fee_scaled: u128 = match total_fee.checked_mul(params.fee_vault_share_bps as u128) {
        Some(v) => v,
        None => { return Err(EngineError::ArithmeticOverflow) },
    };
    let vault_fee_share: u128 = vault_fee_scaled / (BPS_DENOM as u128);
    proof {
        lemma_bps_le(total_fee as int, params.fee_vault_share_bps as int);
    }
    let treasury_fee_share: u128 = total_fee - vault_fee_share;

    let yield_base_scaled: u128 = match yield_value.checked_mul(SCALE as u128) {
        Some(v) => v,
        None => { return Err(EngineError::ArithmeticOverflow) },
    };
    let yield_base: u128 = yield_base_scaled / (price as u128);
    let fee_base_scaled: u128 = match total_fee.checked_mul(SCALE as u128) {
        Some(v) => v,
        None => { return Err(EngineError::ArithmeticOverflow) },
    };
    let fee_base: u128 = fee_base_scaled / (price as u128);

    let gross_base: u128 = match (pos.collateral as u128).checked_add(yield_base) {
        Some(v) => v,
        None => { return Err(EngineError::ArithmeticOverflow) },
    };
    if gross_base < fee_base {
        return Err(EngineError::ArithmeticOverflow);
    }
    let payout_wide: u128 = gross_base - fee_base;
    if payout_wide > u64::MAX as u128 {
        return Err(EngineError::ArithmeticOverflow);
    }
    let payout: u64 = payout_wide as u64;

    pos.is_open = false;
    Ok(
        CloseReceipt {
            entry_value,
            current_value,
            yield_value,
            principal_fee,
            yield_fee,
            total_fee,
            vault_fee_share,
            treasury_fee_share,
            repay_amount: debt_owed,
            payout,
        },
    )
}

} // verus!
