//! The lending market. Suppliers provide liquidity, borrowers draw it
//! against a utilization-sensitive interest rate, and a single accumulated
//! index carries the interest: a borrower owes `principal * index /
//! borrow_index`, where `borrow_index` is the weighted average of the index
//! at each of their borrows. Interest accrues lazily, at the start of every
//! state-mutating call; no operation leaves partial state behind.

use vstd::prelude::*;

use crate::errors::EngineError;
use crate::{
    lemma_mul_div_mono, lemma_mul_fits, BPS_DENOM, PAUSE_TIMELOCK_SECONDS, RATE_SCALE,
    SECONDS_PER_YEAR,
};

verus! {

/// Upper bound for the rate-model parameters, in basis points.
pub const MAX_RATE_BPS: u64 = 1_000_000;

/// The kink-based interest rate model: below the kink utilization the annual
/// rate is `base + utilization * slope1`; at or above it, the steeper
/// `slope2` takes over. All parameters are in basis points.
#[derive(Clone, Copy, Debug, PartialEq, Eq, Structural)]
pub struct InterestRateModel {
    pub base_rate_bps: u64,
    pub slope1_bps: u64,
    pub slope2_bps: u64,
    pub kink_bps: u64,
}

impl InterestRateModel {
    /// All parameters lie within their documented bounds.
    pub open spec fn wf(self) -> bool {
        &&& self.base_rate_bps <= MAX_RATE_BPS
        &&& self.slope1_bps <= MAX_RATE_BPS
        &&& self.slope2_bps <= MAX_RATE_BPS
        &&& self.kink_bps <= BPS_DENOM
    }

    /// Base rate converted to the index scale.
    pub open spec fn base_scaled(self) -> int {
        self.base_rate_bps * RATE_SCALE / (BPS_DENOM as int)
    }

    /// First slope converted to the index scale.
    pub open spec fn slope1_scaled(self) -> int {
        self.slope1_bps * RATE_SCALE / (BPS_DENOM as int)
    }

    /// Second slope converted to the index scale.
    pub open spec fn slope2_scaled(self) -> int {
        self.slope2_bps * RATE_SCALE / (BPS_DENOM as int)
    }

    /// Kink utilization converted to the index scale.
    pub open spec fn kink_scaled(self) -> int {
        self.kink_bps * RATE_SCALE / (BPS_DENOM as int)
    }

    /// Annual interest rate (scaled by [`RATE_SCALE`]) at a given scaled
    /// utilization: piecewise linear with the slope change at the kink.
    pub open spec fn annual_rate_at(self, util: int) -> int {
        if util <= self.kink_scaled() {
            self.base_scaled() + util * self.slope1_scaled() / (RATE_SCALE as int)
        } else {
            self.base_scaled() + self.kink_scaled() * self.slope1_scaled() / (RATE_SCALE as int)
                + (util - self.kink_scaled()) * self.slope2_scaled() / (RATE_SCALE as int)
        }
    }
}

/// One borrower's debt bookkeeping: the owner it belongs to, the outstanding
/// principal, and the weighted-average index at which it was borrowed. A
/// fresh account holds no principal and no index snapshot.
#[derive(Clone, Copy, Debug, PartialEq, Eq, Structural)]
pub struct BorrowerAccount {
    /// Identity of the borrower, as assigned by the host; only the owner may
    /// move this account's debt.
    pub owner: u64,
    pub principal: u128,
    pub borrow_index: u128,
}

impl BorrowerAccount {
    /// A fresh account for `owner`: nothing borrowed, no index snapshot.
    pub fn new(owner: u64) -> (acct: BorrowerAccount)
        ensures
            acct == (BorrowerAccount { owner, principal: 0u128, borrow_index: 0u128 }),
    {
        BorrowerAccount { owner, principal: 0, borrow_index: 0 }
    }
}

/// What `principal` borrowed at `borrow_index` owes once the market index
/// reaches `index` (the guard against a zero snapshot mirrors the executable
/// code and never fires for an account that has actually borrowed).
pub open spec fn owed_at(index: int, acct: BorrowerAccount) -> int {
    acct.principal * index / (if acct.borrow_index == 0 {
        1int
    } else {
        acct.borrow_index as int
    })
}

/// An isolated lending market for one asset.
#[derive(Clone, Copy, Debug, PartialEq, Eq, Structural)]
pub struct LendingMarket {
    pub model: InterestRateModel,
    /// Loan-to-value, in basis points, at which a position becomes liquidatable.
    pub liquidation_threshold_bps: u64,
    /// Liquidity that can never be borrowed, so the pool cannot be drained dry.
    pub min_reserve: u64,
    /// While set, every mutating operation is refused.
    pub paused: bool,
    /// When a pause has been proposed, the proposal time; the pause may be
    /// executed only after the timelock delay.
    pub pause_proposed_at: Option<u64>,
    /// Liquidity supplied to the market.
    pub total_supply: u128,
    /// Principal currently borrowed.
    pub total_borrowed: u128,
    /// The interest index, scaled by [`RATE_SCALE`]; starts at 1.0 and never
    /// decreases.
    pub accumulated_index: u128,
    /// Timestamp of the last interest accrual, in seconds.
    pub last_accrued_ts: u64,
}

impl LendingMarket {
    /// The model is well formed, the threshold is a meaningful fraction, and
    /// the index never fell below its starting point.
    pub open spec fn wf(self) -> bool {
        &&& self.model.wf()
        &&& 0 < self.liquidation_threshold_bps < BPS_DENOM
        &&& self.accumulated_index >= RATE_SCALE
    }

    /// Create an empty market whose index starts at 1.0.
    ///
    /// Accepted exactly when every model parameter is within bounds and the
    /// liquidation threshold is strictly between 0% and 100%.
    pub fn new(
        model: InterestRateModel,
        liquidation_threshold_bps: u64,
        min_reserve: u64,
        now: u64,
    ) -> (r: Result<LendingMarket, EngineError>)
        ensures
            match r {
                Ok(m) => {
                    &&& model.wf()
                    &&& 0 < liquidation_threshold_bps < BPS_DENOM
                    &&& m == (LendingMarket {
                        model,
                        liquidation_threshold_bps,
                        min_reserve,
                        paused: false,
                        pause_proposed_at: None,
                        total_supply: 0u128,
                        total_borrowed: 0u128,
                        accumulated_index: RATE_SCALE,
                        last_accrued_ts: now,
                    })
                    &&& m.wf()
                },
                Err(e) => {
                    &&& e == EngineError::InvalidConfig
                    &&& !(model.wf() && 0 < liquidation_threshold_bps < BPS_DENOM)
                },
            },
    {
        if model.base_rate_bps > MAX_RATE_BPS || model.slope1_bps > MAX_RATE_BPS
            || model.slope2_bps > MAX_RATE_BPS || model.kink_bps > BPS_DENOM
            || liquidation_threshold_bps == 0 || liquidation_threshold_bps >= BPS_DENOM {
            return Err(EngineError::InvalidConfig);
        }
        Ok(
            LendingMarket {
                model,
                liquidation_threshold_bps,
                min_reserve,
                paused: false,
                pause_proposed_at: None,
                total_supply: 0,
                total_borrowed: 0,
                accumulated_index: RATE_SCALE,
                last_accrued_ts: now,
            },
        )
    }

    /// The supply the utilization is measured against; an empty market
    /// counts as 1 so the ratio is defined.
    pub open spec fn effective_supply(self) -> int {
        if self.total_supply == 0 {
            1int
        } else {
            self.total_supply as int
        }
    }

    /// Utilization scaled by [`RATE_SCALE`]: borrowed / supply.
    pub open spec fn utilization_scaled(self) -> int {
        self.total_borrowed * RATE_SCALE / self.effective_supply()
    }

    /// The annual rate at the current utilization, scaled by [`RATE_SCALE`].
    pub open spec fn annual_rate(self) -> int {
        self.model.annual_rate_at(self.utilization_scaled())
    }

    /// How much the index grows when accruing from `last_accrued_ts` to
    /// `now`: linear per-second interest on the current index.
    pub open spec fn index_increment(self, now: u64) -> int {
        self.accumulated_index * self.annual_rate() * (now - self.last_accrued_ts) / (
        RATE_SCALE as int) / (SECONDS_PER_YEAR as int)
    }

    /// Every checked step of an accrual from `last_accrued_ts` to `now`
    /// stays within `u128`; only meaningful when `now > last_accrued_ts`.
    pub open spec fn accrue_fits(self, now: u64) -> bool {
        &&& self.total_borrowed * RATE_SCALE <= u128::MAX
        &&& (if self.utilization_scaled() <= self.model.kink_scaled() {
            self.utilization_scaled() * self.model.slope1_scaled() <= u128::MAX
        } else {
            (self.utilization_scaled() - self.model.kink_scaled()) * self.model.slope2_scaled()
                <= u128::MAX
        })
        &&& self.accumulated_index * self.annual_rate() <= u128::MAX
        &&& self.accumulated_index * self.annual_rate() * (now - self.last_accrued_ts)
            <= u128::MAX
        &&& self.accumulated_index + self.index_increment(now) <= u128::MAX
    }

    /// The market state after accruing up to `now` (identical when `now` is
    /// not later than the last accrual).
    pub open spec fn accrue_post(self, now: u64) -> LendingMarket {
        if now <= self.last_accrued_ts {
            self
        } else {
            LendingMarket {
                accumulated_index: (self.accumulated_index + self.index_increment(now)) as u128,
                last_accrued_ts: now,
                ..self
            }
        }
    }

    /// The index after accruing up to `now`.
    pub open spec fn accrued_index(self, now: u64) -> int {
        self.accrue_post(now).accumulated_index as int
    }

    /// Accrue interest up to `now`.
    ///
    /// A call at or before the last accrual time is a no-op. Otherwise the
    /// index grows by `index * rate * elapsed / RATE_SCALE / SECONDS_PER_YEAR`
    /// with the rate taken from the kink model at the current utilization;
    /// the index never decreases. Fails, changing nothing, exactly when a
    /// checked step would overflow `u128`.
    pub fn accrue(&mut self, now: u64) -> (r: Result<(), EngineError>)
        requires
            old(self).wf(),
        ensures
            final(self).wf(),
            match r {
                Ok(_) => {
                    &&& (now > old(self).last_accrued_ts ==> old(self).accrue_fits(now))
                    &&& *final(self) == old(self).accrue_post(now)
                    &&& final(self).accumulated_index >= old(self).accumulated_index
                },
                Err(e) => {
                    &&& e == EngineError::ArithmeticOverflow
                    &&& now > old(self).last_accrued_ts
                    &&& !old(self).accrue_fits(now)
                    &&& *final(self) == *old(self)
                },
            },
    {
        if now <= self.last_accrued_ts {
            return Ok(());
        }
        let seconds: u64 = now - self.last_accrued_ts;
        let supply_eff: u128 = if self.total_supply == 0 {
            1
        } else {
            self.total_supply
        };
        let util_num: u128 = match self.total_borrowed.checked_mul(RATE_SCALE) {
            Some(v) => v,
            None => { return Err(EngineError::ArithmeticOverflow) },
        };
        let util: u128 = util_num / supply_eff;

        let base_scaled: u128 = (self.model.base_rate_bps as u128) * RATE_SCALE / (
        BPS_DENOM as u128);
        let slope1_scaled: u128 = (self.model.slope1_bps as u128) * RATE_SCALE / (
        BPS_DENOM as u128);
        let slope2_scaled: u128 = (self.model.slope2_bps as u128) * RATE_SCALE / (
        BPS_DENOM as u128);
        let kink_scaled: u128 = (self.model.kink_bps as u128) * RATE_SCALE / (BPS_DENOM as u128);

        proof {
            lemma_mul_div_mono(
                self.model.base_rate_bps as int,
                MAX_RATE_BPS as int,
                RATE_SCALE as int,
                BPS_DENOM as int,
            );
            lemma_mul_div_mono(
                self.model.slope1_bps as int,
                MAX_RATE_BPS as int,
                RATE_SCALE as int,
                BPS_DENOM as int,
            );
            lemma_mul_div_mono(
                self.model.slope2_bps as int,
                MAX_RATE_BPS as int,
                RATE_SCALE as int,
                BPS_DENOM as int,
            );
            lemma_mul_div_mono(
                self.model.kink_bps as int,
                BPS_DENOM as int,
                RATE_SCALE as int,
                BPS_DENOM as int,
            );
        }
        let rate: u128 = if util <= kink_scaled {
            let slope_part: u128 = match util.checked_mul(slope1_scaled) {
                Some(v) => v,
                None => { return Err(EngineError::ArithmeticOverflow) },
            };
            proof {
                vstd::arithmetic::div_mod::lemma_div_is_ordered(
                    slope_part as int,
                    u128::MAX as int,
                    RATE_SCALE as int,
                );
            }
            base_scaled + slope_part / RATE_SCALE
        } else {
            proof {
                lemma_mul_fits(
                    self.model.kink_scaled(),
                    self.model.slope1_scaled(),
                    RATE_SCALE as int,
                    (MAX_RATE_BPS as int) * (RATE_SCALE as int) / (BPS_DENOM as int),
                );
            }
            let kink_part: u128 = kink_scaled * slope1_scaled / RATE_SCALE;
            let excess: u128 = util - kink_scaled;
            let slope_part: u128 = match excess.checked_mul(slope2_scaled) {
                Some(v) => v,
                None => { return Err(EngineError::ArithmeticOverflow) },
            };
            proof {
                vstd::arithmetic::div_mod::lemma_div_is_ordered(
                    slope_part as int,
                    u128::MAX as int,
                    RATE_SCALE as int,
                );
                vstd::arithmetic::div_mod::lemma_div_is_ordered(
                    self.model.kink_scaled() * self.model.slope1_scaled(),
                    (RATE_SCALE as int) * ((MAX_RATE_BPS as int) * (RATE_SCALE as int) / (
                    BPS_DENOM as int)),
                    RATE_SCALE as int,
                );
            }
            base_scaled + kink_part + slope_part / RATE_SCALE
        };

        let with_rate: u128 = match self.accumulated_index.checked_mul(rate) {
            Some(v) => v,
            None => { return Err(EngineError::ArithmeticOverflow) },
        };
        let with_time: u128 = match with_rate.checked_mul(seconds as u128) {
            Some(v) => v,
            None => { return Err(EngineError::ArithmeticOverflow) },
        };
        let increment: u128 = with_time / RATE_SCALE / (SECONDS_PER_YEAR as u128);
        let new_index: u128 = match self.accumulated_index.checked_add(increment) {
            Some(v) => v,
            None => { return Err(EngineError::ArithmeticOverflow) },
        };

        self.accumulated_index = new_index;
        self.last_accrued_ts = now;
        Ok(())
    }

    /// The index snapshot a borrower holds after borrowing `amount` at time
    /// `now`: the current index on a first borrow, otherwise the average of
    /// the old snapshot and the current index weighted by principal.
    pub open spec fn new_borrow_index(self, acct: BorrowerAccount, amount: u64, now: u64) -> int {
        if acct.principal == 0 {
            self.accrued_index(now)
        } else {
            (acct.principal * acct.borrow_index + amount * self.accrued_index(now)) / (
            acct.principal + amount)
        }
    }

    /// Why borrowing `amount` at time `now` is rejected, or `None` when it
    /// is accepted; the rules are checked in this order.
    pub open spec fn borrow_error(
        self,
        acct: BorrowerAccount,
        caller: u64,
        amount: u64,
        now: u64,
    ) -> Option<EngineError> {
        if self.paused {
            Some(EngineError::ProtocolPaused)
        } else if amount == 0 {
            Some(EngineError::InvalidAmount)
        } else if caller != acct.owner {
            Some(EngineError::Unauthorized)
        } else if now > self.last_accrued_ts && !self.accrue_fits(now) {
            Some(EngineError::ArithmeticOverflow)
        } else if self.total_borrowed > self.total_supply {
            Some(EngineError::InsufficientLiquidity)
        } else if self.total_supply - self.total_borrowed < self.min_reserve {
            Some(EngineError::InsufficientLiquidity)
        } else if amount > self.total_supply - self.total_borrowed - self.min_reserve {
            Some(EngineError::InsufficientLiquidity)
        } else if acct.principal + amount > u128::MAX {
            Some(EngineError::ArithmeticOverflow)
        } else if acct.principal > 0 && acct.principal * acct.borrow_index > u128::MAX {
            Some(EngineError::ArithmeticOverflow)
        } else if acct.principal > 0 && amount * self.accrued_index(now) > u128::MAX {
            Some(EngineError::ArithmeticOverflow)
        } else if acct.principal > 0 && acct.principal * acct.borrow_index + amount
            * self.accrued_index(now) > u128::MAX {
            Some(EngineError::ArithmeticOverflow)
        } else if self.total_borrowed + amount > u128::MAX {
            Some(EngineError::ArithmeticOverflow)
        } else {
            None
        }
    }

    /// The market state after a successful borrow of `amount` at `now`.
    pub open spec fn borrow_post_market(self, amount: u64, now: u64) -> LendingMarket {
        LendingMarket {
            total_borrowed: (self.total_borrowed + amount) as u128,
            ..self.accrue_post(now)
        }
    }

    /// The borrower's account after a successful borrow of `amount` at `now`.
    pub open spec fn borrow_post_account(
        self,
        acct: BorrowerAccount,
        amount: u64,
        now: u64,
    ) -> BorrowerAccount {
        BorrowerAccount {
            owner: acct.owner,
            principal: (acct.principal + amount) as u128,
            borrow_index: self.new_borrow_index(acct, amount, now) as u128,
        }
    }

    /// Borrow `amount` from the market at time `now`.
    ///
    /// Only the account's owner may borrow against it. Interest accrues
    /// first. The borrow is served only from liquidity above
    /// the minimum reserve, so the pool cannot be drained dry. The borrower's
    /// index snapshot becomes the weighted average
    /// `(principal * old_index + amount * current_index) / (principal + amount)`,
    /// so interest on each borrow runs from its own borrow time. Accepted
    /// exactly when the market is not paused, the amount is positive and
    /// within the borrowable liquidity, and no checked step overflows; on
    /// failure neither the market nor the account changes.
    pub fn borrow(
        &mut self,
        acct: &mut BorrowerAccount,
        caller: u64,
        amount: u64,
        now: u64,
    ) -> (r: Result<(), EngineError>)
        requires
            old(self).wf(),
        ensures
            final(self).wf(),
            match r {
                Ok(_) => {
                    &&& old(self).borrow_error(*old(acct), caller, amount, now) is None
                    &&& *final(self) == old(self).borrow_post_market(amount, now)
                    &&& *final(acct) == old(self).borrow_post_account(*old(acct), amount, now)
                },
                Err(e) => {
                    &&& old(self).borrow_error(*old(acct), caller, amount, now) == Some(e)
                    &&& *final(self) == *old(self)
                    &&& *final(acct) == *old(acct)
                },
            },
    {
        if self.paused {
            return Err(EngineError::ProtocolPaused);
        }
        if amount == 0 {
            return Err(EngineError::InvalidAmount);
        }
        if caller != acct.owner {
            return Err(EngineError::Unauthorized);
        }
        let saved: LendingMarket = *self;
        match self.accrue(now) {
            Ok(_) => (),
            Err(e) => { return Err(e) },
        }
        if self.total_borrowed > self.total_supply {
            *self = saved;
            return Err(EngineError::InsufficientLiquidity);
        }
        let available: u128 = self.total_supply - self.total_borrowed;
        if available < self.min_reserve as u128 {
            *self = saved;
            return Err(EngineError::InsufficientLiquidity);
        }
        let borrowable: u128 = available - self.min_reserve as u128;
        if amount as u128 > borrowable {
            *self = saved;
            return Err(EngineError::InsufficientLiquidity);
        }

        let new_principal: u128 = match acct.principal.checked_add(amount as u128) {
            Some(v) => v,
            None => {
                *self = saved;
                return Err(EngineError::ArithmeticOverflow);
            },
        };
        let index: u128 = self.accumulated_index;
        let new_borrow_index: u128 = if acct.principal == 0 {
            index
        } else {
            let old_weighted: u128 = match acct.principal.checked_mul(acct.borrow_index) {
                Some(v) => v,
                None => {
                    *self = saved;
                    return Err(EngineError::ArithmeticOverflow);
                },
            };
            let new_weighted: u128 = match (amount as u128).checked_mul(index) {
                Some(v) => v,
                None => {
                    *self = saved;
                    return Err(EngineError::ArithmeticOverflow);
                },
            };
            let total_weighted: u128 = match old_weighted.checked_add(new_weighted) {
                Some(v) => v,
                None => {
                    *self = saved;
                    return Err(EngineError::ArithmeticOverflow);
                },
            };
            total_weighted / new_principal
        };
        let new_borrowed: u128 = match self.total_borrowed.checked_add(amount as u128) {
            Some(v) => v,
            None => {
                *self = saved;
                return Err(EngineError::ArithmeticOverflow);
            },
        };

        acct.principal = new_principal;
        acct.borrow_index = new_borrow_index;
        self.total_borrowed = new_borrowed;
        Ok(())
    }

    /// What the account owes once interest has accrued up to `now`.
    pub open spec fn owed_after_accrual(self, acct: BorrowerAccount, now: u64) -> int {
        owed_at(self.accrued_index(now), acct)
    }

    /// Principal retired by repaying `amount` at time `now`: everything on a
    /// full repayment, else the principal-weighted portion of the payment.
    pub open spec fn principal_repaid(self, acct: BorrowerAccount, amount: u64, now: u64) -> int {
        if amount >= self.owed_after_accrual(acct, now) {
            acct.principal as int
        } else {
            amount * acct.borrow_index / self.accrued_index(now)
        }
    }

    /// Why repaying `amount` at time `now` is rejected, or `None` when it is
    /// accepted; the rules are checked in this order.
    pub open spec fn repay_error(
        self,
        acct: BorrowerAccount,
        caller: u64,
        amount: u64,
        now: u64,
    ) -> Option<EngineError> {
        if self.paused {
            Some(EngineError::ProtocolPaused)
        } else if amount == 0 {
            Some(EngineError::InvalidAmount)
        } else if caller != acct.owner {
            Some(EngineError::Unauthorized)
        } else if now > self.last_accrued_ts && !self.accrue_fits(now) {
            Some(EngineError::ArithmeticOverflow)
        } else if acct.principal * self.accrued_index(now) > u128::MAX {
            Some(EngineError::ArithmeticOverflow)
        } else if amount > self.owed_after_accrual(acct, now) {
            Some(EngineError::InvalidAmount)
        } else if amount < self.owed_after_accrual(acct, now) && amount * acct.borrow_index
            > u128::MAX {
            Some(EngineError::ArithmeticOverflow)
        } else if acct.principal < self.principal_repaid(acct, amount, now) {
            Some(EngineError::InvalidAmount)
        } else if self.total_borrowed < self.principal_repaid(acct, amount, now) {
            Some(EngineError::InvalidAmount)
        } else {
            None
        }
    }

    /// The market state after a successful repayment.
    pub open spec fn repay_post_market(
        self,
        acct: BorrowerAccount,
        amount: u64,
        now: u64,
    ) -> LendingMarket {
        LendingMarket {
            total_borrowed: (self.total_borrowed - self.principal_repaid(acct, amount, now))
                as u128,
            ..self.accrue_post(now)
        }
    }

    /// The borrower's account after a successful repayment; principal
    /// reaching zero resets the index snapshot.
    pub open spec fn repay_post_account(
        self,
        acct: BorrowerAccount,
        amount: u64,
        now: u64,
    ) -> BorrowerAccount {
        let remaining = acct.principal - self.principal_repaid(acct, amount, now);
        BorrowerAccount {
            owner: acct.owner,
            principal: remaining as u128,
            borrow_index: if remaining == 0 {
                0u128
            } else {
                acct.borrow_index
            },
        }
    }

    /// Repay `amount` of the account's debt at time `now`.
    ///
    /// Only the account's owner may repay it (a liquidator settles debt on
    /// the owner's behalf, through the owner's identity). Interest accrues
    /// first; the debt is
    /// `principal * current_index / borrow_index`. A payment above the debt
    /// is rejected. A full payment retires all principal and clears the index
    /// snapshot; a partial one retires `amount * borrow_index / current_index`
    /// of principal, so the remaining debt keeps its entry point. Accepted
    /// exactly when the market is not paused, the amount is positive and at
    /// most the debt, and no checked step overflows; on failure neither the
    /// market nor the account changes.
    pub fn repay(
        &mut self,
        acct: &mut BorrowerAccount,
        caller: u64,
        amount: u64,
        now: u64,
    ) -> (r: Result<RepayReceipt, EngineError>)
        requires
            old(self).wf(),
        ensures
            final(self).wf(),
            match r {
                Ok(receipt) => {
                    &&& old(self).repay_error(*old(acct), caller, amount, now) is None
                    &&& receipt.total_owed == old(self).owed_after_accrual(*old(acct), now)
                    &&& receipt.principal_repaid == old(self).principal_repaid(
                        *old(acct),
                        amount,
                        now,
                    )
                    &&& *final(self) == old(self).repay_post_market(*old(acct), amount, now)
                    &&& *final(acct) == old(self).repay_post_account(*old(acct), amount, now)
                },
                Err(e) => {
                    &&& old(self).repay_error(*old(acct), caller, amount, now) == Some(e)
                    &&& *final(self) == *old(self)
                    &&& *final(acct) == *old(acct)
                },
            },
    {
        if self.paused {
            return Err(EngineError::ProtocolPaused);
        }
        if amount == 0 {
            return Err(EngineError::InvalidAmount);
        }
        if caller != acct.owner {
            return Err(EngineError::Unauthorized);
        }
        let saved: LendingMarket = *self;
        match self.accrue(now) {
            Ok(_) => (),
            Err(e) => { return Err(e) },
        }
        let index: u128 = self.accumulated_index;
        let owed_scaled: u128 = match acct.principal.checked_mul(index) {
            Some(v) => v,
            None => {
                *self = saved;
                return Err(EngineError::ArithmeticOverflow);
            },
        };
        let divisor: u128 = if acct.borrow_index == 0 {
            1
        } else {
            acct.borrow_index
        };
        let total_owed: u128 = owed_scaled / divisor;
        if amount as u128 > total_owed {
            *self = saved;
            return Err(EngineError::InvalidAmount);
        }
        let repaid: u128 = if amount as u128 >= total_owed {
            acct.principal
        } else {
            let scaled: u128 = match (amount as u128).checked_mul(acct.borrow_index) {
                Some(v) => v,
                None => {
                    *self = saved;
                    return Err(EngineError::ArithmeticOverflow);
                },
            };
            scaled / index
        };
        if acct.principal < repaid {
            *self = saved;
            return Err(EngineError::InvalidAmount);
        }
        if self.total_borrowed < repaid {
            *self = saved;
            return Err(EngineError::InvalidAmount);
        }

        acct.principal = acct.principal - repaid;
        if acct.principal == 0 {
            acct.borrow_index = 0;
        }
        self.total_borrowed = self.total_borrowed - repaid;
        Ok(RepayReceipt { total_owed, principal_repaid: repaid })
    }

    /// Why supplying `amount` at time `now` is rejected, or `None`.
    pub open spec fn supply_error(self, amount: u64, now: u64) -> Option<EngineError> {
        if self.paused {
            Some(EngineError::ProtocolPaused)
        } else if amount == 0 {
            Some(EngineError::InvalidAmount)
        } else if now > self.last_accrued_ts && !self.accrue_fits(now) {
            Some(EngineError::ArithmeticOverflow)
        } else if self.total_supply + amount > u128::MAX {
            Some(EngineError::ArithmeticOverflow)
        } else {
            None
        }
    }

    /// Add `amount` of liquidity to the market at time `now`.
    ///
    /// Interest accrues first; the supplied liquidity then grows by the
    /// amount. Accepted exactly when the market is not paused, the amount is
    /// positive, and no checked step overflows; on failure nothing changes.
    pub fn supply_liquidity(&mut self, amount: u64, now: u64) -> (r: Result<(), EngineError>)
        requires
            old(self).wf(),
        ensures
            final(self).wf(),
            match r {
                Ok(_) => {
                    &&& old(self).supply_error(amount, now) is None
                    &&& *final(self) == (LendingMarket {
                        total_supply: (old(self).total_supply + amount) as u128,
                        ..old(self).accrue_post(now)
                    })
                },
                Err(e) => {
                    &&& old(self).supply_error(amount, now) == Some(e)
                    &&& *final(self) == *old(self)
                },
            },
    {
        if self.paused {
            return Err(EngineError::ProtocolPaused);
        }
        if amount == 0 {
            return Err(EngineError::InvalidAmount);
        }
        let saved: LendingMarket = *self;
        match self.accrue(now) {
            Ok(_) => (),
            Err(e) => { return Err(e) },
        }
        let new_supply: u128 = match self.total_supply.checked_add(amount as u128) {
            Some(v) => v,
            None => {
                *self = saved;
                return Err(EngineError::ArithmeticOverflow);
            },
        };
        self.total_supply = new_supply;
        Ok(())
    }

    /// Why withdrawing `amount` at time `now` is rejected, or `None`.
    pub open spec fn withdraw_error(self, amount: u64, now: u64) -> Option<EngineError> {
        if self.paused {
            Some(EngineError::ProtocolPaused)
        } else if amount == 0 {
            Some(EngineError::InvalidAmount)
        } else if now > self.last_accrued_ts && !self.accrue_fits(now) {
            Some(EngineError::ArithmeticOverflow)
        } else if self.total_supply < amount {
            Some(EngineError::InsufficientLiquidity)
        } else {
            None
        }
    }

    /// Withdraw `amount` of supplied liquidity at time `now`.
    ///
    /// Interest accrues first; the supplied liquidity then shrinks by the
    /// amount. Accepted exactly when the market is not paused, the amount is
    /// positive and no larger than the supplied liquidity, and the accrual
    /// does not overflow; on failure nothing changes.
    pub fn withdraw(&mut self, amount: u64, now: u64) -> (r: Result<(), EngineError>)
        requires
            old(self).wf(),
        ensures
            final(self).wf(),
            match r {
                Ok(_) => {
                    &&& old(self).withdraw_error(amount, now) is None
                    &&& *final(self) == (LendingMarket {
                        total_supply: (old(self).total_supply - amount) as u128,
                        ..old(self).accrue_post(now)
                    })
                },
                Err(e) => {
                    &&& old(self).withdraw_error(amount, now) == Some(e)
                    &&& *final(self) == *old(self)
                },
            },
    {
        if self.paused {
            return Err(EngineError::ProtocolPaused);
        }
        if amount == 0 {
            return Err(EngineError::InvalidAmount);
        }
        let saved: LendingMarket = *self;
        match self.accrue(now) {
            Ok(_) => (),
            Err(e) => { return Err(e) },
        }
        if self.total_supply < amount as u128 {
            *self = saved;
            return Err(EngineError::InsufficientLiquidity);
        }
        self.total_supply = self.total_supply - amount as u128;
        Ok(())
    }

    /// Liquidity not currently lent out.
    ///
    /// Fails exactly when more is recorded as borrowed than supplied, which
    /// signals outside interference with the accounting.
    pub fn available_liquidity(&self) -> (r: Result<u128, EngineError>)
        ensures
            match r {
                Ok(v) => {
                    &&& self.total_borrowed <= self.total_supply
                    &&& v == self.total_supply - self.total_borrowed
                },
                Err(e) => {
                    &&& e == EngineError::InsufficientLiquidity
                    &&& self.total_borrowed > self.total_supply
                },
            },
    {
        if self.total_borrowed > self.total_supply {
            return Err(EngineError::InsufficientLiquidity);
        }
        Ok(self.total_supply - self.total_borrowed)
    }

    /// What the account owes at the current index, without accruing.
    ///
    /// The debt is `principal * accumulated_index / borrow_index`; in
    /// particular it equals the principal exactly while the index still
    /// stands at the account's snapshot. Fails exactly when the scaled debt
    /// overflows `u128`.
    pub fn total_owed(&self, acct: &BorrowerAccount) -> (r: Result<u128, EngineError>)
        requires
            self.wf(),
        ensures
            match r {
                Ok(v) => {
                    &&& acct.principal * self.accumulated_index <= u128::MAX
                    &&& v == owed_at(self.accumulated_index as int, *acct)
                    &&& (acct.borrow_index == self.accumulated_index ==> v == acct.principal)
                },
                Err(e) => {
                    &&& e == EngineError::ArithmeticOverflow
                    &&& acct.principal * self.accumulated_index > u128::MAX
                },
            },
    {
        let owed_scaled: u128 = match acct.principal.checked_mul(self.accumulated_index) {
            Some(v) => v,
            None => { return Err(EngineError::ArithmeticOverflow) },
        };
        let divisor: u128 = if acct.borrow_index == 0 {
            1
        } else {
            acct.borrow_index
        };
        proof {
            if acct.borrow_index == self.accumulated_index {
                vstd::arithmetic::div_mod::lemma_div_multiples_vanish(
                    acct.principal as int,
                    divisor as int,
                );
                vstd::arithmetic::mul::lemma_mul_is_commutative(
                    acct.principal as int,
                    divisor as int,
                );
            }
        }
        Ok(owed_scaled / divisor)
    }

    /// Propose, cancel or ignore a pause request at time `now`.
    ///
    /// Unpausing a paused market takes effect immediately (emergency
    /// recovery) and clears any proposal. Pausing a running market only
    /// records a proposal, to be executed after the timelock; a second
    /// proposal while one is pending is rejected. Asking for the state the
    /// market is already in changes nothing.
    pub fn propose_pause(&mut self, pause: bool, now: u64) -> (r: Result<(), EngineError>)
        requires
            old(self).wf(),
        ensures
            final(self).wf(),
            match r {
                Ok(_) => {
                    &&& if !pause && old(self).paused {
                        *final(self) == (LendingMarket {
                            paused: false,
                            pause_proposed_at: None,
                            ..*old(self)
                        })
                    } else if pause && !old(self).paused {
                        &&& old(self).pause_proposed_at is None
                        &&& *final(self) == (LendingMarket {
                            pause_proposed_at: Some(now),
                            ..*old(self)
                        })
                    } else {
                        *final(self) == *old(self)
                    }
                },
                Err(e) => {
                    &&& e == EngineError::InvalidConfig
                    &&& pause && !old(self).paused && old(self).pause_proposed_at is Some
                    &&& *final(self) == *old(self)
                },
            },
    {
        if !pause && self.paused {
            self.paused = false;
            self.pause_proposed_at = None;
            Ok(())
        } else if pause && !self.paused {
            match self.pause_proposed_at {
                Some(_) => Err(EngineError::InvalidConfig),
                None => {
                    self.pause_proposed_at = Some(now);
                    Ok(())
                },
            }
        } else {
            Ok(())
        }
    }

    /// Execute a proposed pause once the timelock has elapsed.
    ///
    /// Accepted exactly when a proposal is pending and at least
    /// [`PAUSE_TIMELOCK_SECONDS`] have passed since it was made; the market
    /// is then paused and the proposal cleared.
    pub fn execute_pause(&mut self, now: u64) -> (r: Result<(), EngineError>)
        requires
            old(self).wf(),
        ensures
            final(self).wf(),
            match r {
                Ok(_) => {
                    &&& old(self).pause_proposed_at is Some
                    &&& now >= old(self).pause_proposed_at->Some_0
                        + PAUSE_TIMELOCK_SECONDS
                    &&& *final(self) == (LendingMarket {
                        paused: true,
                        pause_proposed_at: None,
                        ..*old(self)
                    })
                },
                Err(e) => {
                    &&& e == EngineError::InvalidConfig
                    &&& (old(self).pause_proposed_at is None || now < old(
                        self,
                    ).pause_proposed_at->Some_0 + PAUSE_TIMELOCK_SECONDS)
                    &&& *final(self) == *old(self)
                },
            },
    {
        let proposed_at: u64 = match self.pause_proposed_at {
            Some(t) => t,
            None => { return Err(EngineError::InvalidConfig) },
        };
        let elapsed: u64 = if now >= proposed_at {
            now - proposed_at
        } else {
            0
        };
        if elapsed < PAUSE_TIMELOCK_SECONDS {
            return Err(EngineError::InvalidConfig);
        }
        self.paused = true;
        self.pause_proposed_at = None;
        Ok(())
    }
}

/// What a successful repayment settled.
#[derive(Clone, Copy, Debug, PartialEq, Eq, Structural)]
pub struct RepayReceipt {
    /// The full debt, principal plus accrued interest, at repayment time.
    pub total_owed: u128,
    /// How much principal the payment retired.
    pub principal_repaid: u128,
}

} // verus!
