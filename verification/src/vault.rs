//! The share-accounting vault. Depositors receive claim shares against a
//! pooled balance; the exchange rate between shares and the underlying asset
//! is computed from *tracked* deposits and fees, never from the raw pooled
//! balance, so that directly donating to or draining the pool cannot move the
//! rate. Fees are split between the vault (instant yield for the remaining
//! holders) and the treasury.
//!
//! The vault itself never moves assets: each mutating operation returns a
//! receipt that tells the caller which transfers to perform, and fails with
//! its state unchanged when any rule or checked-arithmetic step fails.

use vstd::prelude::*;

use crate::errors::EngineError;
use crate::{bps_of, lemma_bps_le, lemma_mul_div_le, lemma_mul_fits, BPS_DENOM, SCALE};

verus! {

/// Fee rates and bounds of one vault, fixed at creation.
#[derive(Clone, Copy, Debug, PartialEq, Eq, Structural)]
pub struct VaultConfig {
    /// Fee in basis points charged on every deposit.
    pub mint_fee_bps: u64,
    /// Fee in basis points charged on every redemption.
    pub burn_fee_bps: u64,
    /// Portion of each fee, in basis points, kept in the vault as yield;
    /// the rest goes to the treasury.
    pub fee_vault_share_bps: u64,
    /// Portion of a direct yield deposit, in basis points, kept in the vault.
    pub yield_vault_share_bps: u64,
    /// Reward, in basis points of a yield deposit, paid to the depositor in
    /// freshly minted shares.
    pub yield_reward_bps: u64,
    /// Smallest accepted deposit (dust floor); at least 1.
    pub min_amount: u64,
    /// Largest accepted deposit (overflow ceiling).
    pub max_amount: u64,
    /// Largest tolerated excess, in basis points, of the actual pooled
    /// balance over the tracked expectation before the rate is refused.
    pub max_deviation_bps: u64,
}

impl VaultConfig {
    /// All rates are valid basis-point fractions and the amount bounds are ordered.
    pub open spec fn wf(self) -> bool {
        &&& self.mint_fee_bps <= BPS_DENOM
        &&& self.burn_fee_bps <= BPS_DENOM
        &&& self.fee_vault_share_bps <= BPS_DENOM
        &&& self.yield_vault_share_bps <= BPS_DENOM
        &&& self.yield_reward_bps <= BPS_DENOM
        &&& 1 <= self.min_amount <= self.max_amount
    }
}

/// What a successful deposit did, and which transfers the caller must perform:
/// `net_deposit + vault_fee_share` into the vault, `treasury_fee_share` to the
/// treasury, and `shares` minted to the depositor.
#[derive(Clone, Copy, Debug, PartialEq, Eq, Structural)]
pub struct MintReceipt {
    /// Shares minted to the depositor.
    pub shares: u64,
    /// Deposit remaining after the fee; this is the tracked principal.
    pub net_deposit: u64,
    /// Total fee taken from the deposit.
    pub fee: u64,
    /// Fee portion kept in the vault.
    pub vault_fee_share: u64,
    /// Fee portion owed to the treasury.
    pub treasury_fee_share: u64,
    /// Exchange rate used, scaled by [`SCALE`].
    pub rate: u64,
}

/// What a successful redemption did: `payout` leaves the vault to the holder,
/// `treasury_fee_share` leaves the vault to the treasury, and `shares_burned`
/// shares are destroyed.
#[derive(Clone, Copy, Debug, PartialEq, Eq, Structural)]
pub struct BurnReceipt {
    /// Shares destroyed.
    pub shares_burned: u64,
    /// Underlying value of the shares before the fee.
    pub gross: u64,
    /// Total fee taken from the redemption.
    pub fee: u64,
    /// Fee portion kept in the vault.
    pub vault_fee_share: u64,
    /// Fee portion owed to the treasury.
    pub treasury_fee_share: u64,
    /// Amount paid out to the holder.
    pub payout: u64,
    /// Portion of the redemption counted against tracked principal rather
    /// than accrued fees.
    pub principal_portion: u64,
    /// Exchange rate used, scaled by [`SCALE`].
    pub rate: u64,
}

/// What a successful yield deposit did: `vault_share` goes into the vault,
/// `treasury_share` to the treasury, and `reward_shares` are minted to the
/// depositor.
#[derive(Clone, Copy, Debug, PartialEq, Eq, Structural)]
pub struct YieldReceipt {
    /// Portion of the deposit kept in the vault as yield.
    pub vault_share: u64,
    /// Portion of the deposit owed to the treasury.
    pub treasury_share: u64,
    /// Shares minted to the depositor as an incentive.
    pub reward_shares: u64,
    /// Exchange rate used, scaled by [`SCALE`].
    pub rate: u64,
}

/// One pooled-asset vault. All balances are tracked in the engine; the actual
/// pooled balance is passed into each operation and only ever *validated*.
#[derive(Clone, Copy, Debug, PartialEq, Eq, Structural)]
pub struct Vault {
    pub config: VaultConfig,
    /// While set, every mutating operation is refused.
    pub paused: bool,
    /// Principal deposited, net of fees.
    pub total_deposited: u64,
    /// Fees kept in the vault as yield for the remaining holders.
    pub accrued_fees: u64,
    /// Balance the pool is expected to hold; the reference point of the
    /// manipulation checks.
    pub expected_balance: u64,
    /// Claim shares outstanding.
    pub share_supply: u64,
}

impl Vault {
    /// A vault is well formed when its configuration is.
    pub open spec fn wf(self) -> bool {
        self.config.wf()
    }

    /// Create an empty, unpaused vault.
    ///
    /// Accepted exactly when the configuration is well formed: every rate a
    /// valid basis-point fraction and `1 <= min_amount <= max_amount`.
    pub fn new(config: VaultConfig) -> (r: Result<Vault, EngineError>)
        ensures
            match r {
                Ok(v) => {
                    &&& config.wf()
                    &&& v == (Vault {
                        config,
                        paused: false,
                        total_deposited: 0u64,
                        accrued_fees: 0u64,
                        expected_balance: 0u64,
                        share_supply: 0u64,
                    })
                },
                Err(e) => {
                    &&& e == EngineError::InvalidConfig
                    &&& !config.wf()
                },
            },
    {
        if config.mint_fee_bps > BPS_DENOM || config.burn_fee_bps > BPS_DENOM
            || config.fee_vault_share_bps > BPS_DENOM || config.yield_vault_share_bps > BPS_DENOM
            || config.yield_reward_bps > BPS_DENOM || config.min_amount < 1
            || config.min_amount > config.max_amount {
            return Err(EngineError::InvalidConfig);
        }
        Ok(
            Vault {
                config,
                paused: false,
                total_deposited: 0,
                accrued_fees: 0,
                expected_balance: 0,
                share_supply: 0,
            },
        )
    }

    /// The balance the share accounting redeems against: principal plus fees.
    pub open spec fn tracked_balance(self) -> int {
        self.total_deposited + self.accrued_fees
    }

    /// The exchange rate, scaled by [`SCALE`]: underlying value per share.
    /// An empty vault trades 1:1.
    pub open spec fn spec_rate(self) -> int {
        if self.share_supply == 0 {
            SCALE as int
        } else {
            self.tracked_balance() * SCALE / self.share_supply as int
        }
    }

    /// The actual pooled balance is consistent with the tracked expectation:
    /// never below it, and above it by at most `max_deviation_bps` (organic
    /// fee growth) when the expectation is positive.
    pub open spec fn balance_ok(self, actual_balance: u64) -> bool {
        &&& actual_balance >= self.expected_balance
        &&& (actual_balance > self.expected_balance && self.expected_balance > 0 ==> (
            actual_balance - self.expected_balance) * BPS_DENOM / self.expected_balance as int
            <= self.config.max_deviation_bps)
    }

    /// Why the exchange rate cannot be served, or `None` when it can.
    pub open spec fn rate_error(self, actual_balance: u64) -> Option<EngineError> {
        if !self.balance_ok(actual_balance) {
            Some(EngineError::VaultBalanceMismatch)
        } else if self.spec_rate() > u64::MAX {
            Some(EngineError::ArithmeticOverflow)
        } else {
            None
        }
    }

    /// Current exchange rate between shares and the underlying asset.
    ///
    /// `actual_balance` is the balance the pool really holds right now; it is
    /// only validated against the tracked expectation (a shortfall or an
    /// excess beyond the deviation bound is `VaultBalanceMismatch`) and never
    /// enters the rate, which the tracked balances alone determine.
    pub fn exchange_rate(&self, actual_balance: u64) -> (r: Result<u64, EngineError>)
        requires
            self.wf(),
        ensures
            match r {
                Ok(rate) => {
                    &&& self.rate_error(actual_balance) is None
                    &&& rate == self.spec_rate()
                },
                Err(e) => self.rate_error(actual_balance) == Some(e),
            },
    {
        if actual_balance < self.expected_balance {
            return Err(EngineError::VaultBalanceMismatch);
        }
        if actual_balance > self.expected_balance && self.expected_balance > 0 {
            let deviation: u64 = actual_balance - self.expected_balance;
            let deviation_bps: u128 =
                (deviation as u128) * (BPS_DENOM as u128) / (self.expected_balance as u128);
            if deviation_bps > self.config.max_deviation_bps as u128 {
                return Err(EngineError::VaultBalanceMismatch);
            }
        }
        if self.share_supply == 0 {
            return Ok(SCALE);
        }
        let backing: u128 = self.total_deposited as u128 + self.accrued_fees as u128;
        let rate: u128 = backing * (SCALE as u128) / (self.share_supply as u128);
        if rate > u64::MAX as u128 {
            return Err(EngineError::ArithmeticOverflow);
        }
        Ok(rate as u64)
    }

    /// Fee charged on a deposit of `amount`.
    pub open spec fn mint_fee(self, amount: u64) -> int {
        bps_of(amount as int, self.config.mint_fee_bps as int)
    }

    /// Portion of the deposit fee kept in the vault.
    pub open spec fn mint_vault_share(self, amount: u64) -> int {
        bps_of(self.mint_fee(amount), self.config.fee_vault_share_bps as int)
    }

    /// Portion of the deposit fee owed to the treasury.
    pub open spec fn mint_treasury_share(self, amount: u64) -> int {
        self.mint_fee(amount) - self.mint_vault_share(amount)
    }

    /// Deposit remaining after the fee.
    pub open spec fn mint_net(self, amount: u64) -> int {
        amount - self.mint_fee(amount)
    }

    /// Shares minted for a deposit of `amount` at the current rate.
    pub open spec fn mint_shares(self, amount: u64) -> int {
        self.mint_net(amount) * SCALE / self.spec_rate()
    }

    /// Why a deposit of `amount` is rejected, or `None` when it is accepted;
    /// the rules are checked in this order.
    pub open spec fn mint_error(self, amount: u64, actual_balance: u64) -> Option<EngineError> {
        if self.paused {
            Some(EngineError::ProtocolPaused)
        } else if amount < self.config.min_amount || amount > self.config.max_amount {
            Some(EngineError::InvalidAmount)
        } else if self.rate_error(actual_balance) is Some {
            self.rate_error(actual_balance)
        } else if self.spec_rate() == 0 {
            Some(EngineError::ArithmeticOverflow)
        } else if self.mint_shares(amount) > u64::MAX {
            Some(EngineError::ArithmeticOverflow)
        } else if self.total_deposited + self.mint_net(amount) > u64::MAX {
            Some(EngineError::ArithmeticOverflow)
        } else if self.expected_balance + self.mint_net(amount) + self.mint_vault_share(amount)
            > u64::MAX {
            Some(EngineError::ArithmeticOverflow)
        } else if self.accrued_fees + self.mint_vault_share(amount) > u64::MAX {
            Some(EngineError::ArithmeticOverflow)
        } else if self.share_supply + self.mint_shares(amount) > u64::MAX {
            Some(EngineError::ArithmeticOverflow)
        } else {
            None
        }
    }

    /// The vault state after a successful deposit of `amount`.
    pub open spec fn mint_post(self, amount: u64) -> Vault {
        Vault {
            total_deposited: (self.total_deposited + self.mint_net(amount)) as u64,
            accrued_fees: (self.accrued_fees + self.mint_vault_share(amount)) as u64,
            expected_balance: (self.expected_balance + self.mint_net(amount)
                + self.mint_vault_share(amount)) as u64,
            share_supply: (self.share_supply + self.mint_shares(amount)) as u64,
            ..self
        }
    }

    /// Deposit `amount` of the underlying asset and mint claim shares.
    ///
    /// The fee is `amount * mint_fee_bps / 10_000`, split between the vault
    /// and the treasury by `fee_vault_share_bps`; the remaining net deposit
    /// buys shares at the current exchange rate (1:1 on an empty vault). The
    /// deposit is accepted exactly when the vault is not paused, the amount
    /// lies within the configured bounds, the rate can be served, and no
    /// updated balance overflows; on failure nothing changes.
    pub fn mint(&mut self, amount: u64, actual_balance: u64) -> (r: Result<
        MintReceipt,
        EngineError,
    >)
        requires
            old(self).wf(),
        ensures
            final(self).wf(),
            match r {
                Ok(receipt) => {
                    &&& old(self).mint_error(amount, actual_balance) is None
                    &&& receipt.fee == old(self).mint_fee(amount)
                    &&& receipt.vault_fee_share == old(self).mint_vault_share(amount)
                    &&& receipt.treasury_fee_share == old(self).mint_treasury_share(amount)
                    &&& receipt.net_deposit == old(self).mint_net(amount)
                    &&& receipt.shares == old(self).mint_shares(amount)
                    &&& receipt.rate == old(self).spec_rate()
                    &&& *final(self) == old(self).mint_post(amount)
                },
                Err(e) => {
                    &&& old(self).mint_error(amount, actual_balance) == Some(e)
                    &&& *final(self) == *old(self)
                },
            },
    {
        if self.paused {
            return Err(EngineError::ProtocolPaused);
        }
        if amount < self.config.min_amount || amount > self.config.max_amount {
            return Err(EngineError::InvalidAmount);
        }
        let rate: u64 = match self.exchange_rate(actual_balance) {
            Ok(rate) => rate,
            Err(e) => { return Err(e) },
        };
        if rate == 0 {
            return Err(EngineError::ArithmeticOverflow);
        }

        proof {
            lemma_bps_le(amount as int, self.config.mint_fee_bps as int);
        }
        let fee_wide: u128 = (amount as u128) * (self.config.mint_fee_bps as u128) / (
        BPS_DENOM as u128);
        let fee: u64 = fee_wide as u64;
        proof {
            lemma_bps_le(fee as int, self.config.fee_vault_share_bps as int);
        }
        let vault_share_wide: u128 = (fee as u128) * (self.config.fee_vault_share_bps as u128) / (
        BPS_DENOM as u128);
        let vault_share: u64 = vault_share_wide as u64;
        let treasury_share: u64 = fee - vault_share;
        let net: u64 = amount - fee;

        let shares_wide: u128 = (net as u128) * (SCALE as u128) / (rate as u128);
        if shares_wide > u64::MAX as u128 {
            return Err(EngineError::ArithmeticOverflow);
        }
        let shares: u64 = shares_wide as u64;

        let new_deposited: u128 = self.total_deposited as u128 + net as u128;
        if new_deposited > u64::MAX as u128 {
            return Err(EngineError::ArithmeticOverflow);
        }
        let new_expected: u128 = self.expected_balance as u128 + net as u128
            + vault_share as u128;
        if new_expected > u64::MAX as u128 {
            return Err(EngineError::ArithmeticOverflow);
        }
        let new_fees: u128 = self.accrued_fees as u128 + vault_share as u128;
        if new_fees > u64::MAX as u128 {
            return Err(EngineError::ArithmeticOverflow);
        }
        let new_supply: u128 = self.share_supply as u128 + shares as u128;
        if new_supply > u64::MAX as u128 {
            return Err(EngineError::ArithmeticOverflow);
        }

        self.total_deposited = new_deposited as u64;
        self.expected_balance = new_expected as u64;
        self.accrued_fees = new_fees as u64;
        self.share_supply = new_supply as u64;

        Ok(MintReceipt {
            shares,
            net_deposit: net,
            fee,
            vault_fee_share: vault_share,
            treasury_fee_share: treasury_share,
            rate,
        })
    }

    /// Underlying value of `shares` at the current rate, before the fee.
    pub open spec fn burn_gross(self, shares: u64) -> int {
        shares * self.spec_rate() / SCALE as int
    }

    /// Fee charged on redeeming `shares`.
    pub open spec fn burn_fee(self, shares: u64) -> int {
        bps_of(self.burn_gross(shares), self.config.burn_fee_bps as int)
    }

    /// Portion of the redemption fee kept in the vault.
    pub open spec fn burn_vault_share(self, shares: u64) -> int {
        bps_of(self.burn_fee(shares), self.config.fee_vault_share_bps as int)
    }

    /// Portion of the redemption fee owed to the treasury.
    pub open spec fn burn_treasury_share(self, shares: u64) -> int {
        self.burn_fee(shares) - self.burn_vault_share(shares)
    }

    /// Amount paid out to the holder after the fee.
    pub open spec fn burn_payout(self, shares: u64) -> int {
        self.burn_gross(shares) - self.burn_fee(shares)
    }

    /// Portion of the gross redemption counted against tracked principal:
    /// the rest was yield, which only reduces accrued fees' backing.
    pub open spec fn burn_principal_portion(self, shares: u64) -> int {
        self.burn_gross(shares) * self.total_deposited / self.tracked_balance()
    }

    /// Everything that leaves the vault on a redemption: the holder's payout
    /// plus the treasury's fee share (the vault's share stays).
    pub open spec fn burn_deducted(self, shares: u64) -> int {
        self.burn_payout(shares) + self.burn_treasury_share(shares)
    }

    /// Why redeeming `shares` is rejected, or `None` when it is accepted;
    /// the rules are checked in this order.
    pub open spec fn burn_error(self, shares: u64, actual_balance: u64) -> Option<EngineError> {
        if self.paused {
            Some(EngineError::ProtocolPaused)
        } else if shares > self.share_supply {
            Some(EngineError::InvalidAmount)
        } else if self.rate_error(actual_balance) is Some {
            self.rate_error(actual_balance)
        } else if self.burn_gross(shares) > u64::MAX {
            Some(EngineError::ArithmeticOverflow)
        } else if self.burn_gross(shares) > actual_balance {
            Some(EngineError::InsufficientLiquidity)
        } else if self.tracked_balance() == 0 {
            Some(EngineError::InvalidAmount)
        } else if self.total_deposited < self.burn_principal_portion(shares) {
            Some(EngineError::InvalidAmount)
        } else if self.expected_balance < self.burn_deducted(shares) {
            Some(EngineError::InvalidAmount)
        } else if self.accrued_fees + self.burn_vault_share(shares) > u64::MAX {
            Some(EngineError::ArithmeticOverflow)
        } else {
            None
        }
    }

    /// The vault state after a successful redemption of `shares`.
    pub open spec fn burn_post(self, shares: u64) -> Vault {
        Vault {
            total_deposited: (self.total_deposited - self.burn_principal_portion(shares)) as u64,
            accrued_fees: (self.accrued_fees + self.burn_vault_share(shares)) as u64,
            expected_balance: (self.expected_balance - self.burn_deducted(shares)) as u64,
            share_supply: (self.share_supply - shares) as u64,
            ..self
        }
    }

    /// Burn `shares` and redeem their underlying value.
    ///
    /// The gross value is `shares * rate / SCALE` at the current exchange
    /// rate; the fee is `gross * burn_fee_bps / 10_000`, split between the
    /// vault and the treasury, and the holder receives the rest. Tracked
    /// principal falls only by the principal portion of the redemption,
    /// `gross * total_deposited / (total_deposited + accrued_fees)`, so the
    /// yield portion keeps backing the remaining holders. The redemption is
    /// accepted exactly when the vault is not paused, the shares do not
    /// exceed the supply, the rate can be served, the pool can cover the
    /// gross value, and the tracked balances stay within range; on failure
    /// nothing changes.
    pub fn burn(&mut self, shares: u64, actual_balance: u64) -> (r: Result<
        BurnReceipt,
        EngineError,
    >)
        requires
            old(self).wf(),
        ensures
            final(self).wf(),
            match r {
                Ok(receipt) => {
                    &&& old(self).burn_error(shares, actual_balance) is None
                    &&& receipt.shares_burned == shares
                    &&& receipt.gross == old(self).burn_gross(shares)
                    &&& receipt.fee == old(self).burn_fee(shares)
                    &&& receipt.vault_fee_share == old(self).burn_vault_share(shares)
                    &&& receipt.treasury_fee_share == old(self).burn_treasury_share(shares)
                    &&& receipt.payout == old(self).burn_payout(shares)
                    &&& receipt.principal_portion == old(self).burn_principal_portion(shares)
                    &&& receipt.rate == old(self).spec_rate()
                    &&& *final(self) == old(self).burn_post(shares)
                },
                Err(e) => {
                    &&& old(self).burn_error(shares, actual_balance) == Some(e)
                    &&& *final(self) == *old(self)
                },
            },
    {
        if self.paused {
            return Err(EngineError::ProtocolPaused);
        }
        if shares > self.share_supply {
            return Err(EngineError::InvalidAmount);
        }
        let rate: u64 = match self.exchange_rate(actual_balance) {
            Ok(rate) => rate,
            Err(e) => { return Err(e) },
        };

        proof {
            lemma_mul_fits(shares as int, rate as int, u64::MAX as int, u64::MAX as int);
        }
        let gross_wide: u128 = (shares as u128) * (rate as u128) / (SCALE as u128);
        if gross_wide > u64::MAX as u128 {
            return Err(EngineError::ArithmeticOverflow);
        }
        let gross: u64 = gross_wide as u64;
        if gross > actual_balance {
            return Err(EngineError::InsufficientLiquidity);
        }

        proof {
            lemma_bps_le(gross as int, self.config.burn_fee_bps as int);
        }
        let fee_wide: u128 = (gross as u128) * (self.config.burn_fee_bps as u128) / (
        BPS_DENOM as u128);
        let fee: u64 = fee_wide as u64;
        proof {
            lemma_bps_le(fee as int, self.config.fee_vault_share_bps as int);
        }
        let vault_share_wide: u128 = (fee as u128) * (self.config.fee_vault_share_bps as u128) / (
        BPS_DENOM as u128);
        let vault_share: u64 = vault_share_wide as u64;
        let treasury_share: u64 = fee - vault_share;
        let payout: u64 = gross - fee;

        let backing: u128 = self.total_deposited as u128 + self.accrued_fees as u128;
        if backing == 0 {
            return Err(EngineError::InvalidAmount);
        }
        proof {
            lemma_mul_fits(
                gross as int,
                self.total_deposited as int,
                u64::MAX as int,
                u64::MAX as int,
            );
            lemma_mul_div_le(gross as int, self.total_deposited as int, backing as int);
        }
        let principal_wide: u128 = (gross as u128) * (self.total_deposited as u128) / backing;
        let principal_portion: u64 = principal_wide as u64;

        if self.total_deposited < principal_portion {
            return Err(EngineError::InvalidAmount);
        }
        let deducted: u64 = payout + treasury_share;
        if self.expected_balance < deducted {
            return Err(EngineError::InvalidAmount);
        }
        let new_fees: u128 = self.accrued_fees as u128 + vault_share as u128;
        if new_fees > u64::MAX as u128 {
            return Err(EngineError::ArithmeticOverflow);
        }

        self.total_deposited = self.total_deposited - principal_portion;
        self.expected_balance = self.expected_balance - deducted;
        self.accrued_fees = new_fees as u64;
        self.share_supply = self.share_supply - shares;

        Ok(BurnReceipt {
            shares_burned: shares,
            gross,
            fee,
            vault_fee_share: vault_share,
            treasury_fee_share: treasury_share,
            payout,
            principal_portion,
            rate,
        })
    }

    /// Portion of a yield deposit of `amount` kept in the vault.
    pub open spec fn yield_vault_share(self, amount: u64) -> int {
        bps_of(amount as int, self.config.yield_vault_share_bps as int)
    }

    /// Portion of a yield deposit owed to the treasury.
    pub open spec fn yield_treasury_share(self, amount: u64) -> int {
        amount - self.yield_vault_share(amount)
    }

    /// Incentive paid to the yield depositor, in underlying value.
    pub open spec fn yield_reward(self, amount: u64) -> int {
        bps_of(amount as int, self.config.yield_reward_bps as int)
    }

    /// Shares minted to the yield depositor: the reward converted at the
    /// current rate, or nothing while the vault has no holders.
    pub open spec fn yield_reward_shares(self, amount: u64) -> int {
        if self.yield_reward(amount) > 0 && self.share_supply > 0 {
            self.yield_reward(amount) * SCALE / self.spec_rate()
        } else {
            0
        }
    }

    /// Why a yield deposit of `amount` is rejected, or `None` when it is
    /// accepted; the rules are checked in this order.
    pub open spec fn yield_error(self, amount: u64, actual_balance: u64) -> Option<EngineError> {
        if self.paused {
            Some(EngineError::ProtocolPaused)
        } else if amount == 0 || amount > self.config.max_amount {
            Some(EngineError::InvalidAmount)
        } else if self.rate_error(actual_balance) is Some {
            self.rate_error(actual_balance)
        } else if self.yield_reward(amount) > 0 && self.share_supply > 0 && self.spec_rate()
            == 0 {
            Some(EngineError::ArithmeticOverflow)
        } else if self.yield_reward_shares(amount) > u64::MAX {
            Some(EngineError::ArithmeticOverflow)
        } else if self.accrued_fees + self.yield_vault_share(amount) > u64::MAX {
            Some(EngineError::ArithmeticOverflow)
        } else if self.expected_balance + self.yield_vault_share(amount) > u64::MAX {
            Some(EngineError::ArithmeticOverflow)
        } else if self.share_supply + self.yield_reward_shares(amount) > u64::MAX {
            Some(EngineError::ArithmeticOverflow)
        } else {
            None
        }
    }

    /// The vault state after a successful yield deposit of `amount`.
    pub open spec fn yield_post(self, amount: u64) -> Vault {
        Vault {
            accrued_fees: (self.accrued_fees + self.yield_vault_share(amount)) as u64,
            expected_balance: (self.expected_balance + self.yield_vault_share(amount)) as u64,
            share_supply: (self.share_supply + self.yield_reward_shares(amount)) as u64,
            ..self
        }
    }

    /// Deposit outside profit directly into the vault as yield.
    ///
    /// `yield_vault_share_bps` of the amount joins the accrued fees, raising
    /// the exchange rate for every holder; the rest is owed to the treasury.
    /// As an incentive, `yield_reward_bps` of the amount is paid back to the
    /// depositor in shares at the current rate (no reward while the vault has
    /// no holders). Accepted exactly when the vault is not paused, the amount
    /// is positive and within the ceiling, the rate can be served, and no
    /// updated balance overflows; on failure nothing changes.
    pub fn deposit_yield(&mut self, amount: u64, actual_balance: u64) -> (r: Result<
        YieldReceipt,
        EngineError,
    >)
        requires
            old(self).wf(),
        ensures
            final(self).wf(),
            match r {
                Ok(receipt) => {
                    &&& old(self).yield_error(amount, actual_balance) is None
                    &&& receipt.vault_share == old(self).yield_vault_share(amount)
                    &&& receipt.treasury_share == old(self).yield_treasury_share(amount)
                    &&& receipt.reward_shares == old(self).yield_reward_shares(amount)
                    &&& receipt.rate == old(self).spec_rate()
                    &&& *final(self) == old(self).yield_post(amount)
                },
                Err(e) => {
                    &&& old(self).yield_error(amount, actual_balance) == Some(e)
                    &&& *final(self) == *old(self)
                },
            },
    {
        if self.paused {
            return Err(EngineError::ProtocolPaused);
        }
        if amount == 0 || amount > self.config.max_amount {
            return Err(EngineError::InvalidAmount);
        }
        let rate: u64 = match self.exchange_rate(actual_balance) {
            Ok(rate) => rate,
            Err(e) => { return Err(e) },
        };

        proof {
            lemma_bps_le(amount as int, self.config.yield_vault_share_bps as int);
            lemma_bps_le(amount as int, self.config.yield_reward_bps as int);
        }
        let vault_share_wide: u128 = (amount as u128) * (self.config.yield_vault_share_bps
            as u128) / (BPS_DENOM as u128);
        let vault_share: u64 = vault_share_wide as u64;
        let treasury_share: u64 = amount - vault_share;
        let reward_wide: u128 = (amount as u128) * (self.config.yield_reward_bps as u128) / (
        BPS_DENOM as u128);
        let reward: u64 = reward_wide as u64;

        let reward_shares: u64 = if reward > 0 && self.share_supply > 0 {
            if rate == 0 {
                return Err(EngineError::ArithmeticOverflow);
            }
            let reward_shares_wide: u128 = (reward as u128) * (SCALE as u128) / (rate as u128);
            if reward_shares_wide > u64::MAX as u128 {
                return Err(EngineError::ArithmeticOverflow);
            }
            reward_shares_wide as u64
        } else {
            0
        };

        let new_fees: u128 = self.accrued_fees as u128 + vault_share as u128;
        if new_fees > u64::MAX as u128 {
            return Err(EngineError::ArithmeticOverflow);
        }
        let new_expected: u128 = self.expected_balance as u128 + vault_share as u128;
        if new_expected > u64::MAX as u128 {
            return Err(EngineError::ArithmeticOverflow);
        }
        let new_supply: u128 = self.share_supply as u128 + reward_shares as u128;
        if new_supply > u64::MAX as u128 {
            return Err(EngineError::ArithmeticOverflow);
        }

        self.accrued_fees = new_fees as u64;
        self.expected_balance = new_expected as u64;
        self.share_supply = new_supply as u64;

        Ok(YieldReceipt { vault_share, treasury_share, reward_shares, rate })
    }
}

} // verus!
