//! Price-feed validation. The engine never parses a raw oracle account: the
//! caller reads the feed and hands in the already-scaled price, its confidence
//! interval in basis points, and its publish time. This module decides whether
//! that reading may be used.

use vstd::prelude::*;

use crate::errors::EngineError;

verus! {

/// One reading of a price feed, as supplied by the caller.
///
/// `price` is scaled by [`crate::SCALE`] (a price of 100.5 is 100_500_000),
/// `confidence_bps` is the feed's confidence interval relative to the price,
/// and `publish_time` is the feed's publish timestamp in seconds.
#[derive(Clone, Copy, Debug, PartialEq, Eq, Structural)]
pub struct PriceData {
    pub price: u64,
    pub confidence_bps: u64,
    pub publish_time: u64,
}

/// Per-asset validation bounds for an oracle feed.
#[derive(Clone, Copy, Debug, PartialEq, Eq, Structural)]
pub struct OracleConfig {
    /// Readings older than this many seconds are rejected as stale.
    pub max_staleness_seconds: u64,
    /// Readings with a wider confidence interval than this are rejected.
    pub max_confidence_bps: u64,
    /// Lowest accepted price (scaled); at least 1, so an accepted price never
    /// divides by zero downstream.
    pub min_price: u64,
    /// Highest accepted price (scaled).
    pub max_price: u64,
}

impl OracleConfig {
    /// The configuration is internally consistent.
    pub open spec fn wf(self) -> bool {
        1 <= self.min_price <= self.max_price
    }
}

/// Age of a reading at time `now`; a publish time in the future counts as age 0.
pub open spec fn price_age(data: PriceData, now: u64) -> int {
    if now >= data.publish_time {
        now - data.publish_time
    } else {
        0
    }
}

/// The first rule a reading breaks, checked in order: the feed must be
/// present, then fresh, then confident, then within the absolute price bounds.
pub open spec fn price_error(
    config: OracleConfig,
    feed: Option<PriceData>,
    now: u64,
) -> Option<EngineError> {
    match feed {
        None => Some(EngineError::InvalidConfig),
        Some(data) => {
            if price_age(data, now) > config.max_staleness_seconds {
                Some(EngineError::StaleOracle)
            } else if data.confidence_bps > config.max_confidence_bps {
                Some(EngineError::OracleOutOfBounds)
            } else if data.price < config.min_price || data.price > config.max_price {
                Some(EngineError::OracleOutOfBounds)
            } else {
                None
            }
        }
    }
}

/// Validate one oracle reading and return the price that the engine may use.
///
/// An asset that requires an oracle must supply one: `None` is rejected as a
/// configuration error. A reading is accepted exactly when it is fresh enough,
/// its confidence interval is tight enough, and its price lies within the
/// configured absolute bounds; the accepted price is then at least
/// `config.min_price`, so it is never zero.
pub fn validate_price(
    config: &OracleConfig,
    feed: Option<PriceData>,
    now: u64,
) -> (r: Result<u64, EngineError>)
    requires
        config.wf(),
    ensures
        match r {
            Ok(price) => {
                &&& price_error(*config, feed, now) is None
                &&& feed is Some
                &&& price == feed->Some_0.price
                &&& config.min_price <= price <= config.max_price
            },
            Err(e) => price_error(*config, feed, now) == Some(e),
        },
{
    match feed {
        None => Err(EngineError::InvalidConfig),
        Some(data) => {
            let age: u64 = if now >= data.publish_time {
                now - data.publish_time
            } else {
                0
            };
            if age > config.max_staleness_seconds {
                Err(EngineError::StaleOracle)
            } else if data.confidence_bps > config.max_confidence_bps {
                Err(EngineError::OracleOutOfBounds)
            } else if data.price < config.min_price || data.price > config.max_price {
                Err(EngineError::OracleOutOfBounds)
            } else {
                Ok(data.price)
            }
        }
    }
}

} // verus!
