//! The risk guard: the limits every signal must pass before it is queued.

use vstd::prelude::*;
use crate::collections::lookup;
use vstd::string::StringExecFns;
use crate::decimal::{Decimal, decimal_product, decimal_text, sum};
use crate::state::OrderSide;
use crate::strategy::context::{PositionSnapshot, StrategyContext, exposure, market_exposure};
use crate::strategy::signal::{Signal, SignalView};
use crate::text::{clone_texts, contains_text, listed, unsigned_text, unsigned_to_text};

verus! {

/// The limits.
#[derive(Debug)]
pub struct RiskConfig {
    /// Whether trading is allowed at all.
    pub enabled: bool,
    pub max_position_size: Option<Decimal>,
    pub min_position_size: Option<Decimal>,
    pub max_total_exposure: Option<Decimal>,
    pub max_positions: Option<usize>,
    pub max_exposure_per_market: Option<Decimal>,
    /// Kept, not enforced.
    pub max_daily_volume: Option<Decimal>,
    /// Kept, not enforced.
    pub max_daily_trades: Option<usize>,
    /// Kept, not enforced.
    pub max_daily_loss: Option<Decimal>,
    /// Kept, not enforced.
    pub min_balance: Option<Decimal>,
    /// Kept, not enforced.
    pub loss_cooldown_secs: Option<u64>,
    /// Markets never traded.
    pub blacklisted_markets: Vec<String>,
    /// The only markets traded; all where empty.
    pub whitelisted_markets: Vec<String>,
}

impl Default for RiskConfig {
    fn default() -> (r: Self)
        ensures
            r.is_default(),
    {
        RiskConfig {
            enabled: true,
            max_position_size: Some(Decimal::from_i64(100)),
            min_position_size: Some(Decimal::from_i64(1)),
            max_total_exposure: Some(Decimal::from_i64(1000)),
            max_positions: Some(10),
            max_exposure_per_market: Some(Decimal::from_i64(200)),
            max_daily_volume: None,
            max_daily_trades: None,
            max_daily_loss: None,
            min_balance: Some(Decimal::from_i64(10)),
            loss_cooldown_secs: None,
            blacklisted_markets: Vec::new(),
            whitelisted_markets: Vec::new(),
        }
    }
}

impl Clone for RiskConfig {
    fn clone(&self) -> (r: Self)
        ensures
            r.same_limits(*self),
    {
        RiskConfig {
            enabled: self.enabled,
            max_position_size: self.max_position_size,
            min_position_size: self.min_position_size,
            max_total_exposure: self.max_total_exposure,
            max_positions: self.max_positions,
            max_exposure_per_market: self.max_exposure_per_market,
            max_daily_volume: self.max_daily_volume,
            max_daily_trades: self.max_daily_trades,
            max_daily_loss: self.max_daily_loss,
            min_balance: self.min_balance,
            loss_cooldown_secs: self.loss_cooldown_secs,
            blacklisted_markets: clone_texts(&self.blacklisted_markets),
            whitelisted_markets: clone_texts(&self.whitelisted_markets),
        }
    }
}

impl RiskConfig {
    /// Whether these are the limits that hold where none are set: sizes
    /// from 1 to 100, a total exposure of 1000, ten positions, 200 per
    /// market.
    pub open spec fn is_default(&self) -> bool {
        &&& self.enabled
        &&& self.max_position_size == Some(Decimal::of(100, 0))
        &&& self.min_position_size == Some(Decimal::of(1, 0))
        &&& self.max_total_exposure == Some(Decimal::of(1000, 0))
        &&& self.max_positions == Some(10usize)
        &&& self.max_exposure_per_market == Some(Decimal::of(200, 0))
        &&& self.max_daily_volume is None
        &&& self.max_daily_trades is None
        &&& self.max_daily_loss is None
        &&& self.min_balance == Some(Decimal::of(10, 0))
        &&& self.loss_cooldown_secs is None
        &&& self.blacklisted_markets@.len() == 0
        &&& self.whitelisted_markets@.len() == 0
    }

    /// Whether two configurations set the same limits.
    pub open spec fn same_limits(self, other: RiskConfig) -> bool {
        &&& self.enabled == other.enabled
        &&& self.max_position_size == other.max_position_size
        &&& self.min_position_size == other.min_position_size
        &&& self.max_total_exposure == other.max_total_exposure
        &&& self.max_positions == other.max_positions
        &&& self.max_exposure_per_market == other.max_exposure_per_market
        &&& self.max_daily_volume == other.max_daily_volume
        &&& self.max_daily_trades == other.max_daily_trades
        &&& self.max_daily_loss == other.max_daily_loss
        &&& self.min_balance == other.min_balance
        &&& self.loss_cooldown_secs == other.loss_cooldown_secs
        &&& self.blacklisted_markets@ == other.blacklisted_markets@
        &&& self.whitelisted_markets@ == other.whitelisted_markets@
    }
}

/// Why a signal was refused.
#[derive(Debug)]
#[allow(inconsistent_fields)]
pub enum RiskViolation {
    TradingDisabled,
    PositionSizeExceeded { requested: Decimal, max: Decimal },
    PositionSizeTooSmall { requested: Decimal, min: Decimal },
    TotalExposureExceeded { current: Decimal, requested: Decimal, max: Decimal },
    MaxPositionsReached { current: usize, max: usize },
    MarketExposureExceeded { market_id: String, current: Decimal, requested: Decimal, max: Decimal },
    DailyVolumeExceeded { current: Decimal, max: Decimal },
    DailyTradesExceeded { current: usize, max: usize },
    DailyLossExceeded { current: Decimal, max: Decimal },
    InsufficientBalance { available: Decimal, required: Decimal },
    MarketBlacklisted { market_id: String },
    MarketNotWhitelisted { market_id: String },
    InvalidPrice { price: Decimal },
    CooldownActive { remaining_secs: u64 },
    /// An exposure that a limit is set on leaves the range of the numbers.
    ExposureOutOfRange,
}

/// A violation as a value.
#[allow(inconsistent_fields)]
pub enum Violation {
    TradingDisabled,
    PositionSizeExceeded { requested: Decimal, max: Decimal },
    PositionSizeTooSmall { requested: Decimal, min: Decimal },
    TotalExposureExceeded { current: Decimal, requested: Decimal, max: Decimal },
    MaxPositionsReached { current: usize, max: usize },
    MarketExposureExceeded { market_id: Seq<char>, current: Decimal, requested: Decimal, max: Decimal },
    DailyVolumeExceeded { current: Decimal, max: Decimal },
    DailyTradesExceeded { current: usize, max: usize },
    DailyLossExceeded { current: Decimal, max: Decimal },
    InsufficientBalance { available: Decimal, required: Decimal },
    MarketBlacklisted { market_id: Seq<char> },
    MarketNotWhitelisted { market_id: Seq<char> },
    InvalidPrice { price: Decimal },
    CooldownActive { remaining_secs: u64 },
    ExposureOutOfRange,
}

impl View for RiskViolation {
    type V = Violation;

    open spec fn view(&self) -> Violation {
        match *self {
            RiskViolation::TradingDisabled => Violation::TradingDisabled,
            RiskViolation::PositionSizeExceeded { requested, max } => Violation::PositionSizeExceeded {
                requested,
                max,
            },
            RiskViolation::PositionSizeTooSmall { requested, min } => Violation::PositionSizeTooSmall {
                requested,
                min,
            },
            RiskViolation::TotalExposureExceeded { current, requested, max } => Violation::TotalExposureExceeded {
                current,
                requested,
                max,
            },
            RiskViolation::MaxPositionsReached { current, max } => Violation::MaxPositionsReached {
                current,
                max,
            },
            RiskViolation::MarketExposureExceeded { market_id, current, requested, max } => Violation::MarketExposureExceeded {
                market_id: market_id@,
                current,
                requested,
                max,
            },
            RiskViolation::DailyVolumeExceeded { current, max } => Violation::DailyVolumeExceeded {
                current,
                max,
            },
            RiskViolation::DailyTradesExceeded { current, max } => Violation::DailyTradesExceeded {
                current,
                max,
            },
            RiskViolation::DailyLossExceeded { current, max } => Violation::DailyLossExceeded {
                current,
                max,
            },
            RiskViolation::InsufficientBalance { available, required } => Violation::InsufficientBalance {
                available,
                required,
            },
            RiskViolation::MarketBlacklisted { market_id } => Violation::MarketBlacklisted {
                market_id: market_id@,
            },
            RiskViolation::MarketNotWhitelisted { market_id } => Violation::MarketNotWhitelisted {
                market_id: market_id@,
            },
            RiskViolation::InvalidPrice { price } => Violation::InvalidPrice { price },
            RiskViolation::CooldownActive { remaining_secs } => Violation::CooldownActive {
                remaining_secs,
            },
            RiskViolation::ExposureOutOfRange => Violation::ExposureOutOfRange,
        }
    }
}

/// What a signal is worth: its size at its price, at a price of one where
/// it names none.
pub open spec fn signal_value(signal: SignalView) -> Option<Decimal> {
    decimal_product(
        signal.size,
        match signal.price {
            Some(p) => p,
            None => Decimal::of(1, 0),
        },
    )
}

/// The market must not be blacklisted, and must be whitelisted where there
/// is a whitelist.
pub open spec fn market_check(config: RiskConfig, signal: SignalView) -> Option<Violation> {
    if listed(config.blacklisted_markets@, signal.market_id) {
        Some(Violation::MarketBlacklisted { market_id: signal.market_id })
    } else if config.whitelisted_markets@.len() > 0 && !listed(
        config.whitelisted_markets@,
        signal.market_id,
    ) {
        Some(Violation::MarketNotWhitelisted { market_id: signal.market_id })
    } else {
        None
    }
}

/// The size must lie within the two bounds that are set.
pub open spec fn size_check(config: RiskConfig, signal: SignalView) -> Option<Violation> {
    let too_small = match config.min_position_size {
        Some(min) => if signal.size.lt(min) {
            Some(Violation::PositionSizeTooSmall { requested: signal.size, min })
        } else {
            None
        },
        None => None,
    };
    match config.max_position_size {
        Some(max) => if signal.size.gt(max) {
            Some(Violation::PositionSizeExceeded { requested: signal.size, max })
        } else {
            too_small
        },
        None => too_small,
    }
}

/// A buy must not take the value of all positions over the limit. A sell is
/// let through, whatever is held: it is taken to lower the exposure.
pub open spec fn total_exposure_check(
    config: RiskConfig,
    signal: SignalView,
    positions: Seq<(Seq<char>, PositionSnapshot)>,
) -> Option<Violation> {
    match config.max_total_exposure {
        Some(max) => if signal.side == OrderSide::Buy {
            match (exposure(positions, positions.len()), signal_value(signal)) {
                (Some(current), Some(requested)) => match sum(current, requested) {
                    Some(after) => if after.gt(max) {
                        Some(Violation::TotalExposureExceeded { current, requested, max })
                    } else {
                        None
                    },
                    None => Some(Violation::ExposureOutOfRange),
                },
                _ => Some(Violation::ExposureOutOfRange),
            }
        } else {
            None
        },
        None => None,
    }
}

/// A buy of a token in which no position is held must not take the number
/// of positions over the limit.
pub open spec fn max_positions_check(
    config: RiskConfig,
    signal: SignalView,
    positions: Seq<(Seq<char>, PositionSnapshot)>,
) -> Option<Violation> {
    match config.max_positions {
        Some(max) => if signal.side == OrderSide::Buy && lookup(positions, signal.token_id) is None
            && positions.len() >= max {
            Some(Violation::MaxPositionsReached { current: positions.len() as usize, max })
        } else {
            None
        },
        None => None,
    }
}

/// The value held in the signal's market, with the signal's value added,
/// must not pass the limit per market.
pub open spec fn market_exposure_check(
    config: RiskConfig,
    signal: SignalView,
    positions: Seq<(Seq<char>, PositionSnapshot)>,
) -> Option<Violation> {
    match config.max_exposure_per_market {
        Some(max) => match (
            market_exposure(positions, signal.market_id, positions.len()),
            signal_value(signal),
        ) {
            (Some(current), Some(requested)) => match sum(current, requested) {
                Some(after) => if after.gt(max) {
                    Some(
                        Violation::MarketExposureExceeded {
                            market_id: signal.market_id,
                            current,
                            requested,
                            max,
                        },
                    )
                } else {
                    None
                },
                None => Some(Violation::ExposureOutOfRange),
            },
            _ => Some(Violation::ExposureOutOfRange),
        },
        None => None,
    }
}

/// A price must lie between zero and one.
pub open spec fn price_check(signal: SignalView) -> Option<Violation> {
    match signal.price {
        Some(price) => if price.lt(Decimal::of(0, 0)) || price.gt(Decimal::of(1, 0)) {
            Some(Violation::InvalidPrice { price })
        } else {
            None
        },
        None => None,
    }
}

/// The first limit that the signal breaks, in the order in which the limits
/// are tried; none where it passes them all.
pub open spec fn first_violation(
    config: RiskConfig,
    signal: SignalView,
    positions: Seq<(Seq<char>, PositionSnapshot)>,
) -> Option<Violation> {
    if !config.enabled {
        Some(Violation::TradingDisabled)
    } else if market_check(config, signal) is Some {
        market_check(config, signal)
    } else if size_check(config, signal) is Some {
        size_check(config, signal)
    } else if total_exposure_check(config, signal, positions) is Some {
        total_exposure_check(config, signal, positions)
    } else if max_positions_check(config, signal, positions) is Some {
        max_positions_check(config, signal, positions)
    } else if market_exposure_check(config, signal, positions) is Some {
        market_exposure_check(config, signal, positions)
    } else {
        price_check(signal)
    }
}

/// A signal with a price below zero or above one is refused, whatever the
/// limits are.
pub proof fn lemma_price_out_of_bounds_is_refused(
    config: RiskConfig,
    signal: SignalView,
    positions: Seq<(Seq<char>, PositionSnapshot)>,
)
    requires
        signal.price matches Some(p) && (p.lt(Decimal::of(0, 0)) || p.gt(Decimal::of(1, 0))),
    ensures
        first_violation(config, signal, positions) is Some,
{
}

/// Only a buy of a token in which no position is held is refused for the
/// number of positions.
pub proof fn lemma_max_positions_only_for_new_buys(
    config: RiskConfig,
    signal: SignalView,
    positions: Seq<(Seq<char>, PositionSnapshot)>,
)
    requires
        first_violation(config, signal, positions) matches Some(v) && v is MaxPositionsReached,
    ensures
        signal.side == OrderSide::Buy,
        lookup(positions, signal.token_id) is None,
        config.max_positions matches Some(max) && positions.len() >= max,
{
}

/// Whether an exec result is what the specification asks for.
pub open spec fn agrees(r: Option<RiskViolation>, expected: Option<Violation>) -> bool {
    match (r, expected) {
        (Some(v), Some(e)) => v@ == e,
        (None, None) => true,
        _ => false,
    }
}

/// Holds a signal against the limits.
#[derive(Debug)]
pub struct RiskGuard {
    config: RiskConfig,
}

impl RiskGuard {
    /// The limits of the guard.
    pub closed spec fn limits(&self) -> RiskConfig {
        self.config
    }

    pub fn new(config: RiskConfig) -> (r: Self)
        ensures
            r.limits() == config,
    {
        RiskGuard { config }
    }

    fn signal_value(signal: &Signal) -> (r: Option<Decimal>)
        ensures
            r == signal_value(signal@),
    {
        let price = match signal.price {
            Some(p) => p,
            None => Decimal::one(),
        };
        signal.size.checked_mul(price)
    }

    fn check_market_allowed(&self, signal: &Signal) -> (r: Option<RiskViolation>)
        ensures
            agrees(r, market_check(self.limits(), signal@)),
    {
        if contains_text(&self.config.blacklisted_markets, signal.market_id.as_str()) {
            return Some(RiskViolation::MarketBlacklisted { market_id: signal.market_id.clone() });
        }
        if self.config.whitelisted_markets.len() > 0 && !contains_text(
            &self.config.whitelisted_markets,
            signal.market_id.as_str(),
        ) {
            return Some(RiskViolation::MarketNotWhitelisted { market_id: signal.market_id.clone() });
        }
        None
    }

    fn check_position_size(&self, signal: &Signal) -> (r: Option<RiskViolation>)
        ensures
            agrees(r, size_check(self.limits(), signal@)),
    {
        if let Some(max) = self.config.max_position_size {
            if signal.size.is_gt(max) {
                return Some(RiskViolation::PositionSizeExceeded { requested: signal.size, max });
            }
        }
        if let Some(min) = self.config.min_position_size {
            if signal.size.is_lt(min) {
                return Some(RiskViolation::PositionSizeTooSmall { requested: signal.size, min });
            }
        }
        None
    }

    fn check_total_exposure(&self, signal: &Signal, ctx: &StrategyContext) -> (r: Option<RiskViolation>)
        ensures
            agrees(r, total_exposure_check(self.limits(), signal@, ctx.positions@)),
    {
        let max = match self.config.max_total_exposure {
            Some(m) => m,
            None => {
                return None;
            },
        };
        match signal.side {
            OrderSide::Buy => {},
            OrderSide::Sell => {
                return None;
            },
        }
        let (current, requested) = match (ctx.total_exposure(), Self::signal_value(signal)) {
            (Some(c), Some(v)) => (c, v),
            _ => {
                return Some(RiskViolation::ExposureOutOfRange);
            },
        };
        match current.checked_add(requested) {
            Some(after) => if after.is_gt(max) {
                Some(RiskViolation::TotalExposureExceeded { current, requested, max })
            } else {
                None
            },
            None => Some(RiskViolation::ExposureOutOfRange),
        }
    }

    fn check_max_positions(&self, signal: &Signal, ctx: &StrategyContext) -> (r: Option<RiskViolation>)
        ensures
            agrees(r, max_positions_check(self.limits(), signal@, ctx.positions@)),
    {
        let max = match self.config.max_positions {
            Some(m) => m,
            None => {
                return None;
            },
        };
        match signal.side {
            OrderSide::Buy => {
                if ctx.get_position(signal.token_id.as_str()).is_none() {
                    let current = ctx.positions.len();
                    if current >= max {
                        return Some(RiskViolation::MaxPositionsReached { current, max });
                    }
                }
                None
            },
            OrderSide::Sell => None,
        }
    }

    fn check_market_exposure(&self, signal: &Signal, ctx: &StrategyContext) -> (r: Option<RiskViolation>)
        ensures
            agrees(r, market_exposure_check(self.limits(), signal@, ctx.positions@)),
    {
        let max = match self.config.max_exposure_per_market {
            Some(m) => m,
            None => {
                return None;
            },
        };
        let (current, requested) = match (
            ctx.exposure_in_market(signal.market_id.as_str()),
            Self::signal_value(signal),
        ) {
            (Some(c), Some(v)) => (c, v),
            _ => {
                return Some(RiskViolation::ExposureOutOfRange);
            },
        };
        match current.checked_add(requested) {
            Some(after) => if after.is_gt(max) {
                Some(
                    RiskViolation::MarketExposureExceeded {
                        market_id: signal.market_id.clone(),
                        current,
                        requested,
                        max,
                    },
                )
            } else {
                None
            },
            None => Some(RiskViolation::ExposureOutOfRange),
        }
    }

    fn check_price_bounds(&self, signal: &Signal) -> (r: Option<RiskViolation>)
        ensures
            agrees(r, price_check(signal@)),
    {
        if let Some(price) = signal.price {
            if price.is_lt(Decimal::zero()) || price.is_gt(Decimal::one()) {
                return Some(RiskViolation::InvalidPrice { price });
            }
        }
        None
    }

    /// Holds `signal` against the limits, in this order: trading enabled,
    /// blacklist, whitelist, size, total exposure, number of positions,
    /// exposure per market, price. The first limit broken is returned.
    pub fn check_signal(&self, signal: &Signal, ctx: &StrategyContext) -> (r: core::result::Result<
        (),
        RiskViolation,
    >)
        ensures
            match r {
                Ok(()) => first_violation(self.limits(), signal@, ctx.positions@) is None,
                Err(v) => first_violation(self.limits(), signal@, ctx.positions@) == Some(v@),
            },
    {
        if !self.config.enabled {
            return Err(RiskViolation::TradingDisabled);
        }
        if let Some(v) = self.check_market_allowed(signal) {
            return Err(v);
        }
        if let Some(v) = self.check_position_size(signal) {
            return Err(v);
        }
        if let Some(v) = self.check_total_exposure(signal, ctx) {
            return Err(v);
        }
        if let Some(v) = self.check_max_positions(signal, ctx) {
            return Err(v);
        }
        if let Some(v) = self.check_market_exposure(signal, ctx) {
            return Err(v);
        }
        if let Some(v) = self.check_price_bounds(signal) {
            return Err(v);
        }
        Ok(())
    }

    /// Replaces the limits.
    pub fn update_config(&mut self, config: RiskConfig)
        ensures
            final(self).limits() == config,
    {
        self.config = config;
    }

    /// The limits.
    pub fn config(&self) -> (r: &RiskConfig)
        ensures
            *r == self.limits(),
    {
        &self.config
    }
}

impl Violation {
    /// The violation in words.
    pub open spec fn message(self) -> Seq<char> {
        match self {
            Violation::TradingDisabled => "Trading is disabled"@,
            Violation::PositionSizeExceeded { requested, max } => "Position size "@ + decimal_text(
                requested,
            ) + " exceeds max "@ + decimal_text(max),
            Violation::PositionSizeTooSmall { requested, min } => "Position size "@ + decimal_text(
                requested,
            ) + " below min "@ + decimal_text(min),
            Violation::TotalExposureExceeded { current, requested, max } => "Total exposure "@
                + decimal_text(current) + " + "@ + decimal_text(requested) + " would exceed max "@
                + decimal_text(max),
            Violation::MaxPositionsReached { current, max } => "Max positions "@ + unsigned_text(
                max as nat,
            ) + " reached (current: "@ + unsigned_text(current as nat) + ")"@,
            Violation::MarketExposureExceeded { market_id, current, requested, max } => "Market "@
                + market_id + " exposure "@ + decimal_text(current) + " + "@ + decimal_text(
                requested,
            ) + " would exceed max "@ + decimal_text(max),
            Violation::DailyVolumeExceeded { current, max } => "Daily volume "@ + decimal_text(
                current,
            ) + " exceeds max "@ + decimal_text(max),
            Violation::DailyTradesExceeded { current, max } => "Daily trades "@ + unsigned_text(
                current as nat,
            ) + " exceeds max "@ + unsigned_text(max as nat),
            Violation::DailyLossExceeded { current, max } => "Daily loss "@ + decimal_text(current)
                + " exceeds max "@ + decimal_text(max),
            Violation::InsufficientBalance { available, required } => "Insufficient balance: "@
                + decimal_text(available) + " available, "@ + decimal_text(required)
                + " required"@,
            Violation::MarketBlacklisted { market_id } => "Market "@ + market_id
                + " is blacklisted"@,
            Violation::MarketNotWhitelisted { market_id } => "Market "@ + market_id
                + " is not whitelisted"@,
            Violation::InvalidPrice { price } => "Invalid price: "@ + decimal_text(price),
            Violation::CooldownActive { remaining_secs } => "Cooldown active: "@ + unsigned_text(
                remaining_secs as nat,
            ) + " seconds remaining"@,
            Violation::ExposureOutOfRange => "Exposure is out of range"@,
        }
    }
}

impl RiskViolation {
    /// The violation in words.
    pub fn message(&self) -> (r: String)
        ensures
            r@ == self@.message(),
    {
        match self {
            RiskViolation::TradingDisabled => "Trading is disabled".to_owned(),
            RiskViolation::PositionSizeExceeded { requested, max } => "Position size ".to_owned().concat(
                requested.to_string().as_str(),
            ).concat(" exceeds max ").concat(max.to_string().as_str()),
            RiskViolation::PositionSizeTooSmall { requested, min } => "Position size ".to_owned().concat(
                requested.to_string().as_str(),
            ).concat(" below min ").concat(min.to_string().as_str()),
            RiskViolation::TotalExposureExceeded { current, requested, max } => "Total exposure ".to_owned().concat(
                current.to_string().as_str(),
            ).concat(" + ").concat(requested.to_string().as_str()).concat(
                " would exceed max ",
            ).concat(max.to_string().as_str()),
            RiskViolation::MaxPositionsReached { current, max } => "Max positions ".to_owned().concat(
                unsigned_to_text(*max as u64).as_str(),
            ).concat(" reached (current: ").concat(unsigned_to_text(*current as u64).as_str()).concat(
                ")",
            ),
            RiskViolation::MarketExposureExceeded { market_id, current, requested, max } => "Market ".to_owned().concat(
                market_id.as_str(),
            ).concat(" exposure ").concat(current.to_string().as_str()).concat(" + ").concat(
                requested.to_string().as_str(),
            ).concat(" would exceed max ").concat(max.to_string().as_str()),
            RiskViolation::DailyVolumeExceeded { current, max } => "Daily volume ".to_owned().concat(
                current.to_string().as_str(),
            ).concat(" exceeds max ").concat(max.to_string().as_str()),
            RiskViolation::DailyTradesExceeded { current, max } => "Daily trades ".to_owned().concat(
                unsigned_to_text(*current as u64).as_str(),
            ).concat(" exceeds max ").concat(unsigned_to_text(*max as u64).as_str()),
            RiskViolation::DailyLossExceeded { current, max } => "Daily loss ".to_owned().concat(
                current.to_string().as_str(),
            ).concat(" exceeds max ").concat(max.to_string().as_str()),
            RiskViolation::InsufficientBalance { available, required } => "Insufficient balance: ".to_owned().concat(
                available.to_string().as_str(),
            ).concat(" available, ").concat(required.to_string().as_str()).concat(" required"),
            RiskViolation::MarketBlacklisted { market_id } => "Market ".to_owned().concat(
                market_id.as_str(),
            ).concat(" is blacklisted"),
            RiskViolation::MarketNotWhitelisted { market_id } => "Market ".to_owned().concat(
                market_id.as_str(),
            ).concat(" is not whitelisted"),
            RiskViolation::InvalidPrice { price } => "Invalid price: ".to_owned().concat(
                price.to_string().as_str(),
            ),
            RiskViolation::CooldownActive { remaining_secs } => "Cooldown active: ".to_owned().concat(
                unsigned_to_text(*remaining_secs).as_str(),
            ).concat(" seconds remaining"),
            RiskViolation::ExposureOutOfRange => "Exposure is out of range".to_owned(),
        }
    }
}

} // verus!
