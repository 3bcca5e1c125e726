//! What a strategy is, and how it is configured and tuned.

use vstd::prelude::*;
use crate::collections::TextMap;
use crate::decimal::Decimal;
use crate::error::{Error, Result};
use crate::strategy::context::StrategyContext;
use crate::strategy::signal::Signal;

verus! {

/// A trading strategy: something that looks at a context and proposes
/// signals. The engine calls `evaluate` once per eligible tick and reports
/// back through the `on_` hooks.
pub trait Strategy {
    /// The name of the strategy as a sequence of characters. A strategy
    /// says here what its `name` gives.
    open spec fn name_text(&self) -> Seq<char> {
        arbitrary()
    }

    /// The name under which the strategy is registered.
    fn name(&self) -> (r: &str)
        ensures
            r@ == self.name_text(),
    ;

    /// A description of the strategy. Unless the strategy gives its own, it
    /// is [`StrategyMetadata::plain`] of its name: version 1.0.0, with no
    /// text, no author and no tags.
    fn metadata(&self) -> (r: StrategyMetadata)
        default_ensures
            r.name@ == self.name_text(),
            r.description@.len() == 0,
            r.version@ == "1.0.0"@,
            r.author is None,
            r.tags@.len() == 0,
    {
        StrategyMetadata::plain(self.name())
    }

    /// Takes the strategy's parameters from `config`. An error keeps the
    /// strategy from being registered. Unless the strategy says otherwise,
    /// it takes every configuration and is not changed by it.
    fn initialize(&mut self, config: &StrategyConfig) -> (r: Result<()>)
        default_ensures
            r is Ok,
            &*final(self) == &*old(self),
    {
        Ok(())
    }

    /// The signals the strategy proposes for `ctx`.
    fn evaluate(&mut self, ctx: &StrategyContext) -> Vec<Signal>;

    /// A signal of this strategy was executed, or its execution failed.
    /// Unless the strategy says otherwise, it takes no note.
    fn on_signal_executed(&mut self, signal: &Signal, success: bool)
        default_ensures
            &*final(self) == &*old(self),
    {
    }

    /// The market data changed. Unless the strategy says otherwise, it
    /// takes no note.
    fn on_market_update(&mut self, ctx: &StrategyContext)
        default_ensures
            &*final(self) == &*old(self),
    {
    }

    /// An order of this strategy was filled. Unless the strategy says
    /// otherwise, it takes no note.
    fn on_order_filled(&mut self, order_id: &str, filled_price: Decimal, filled_size: Decimal)
        default_ensures
            &*final(self) == &*old(self),
    {
    }

    /// An order of this strategy was cancelled. Unless the strategy says
    /// otherwise, it takes no note.
    fn on_order_cancelled(&mut self, order_id: &str)
        default_ensures
            &*final(self) == &*old(self),
    {
    }

    /// The strategy is taken out of the engine. Unless the strategy says
    /// otherwise, that succeeds and leaves it as it is.
    fn shutdown(&mut self) -> (r: Result<()>)
        default_ensures
            r is Ok,
            &*final(self) == &*old(self),
    {
        Ok(())
    }

    /// Whether the strategy is configured well. Unless the strategy says
    /// otherwise, it is.
    fn validate(&self) -> (r: Result<()>)
        default_ensures
            r is Ok,
    {
        Ok(())
    }

    /// The parameters that can be tuned, by name. Unless the strategy says
    /// otherwise, there are none.
    fn parameters(&self) -> (r: TextMap<ParameterDef>)
        default_ensures
            r@.len() == 0,
    {
        TextMap::new()
    }

    /// Sets one parameter. Unless the strategy says otherwise, it knows no
    /// parameter: every name is an invalid input, and nothing changes.
    fn set_parameter(&mut self, name: &str, value: ParameterValue) -> (r: Result<()>)
        default_ensures
            r matches Err(e) && e.is_invalid_input("Parameter not found"@),
            &*final(self) == &*old(self),
    {
        Err(Error::invalid_input("Parameter not found"))
    }
}

/// A description of a strategy.
#[derive(Debug, Clone)]
pub struct StrategyMetadata {
    pub name: String,
    pub description: String,
    pub version: String,
    pub author: Option<String>,
    pub tags: Vec<String>,
}

impl StrategyMetadata {
    /// The description of a strategy of which only the name is known: it
    /// is at version 1.0.0, with no text, no author and no tags.
    pub fn plain(name: &str) -> (r: Self)
        ensures
            r.name@ == name@,
            r.description@.len() == 0,
            r.version@ == "1.0.0"@,
            r.author is None,
            r.tags@.len() == 0,
    {
        StrategyMetadata {
            name: name.to_owned(),
            description: String::new(),
            version: "1.0.0".to_owned(),
            author: None,
            tags: Vec::new(),
        }
    }
}

/// How one strategy is run.
#[derive(Debug)]
pub struct StrategyConfig {
    /// Whether the strategy is evaluated at all.
    pub enabled: bool,
    /// Whether its signals are executed without being asked for.
    pub auto_execute: bool,
    pub max_position_size: Option<Decimal>,
    pub max_total_exposure: Option<Decimal>,
    /// Seconds that must pass between two evaluations.
    pub min_signal_interval_secs: u64,
    /// The only markets shown to the strategy; all where empty.
    pub include_markets: Vec<String>,
    /// Markets never shown to the strategy.
    pub exclude_markets: Vec<String>,
    /// The strategy's own parameters, by name.
    pub parameters: TextMap<ParameterValue>,
}

impl Default for StrategyConfig {
    fn default() -> (r: Self)
        ensures
            !r.enabled,
            !r.auto_execute,
            r.max_position_size is None,
            r.max_total_exposure is None,
            r.min_signal_interval_secs == 0,
            r.include_markets@.len() == 0,
            r.exclude_markets@.len() == 0,
            r.parameters@.len() == 0,
    {
        StrategyConfig {
            enabled: false,
            auto_execute: false,
            max_position_size: None,
            max_total_exposure: None,
            min_signal_interval_secs: 0,
            include_markets: Vec::new(),
            exclude_markets: Vec::new(),
            parameters: TextMap::new(),
        }
    }
}

/// A parameter that can be tuned.
#[derive(Debug)]
pub struct ParameterDef {
    pub name: String,
    pub description: String,
    pub param_type: ParameterType,
    pub default: ParameterValue,
    pub min: Option<ParameterValue>,
    pub max: Option<ParameterValue>,
    pub allowed_values: Option<Vec<ParameterValue>>,
}

/// The type of a parameter.
#[derive(Debug, Clone, Copy, PartialEq, Eq, Structural)]
pub enum ParameterType {
    Integer,
    Float,
    Decimal,
    Boolean,
    String,
    Enum,
}

/// A binary floating-point number, as far as the library reads one: the
/// whole number it truncates to, and the decimal it converts to where it
/// converts to one.
#[derive(Debug, Clone, Copy)]
pub struct FloatValue {
    pub truncated: i64,
    pub decimal: Option<Decimal>,
}

/// The value of a parameter.
#[derive(Debug)]
pub enum ParameterValue {
    Integer(i64),
    Float(FloatValue),
    Decimal(Decimal),
    Boolean(bool),
    String(String),
}

impl Clone for ParameterValue {
    fn clone(&self) -> (r: Self)
        ensures
            r == *self,
    {
        match self {
            ParameterValue::Integer(v) => ParameterValue::Integer(*v),
            ParameterValue::Float(v) => ParameterValue::Float(*v),
            ParameterValue::Decimal(v) => ParameterValue::Decimal(*v),
            ParameterValue::Boolean(v) => ParameterValue::Boolean(*v),
            ParameterValue::String(v) => ParameterValue::String(v.clone()),
        }
    }
}

impl ParameterValue {
    pub open spec fn spec_as_i64(&self) -> Option<i64> {
        match *self {
            ParameterValue::Integer(v) => Some(v),
            ParameterValue::Float(v) => Some(v.truncated),
            _ => None,
        }
    }

    /// The value as a whole number: an integer itself, a float truncated.
    #[verifier::when_used_as_spec(spec_as_i64)]
    pub fn as_i64(&self) -> (r: Option<i64>)
        ensures
            r == self.spec_as_i64(),
    {
        match self {
            ParameterValue::Integer(v) => Some(*v),
            ParameterValue::Float(v) => Some(v.truncated),
            _ => None,
        }
    }

    pub open spec fn spec_as_decimal(&self) -> Option<Decimal> {
        match *self {
            ParameterValue::Decimal(v) => Some(v),
            ParameterValue::Float(v) => v.decimal,
            ParameterValue::Integer(v) => Some(Decimal::of(v as int, 0)),
            _ => None,
        }
    }

    /// The value as a decimal: a decimal itself, a float or an integer
    /// converted.
    #[verifier::when_used_as_spec(spec_as_decimal)]
    pub fn as_decimal(&self) -> (r: Option<Decimal>)
        ensures
            r == self.spec_as_decimal(),
    {
        match self {
            ParameterValue::Decimal(v) => Some(*v),
            ParameterValue::Float(v) => v.decimal,
            ParameterValue::Integer(v) => Some(Decimal::from_i64(*v)),
            _ => None,
        }
    }

    pub open spec fn spec_as_bool(&self) -> Option<bool> {
        match *self {
            ParameterValue::Boolean(v) => Some(v),
            _ => None,
        }
    }

    #[verifier::when_used_as_spec(spec_as_bool)]
    pub fn as_bool(&self) -> (r: Option<bool>)
        ensures
            r == self.spec_as_bool(),
    {
        match self {
            ParameterValue::Boolean(v) => Some(*v),
            _ => None,
        }
    }

    pub fn as_str(&self) -> (r: Option<&str>)
        ensures
            match (r, *self) {
                (Some(s), ParameterValue::String(v)) => s@ == v@,
                (None, ParameterValue::String(_)) => false,
                (Some(_), _) => false,
                (None, _) => true,
            },
    {
        match self {
            ParameterValue::String(v) => Some(v.as_str()),
            _ => None,
        }
    }
}

} // verus!
