//! The strategies that come with the library.

pub mod mean_reversion;
pub mod momentum;
pub mod spread;

pub use mean_reversion::MeanReversionStrategy;
pub use momentum::MomentumStrategy;
pub use spread::SpreadStrategy;

use vstd::prelude::*;
use crate::collections::{TextMap, lookup};
use crate::decimal::{Decimal, decimal_fixed_text, decimal_product};
use crate::strategy::signal::SignalView;
use crate::strategy::traits::{FloatValue, ParameterDef, ParameterType, ParameterValue};

verus! {

/// Whether `signal` stands at the place `a` among `signals` and is the
/// only one of them for its market.
pub open spec fn only_at(signals: Seq<SignalView>, signal: SignalView, a: int) -> bool {
    &&& 0 <= a < signals.len()
    &&& signals[a] == signal
    &&& forall|b: int|
        0 <= b < signals.len() && (#[trigger] signals[b]).market_id == signal.market_id ==> b == a
}

/// `value * 100` with two fractional digits, as it is written into the
/// reason of a signal.
pub open spec fn percent_text(value: Decimal) -> Option<Seq<char>> {
    match decimal_product(value, Decimal::of(100, 0)) {
        Some(p) => Some(decimal_fixed_text(p, 2)),
        None => None,
    }
}

/// `value * 100` with two fractional digits.
pub fn percent_to_text(value: Decimal) -> (r: Option<String>)
    ensures
        match r {
            Some(t) => percent_text(value) == Some(t@),
            None => percent_text(value) is None,
        },
{
    match value.checked_mul(Decimal::one_hundred()) {
        Some(p) => Some(p.to_fixed(2)),
        None => None,
    }
}

/// A float parameter value that stands for the given decimal.
pub open spec fn float_of(truncated: i64, mantissa: int, scale: int) -> ParameterValue {
    ParameterValue::Float(FloatValue { truncated, decimal: Some(Decimal::of(mantissa, scale)) })
}

/// A float parameter value that stands for `mantissa / 10^scale`.
pub fn float_value(truncated: i64, mantissa: i64, scale: u32) -> (r: ParameterValue)
    requires
        scale <= crate::decimal::MAX_SCALE,
    ensures
        r == float_of(truncated, mantissa as int, scale as int),
{
    ParameterValue::Float(FloatValue { truncated, decimal: Some(Decimal::new(mantissa, scale)) })
}

/// Whether `def` declares a parameter with these properties and without a
/// list of allowed values.
pub open spec fn declares(
    def: ParameterDef,
    name: Seq<char>,
    description: Seq<char>,
    param_type: ParameterType,
    default: ParameterValue,
    min: ParameterValue,
    max: ParameterValue,
) -> bool {
    &&& def.name@ == name
    &&& def.description@ == description
    &&& def.param_type == param_type
    &&& def.default == default
    &&& def.min == Some(min)
    &&& def.max == Some(max)
    &&& def.allowed_values is None
}

/// The declaration of a parameter with a range.
pub fn declare(
    name: &str,
    description: &str,
    param_type: ParameterType,
    default: ParameterValue,
    min: ParameterValue,
    max: ParameterValue,
) -> (r: ParameterDef)
    ensures
        declares(r, name@, description@, param_type, default, min, max),
{
    ParameterDef {
        name: name.to_owned(),
        description: description.to_owned(),
        param_type,
        default,
        min: Some(min),
        max: Some(max),
        allowed_values: None,
    }
}

/// A whole-number parameter as a configuration gives it: the current value
/// where the configuration does not name it, the named integer where that
/// lies in the range, nothing where it does not or is no integer.
pub open spec fn configured_count(
    configured: Option<ParameterValue>,
    current: usize,
    min: usize,
    max: usize,
) -> Option<usize> {
    match configured {
        None => Some(current),
        Some(ParameterValue::Integer(v)) => if min <= v <= max {
            Some(v as usize)
        } else {
            None
        },
        Some(_) => None,
    }
}

/// A decimal parameter as a configuration gives it: the current value where
/// the configuration does not name it, the named number where that lies in
/// the range, nothing where it does not or is no number.
pub open spec fn configured_decimal(
    configured: Option<ParameterValue>,
    current: Decimal,
    min: Decimal,
    max: Decimal,
) -> Option<Decimal> {
    match configured {
        None => Some(current),
        Some(v) => match v.as_decimal() {
            Some(d) => if d.ge(min) && d.le(max) {
                Some(d)
            } else {
                None
            },
            None => None,
        },
    }
}

/// Reads a whole-number parameter from a configuration.
pub fn read_count(parameters: &TextMap<ParameterValue>, name: &str, current: usize, min: usize, max: usize) -> (r:
    Option<usize>)
    requires
        max <= i64::MAX,
    ensures
        r == configured_count(lookup(parameters@, name@), current, min, max),
{
    match parameters.get(name) {
        None => Some(current),
        Some(ParameterValue::Integer(v)) => if *v >= 0 && min as u64 <= *v as u64 && *v as u64
            <= max as u64 {
            Some(*v as usize)
        } else {
            None
        },
        Some(_) => None,
    }
}

/// Reads a decimal parameter from a configuration.
pub fn read_decimal(
    parameters: &TextMap<ParameterValue>,
    name: &str,
    current: Decimal,
    min: Decimal,
    max: Decimal,
) -> (r: Option<Decimal>)
    ensures
        r == configured_decimal(lookup(parameters@, name@), current, min, max),
{
    match parameters.get(name) {
        None => Some(current),
        Some(v) => match v.as_decimal() {
            Some(d) => if d.is_ge(min) && d.is_le(max) {
                Some(d)
            } else {
                None
            },
            None => None,
        },
    }
}

/// A whole-number parameter set by hand: an integer or a truncated float
/// that is not negative.
pub open spec fn count_of(value: ParameterValue) -> Option<usize> {
    match value.as_i64() {
        Some(v) => if 0 <= v <= usize::MAX {
            Some(v as usize)
        } else {
            None
        },
        None => None,
    }
}

/// Reads a whole-number parameter set by hand.
pub fn to_count(value: &ParameterValue) -> (r: Option<usize>)
    ensures
        r == count_of(*value),
{
    match value.as_i64() {
        Some(v) => if v >= 0 && v as u64 <= usize::MAX as u64 {
            Some(v as usize)
        } else {
            None
        },
        None => None,
    }
}

} // verus!
