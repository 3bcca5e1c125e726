//! From the exchange's words to the application's.

use vstd::prelude::*;
use crate::state::{MarketStatus, OrderStatus};
use crate::text::{str_eq, to_uppercase, uppercase_text};

verus! {

/// Converts what the exchange reports.
#[derive(Debug)]
pub struct DataConverter;

/// The status of an order that the exchange reports as `upper`, a word in
/// upper case.
pub open spec fn order_status_of(upper: Seq<char>) -> OrderStatus {
    if upper == "LIVE"@ || upper == "OPEN"@ {
        OrderStatus::Open
    } else if upper == "MATCHED"@ || upper == "FILLED"@ {
        OrderStatus::Filled
    } else if upper == "CANCELLED"@ || upper == "CANCELED"@ {
        OrderStatus::Cancelled
    } else if upper == "EXPIRED"@ {
        OrderStatus::Expired
    } else {
        OrderStatus::Pending
    }
}

impl DataConverter {
    /// The status of a market: closed where the exchange says so, else
    /// active where it says so, else paused.
    pub fn convert_market_status(active: bool, closed: bool) -> (r: MarketStatus)
        ensures
            r == if closed {
                MarketStatus::Closed
            } else if active {
                MarketStatus::Active
            } else {
                MarketStatus::Paused
            },
    {
        if closed {
            MarketStatus::Closed
        } else if active {
            MarketStatus::Active
        } else {
            MarketStatus::Paused
        }
    }

    /// The status of an order from the exchange's word for it, whatever its
    /// case; pending for a word that is not known.
    pub fn convert_order_status(status: &str) -> (r: OrderStatus)
        ensures
            r == order_status_of(uppercase_text(status@)),
    {
        let upper = to_uppercase(status);
        Self::status_of_upper(upper.as_str())
    }

    /// The status of an order from the exchange's word for it in upper case.
    pub fn status_of_upper(upper: &str) -> (r: OrderStatus)
        ensures
            r == order_status_of(upper@),
    {
        if str_eq(upper, "LIVE") || str_eq(upper, "OPEN") {
            OrderStatus::Open
        } else if str_eq(upper, "MATCHED") || str_eq(upper, "FILLED") {
            OrderStatus::Filled
        } else if str_eq(upper, "CANCELLED") || str_eq(upper, "CANCELED") {
            OrderStatus::Cancelled
        } else if str_eq(upper, "EXPIRED") {
            OrderStatus::Expired
        } else {
            OrderStatus::Pending
        }
    }
}

} // verus!
