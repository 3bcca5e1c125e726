//! Orders.

use vstd::prelude::*;
use crate::clock::Timestamp;
use crate::decimal::{Decimal, decimal_product};
use crate::state::orderbook_state::percent_of;
use crate::state::{OrderSide, OrderType};

verus! {

/// Where an order stands in its life.
#[derive(Debug, Clone, Copy, PartialEq, Eq, Structural)]
pub enum OrderStatus {
    Pending,
    Open,
    PartiallyFilled,
    Filled,
    Cancelled,
    Expired,
    Failed,
}

impl Default for OrderStatus {
    fn default() -> (r: Self)
        ensures
            r == OrderStatus::Pending,
    {
        OrderStatus::Pending
    }
}

impl OrderStatus {
    /// Whether an order in this status can still be filled.
    pub open spec fn spec_is_active(&self) -> bool {
        *self == OrderStatus::Open || *self == OrderStatus::PartiallyFilled
    }

    /// Whether an order in this status can still be filled.
    #[verifier::when_used_as_spec(spec_is_active)]
    pub fn is_active(&self) -> (r: bool)
        ensures
            r == self.spec_is_active(),
    {
        match self {
            OrderStatus::Open | OrderStatus::PartiallyFilled => true,
            _ => false,
        }
    }

    /// Whether an order in this status has come to its end.
    pub open spec fn spec_is_complete(&self) -> bool {
        *self == OrderStatus::Filled || *self == OrderStatus::Cancelled || *self
            == OrderStatus::Expired || *self == OrderStatus::Failed
    }

    /// Whether an order in this status has come to its end.
    #[verifier::when_used_as_spec(spec_is_complete)]
    pub fn is_complete(&self) -> (r: bool)
        ensures
            r == self.spec_is_complete(),
    {
        match self {
            OrderStatus::Filled | OrderStatus::Cancelled | OrderStatus::Expired | OrderStatus::Failed => true,
            _ => false,
        }
    }

    /// The status as text.
    pub fn label(&self) -> (r: &'static str)
        ensures
            r@ == match *self {
                OrderStatus::Pending => "Pending"@,
                OrderStatus::Open => "Open"@,
                OrderStatus::PartiallyFilled => "Partial"@,
                OrderStatus::Filled => "Filled"@,
                OrderStatus::Cancelled => "Cancelled"@,
                OrderStatus::Expired => "Expired"@,
                OrderStatus::Failed => "Failed"@,
            },
    {
        match self {
            OrderStatus::Pending => "Pending",
            OrderStatus::Open => "Open",
            OrderStatus::PartiallyFilled => "Partial",
            OrderStatus::Filled => "Filled",
            OrderStatus::Cancelled => "Cancelled",
            OrderStatus::Expired => "Expired",
            OrderStatus::Failed => "Failed",
        }
    }
}

/// `filled / whole * 100`, zero for an order of no size.
pub open spec fn fill_percent_of(filled: Decimal, whole: Decimal) -> Option<Decimal> {
    if whole.is_zero() {
        Some(Decimal::of(0, 0))
    } else {
        percent_of(filled, whole)
    }
}

/// `filled / whole * 100`, zero for an order of no size.
pub(crate) fn fill_percent(filled: Decimal, whole: Decimal) -> (r: Option<Decimal>)
    ensures
        r == fill_percent_of(filled, whole),
{
    if whole.is_zero() {
        Some(Decimal::zero())
    } else {
        match filled.checked_div(whole) {
            Some(q) => q.checked_mul(Decimal::one_hundred()),
            None => None,
        }
    }
}

/// An order at the exchange.
#[derive(Debug, Clone)]
pub struct Order {
    pub id: String,
    pub market_id: String,
    pub market_question: String,
    pub token_id: String,
    pub outcome_name: String,
    pub side: OrderSide,
    pub order_type: OrderType,
    pub price: Decimal,
    pub original_size: Decimal,
    pub remaining_size: Decimal,
    pub filled_size: Decimal,
    pub status: OrderStatus,
    pub created_at: Timestamp,
    pub updated_at: Timestamp,
    pub expires_at: Option<Timestamp>,
}

impl Order {
    /// How much of the order is filled, in percent.
    pub fn fill_percent(&self) -> (r: Option<Decimal>)
        ensures
            r == fill_percent_of(self.filled_size, self.original_size),
    {
        fill_percent(self.filled_size, self.original_size)
    }

    /// Whether the order can still be filled.
    pub fn is_active(&self) -> (r: bool)
        ensures
            r == self.status.is_active(),
    {
        self.status.is_active()
    }

    /// Whether the order has come to its end.
    pub fn is_complete(&self) -> (r: bool)
        ensures
            r == self.status.is_complete(),
    {
        self.status.is_complete()
    }

    /// Whether the order can be cancelled: it is active.
    pub fn can_cancel(&self) -> (r: bool)
        ensures
            r == self.status.is_active(),
    {
        self.is_active()
    }

    /// `price * original_size`.
    pub fn total_value(&self) -> (r: Option<Decimal>)
        ensures
            r == decimal_product(self.price, self.original_size),
    {
        self.price.checked_mul(self.original_size)
    }

    /// `price * filled_size`.
    pub fn filled_value(&self) -> (r: Option<Decimal>)
        ensures
            r == decimal_product(self.price, self.filled_size),
    {
        self.price.checked_mul(self.filled_size)
    }
}

/// The orders that are loaded, and what of them is shown.
#[derive(Debug)]
pub struct OrderState {
    pub orders: Vec<Order>,
    pub selected_index: Option<usize>,
    pub status_filter: Option<OrderStatus>,
    pub loading: bool,
    pub last_updated: Option<Timestamp>,
    pub scroll_offset: usize,
}

impl Default for OrderState {
    fn default() -> (r: Self)
        ensures
            r.orders@.len() == 0,
            r.selected_index is None,
            r.status_filter is None,
            !r.loading,
            r.last_updated is None,
            r.scroll_offset == 0,
    {
        OrderState {
            orders: Vec::new(),
            selected_index: None,
            status_filter: None,
            loading: false,
            last_updated: None,
            scroll_offset: 0,
        }
    }
}

fn pick_orders(orders: &Vec<Order>, which: u8, status: OrderStatus) -> (r: Vec<&Order>)
    requires
        which <= 4,
    ensures
        r@.map_values(|o: &Order| *o) == orders@.filter(|o: Order| order_picked(o, which, status)),
{
    let ghost all = orders@;
    let ghost pred = |o: Order| order_picked(o, which, status);
    let mut out: Vec<&Order> = Vec::new();
    let mut i: usize = 0;
    proof {
        assert(all.take(0) =~= Seq::<Order>::empty());
        assert(out@.map_values(|o: &Order| *o) =~= all.take(0).filter(pred));
    }
    while i < orders.len()
        invariant
            i <= orders@.len(),
            all == orders@,
            pred == (|o: Order| order_picked(o, which, status)),
            out@.map_values(|o: &Order| *o) == all.take(i as int).filter(pred),
        decreases orders@.len() - i,
    {
        let o = &orders[i];
        proof {
            assert(all.take(i + 1).drop_last() =~= all.take(i as int));
            assert(all.take(i + 1).last() == *o);
            reveal(Seq::filter);
        }
        let ghost before = out@;
        let picked = if which == 0 {
            true
        } else if which == 1 {
            o.status.is_active()
        } else if which == 2 {
            o.status.is_complete()
        } else {
            o.status == status
        };
        if picked {
            out.push(o);
            proof {
                assert(out@.map_values(|o: &Order| *o) =~= before.map_values(|o: &Order| *o).push(*o));
            }
        }
        i += 1;
    }
    proof {
        assert(all.take(all.len() as int) =~= all);
    }
    out
}

/// Whether an order is among those asked for: all orders (`which` 0), the
/// active ones (1), the complete ones (2), or those of the given status.
pub open spec fn order_picked(order: Order, which: u8, status: OrderStatus) -> bool {
    if which == 0 {
        true
    } else if which == 1 {
        order.status.is_active()
    } else if which == 2 {
        order.status.is_complete()
    } else {
        order.status == status
    }
}

impl OrderState {
    /// The selected order.
    pub fn selected_order(&self) -> (r: Option<&Order>)
        ensures
            match (self.selected_index, r) {
                (Some(i), Some(o)) => i < self.orders@.len() && *o == self.orders@[i as int],
                (Some(i), None) => i >= self.orders@.len(),
                (None, Some(_)) => false,
                (None, None) => true,
            },
    {
        match self.selected_index {
            Some(i) => if i < self.orders.len() {
                Some(&self.orders[i])
            } else {
                None
            },
            None => None,
        }
    }

    /// The orders that can still be filled, in order.
    pub fn open_orders(&self) -> (r: Vec<&Order>)
        ensures
            r@.map_values(|o: &Order| *o) == self.orders@.filter(
                |o: Order| order_picked(o, 1, OrderStatus::Open),
            ),
    {
        pick_orders(&self.orders, 1, OrderStatus::Open)
    }

    /// The filled orders, in order.
    pub fn filled_orders(&self) -> (r: Vec<&Order>)
        ensures
            r@.map_values(|o: &Order| *o) == self.orders@.filter(
                |o: Order| order_picked(o, 3, OrderStatus::Filled),
            ),
    {
        pick_orders(&self.orders, 3, OrderStatus::Filled)
    }

    /// The orders that have come to their end, in order.
    pub fn order_history(&self) -> (r: Vec<&Order>)
        ensures
            r@.map_values(|o: &Order| *o) == self.orders@.filter(
                |o: Order| order_picked(o, 2, OrderStatus::Open),
            ),
    {
        pick_orders(&self.orders, 2, OrderStatus::Open)
    }

    /// The orders of the status that the filter asks for; all orders where
    /// there is no filter.
    pub fn filtered_orders(&self) -> (r: Vec<&Order>)
        ensures
            r@.map_values(|o: &Order| *o) == match self.status_filter {
                Some(status) => self.orders@.filter(|o: Order| order_picked(o, 3, status)),
                None => self.orders@.filter(|o: Order| order_picked(o, 0, OrderStatus::Open)),
            },
    {
        match self.status_filter {
            Some(status) => pick_orders(&self.orders, 3, status),
            None => pick_orders(&self.orders, 0, OrderStatus::Open),
        }
    }

    /// How many orders can still be filled.
    pub fn open_count(&self) -> (r: usize)
        ensures
            r == self.orders@.filter(|o: Order| order_picked(o, 1, OrderStatus::Open)).len(),
    {
        let open = self.open_orders();
        proof {
            assert(open@.len() == open@.map_values(|o: &Order| *o).len());
        }
        open.len()
    }
}

} // verus!
