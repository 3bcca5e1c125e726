//! The rows of the three tables, and the tabs above them.

use vstd::prelude::*;
use vstd::string::StringExecFns;
use vstd::utf8::encode_utf8;
use crate::decimal::{Decimal, decimal_fixed_text, decimal_product};
use crate::state::order_state::fill_percent_of;
use crate::state::{
    Market, MarketStatus, Order, OrderSide, OrderStatus, Outcome, PortfolioState, Position,
    Screen,
};
use crate::text::{clip, cut_point, unsigned_text, unsigned_to_text};

verus! {

/// A price in cents with two fractional digits, such as `52.00¢`.
pub open spec fn cents_text(price: Decimal) -> Option<Seq<char>> {
    match decimal_product(price, Decimal::of(100, 0)) {
        Some(c) => Some(decimal_fixed_text(c, 2) + "¢"@),
        None => None,
    }
}

/// A price in cents with two fractional digits; nothing where the price
/// times a hundred leaves the range.
pub fn cents(price: Decimal) -> (r: Option<String>)
    ensures
        match r {
            Some(t) => cents_text(price) == Some(t@),
            None => cents_text(price) is None,
        },
{
    match price.checked_mul(Decimal::one_hundred()) {
        Some(c) => Some(c.to_fixed(2).concat("¢")),
        None => None,
    }
}

/// The text of `value`, or `fallback` where there is none.
pub open spec fn or_text(value: Option<Seq<char>>, fallback: Seq<char>) -> Seq<char> {
    match value {
        Some(t) => t,
        None => fallback,
    }
}

/// The mid price of an outcome in cents; empty where it has none.
pub open spec fn outcome_text(outcome: Outcome) -> Seq<char> {
    match outcome.spec_mid_price() {
        Some(mid) => or_text(cents_text(mid), Seq::empty()),
        None => Seq::empty(),
    }
}

fn outcome_cell(outcome: &Outcome) -> (r: String)
    ensures
        r@ == outcome_text(*outcome),
{
    match outcome.mid_price() {
        Some(mid) => match cents(mid) {
            Some(t) => t,
            None => String::new(),
        },
        None => String::new(),
    }
}

/// Whether `text` is `full` clipped to `max_len` bytes.
pub open spec fn clipped(text: Seq<char>, full: Seq<char>, max_len: usize) -> bool {
    if encode_utf8(full).len() <= max_len {
        text == full
    } else {
        exists|head: Seq<char>|
            encode_utf8(head) == encode_utf8(full).subrange(0, cut_point(encode_utf8(full), max_len))
                && text == #[trigger] (head + "..."@)
    }
}

/// A row of the table of markets.
#[derive(Debug)]
pub struct MarketRow {
    /// The question, clipped to 50 bytes.
    pub question: String,
    pub status: MarketStatus,
    /// The price of the first outcome in cents.
    pub yes_price: String,
    /// The price of the second outcome in cents.
    pub no_price: String,
    /// The volume in whole dollars.
    pub volume: String,
}

impl MarketRow {
    /// Whether this is the row of `market`.
    pub open spec fn shows(&self, market: Market) -> bool {
        &&& clipped(self.question@, market.question@, 50)
        &&& self.status == market.status
        &&& self.yes_price@ == if market.outcomes@.len() > 0 {
            outcome_text(market.outcomes@[0])
        } else {
            Seq::empty()
        }
        &&& self.no_price@ == if market.outcomes@.len() > 1 {
            outcome_text(market.outcomes@[1])
        } else {
            Seq::empty()
        }
        &&& self.volume@ == "$"@ + decimal_fixed_text(market.volume, 0)
    }

    /// The row of `market`.
    pub fn of(market: &Market) -> (r: Self)
        ensures
            r.shows(*market),
    {
        MarketRow {
            question: clip(market.question.as_str(), 50),
            status: market.status,
            yes_price: if market.outcomes.len() > 0 {
                outcome_cell(&market.outcomes[0])
            } else {
                String::new()
            },
            no_price: if market.outcomes.len() > 1 {
                outcome_cell(&market.outcomes[1])
            } else {
                String::new()
            },
            volume: "$".to_owned().concat(market.volume.to_fixed(0).as_str()),
        }
    }
}

/// A row of the table of orders.
#[derive(Debug)]
pub struct OrderRow {
    /// The market's question, clipped to 30 bytes.
    pub market: String,
    pub side: OrderSide,
    /// The price in cents.
    pub price: String,
    pub size: String,
    /// How much is filled, in percent with one fractional digit.
    pub filled: String,
    pub status: OrderStatus,
}

impl OrderRow {
    /// Whether this is the row of `order`.
    pub open spec fn shows(&self, order: Order) -> bool {
        &&& clipped(self.market@, order.market_question@, 30)
        &&& self.side == order.side
        &&& self.price@ == or_text(cents_text(order.price), Seq::empty())
        &&& self.size@ == decimal_fixed_text(order.original_size, 2)
        &&& self.filled@ == match fill_percent_of(order.filled_size, order.original_size) {
            Some(p) => decimal_fixed_text(p, 1) + "%"@,
            None => Seq::empty(),
        }
        &&& self.status == order.status
    }

    /// The row of `order`.
    pub fn of(order: &Order) -> (r: Self)
        ensures
            r.shows(*order),
    {
        OrderRow {
            market: clip(order.market_question.as_str(), 30),
            side: order.side,
            price: match cents(order.price) {
                Some(t) => t,
                None => String::new(),
            },
            size: order.original_size.to_fixed(2),
            filled: match order.fill_percent() {
                Some(p) => p.to_fixed(1).concat("%"),
                None => String::new(),
            },
            status: order.status,
        }
    }
}

/// The sign written before a profit: a plus for a profit that is not below
/// zero, nothing for a loss, which brings its own sign.
pub open spec fn sign_text(pnl: Decimal) -> Seq<char> {
    if pnl.ge(Decimal::of(0, 0)) {
        "+"@
    } else {
        Seq::empty()
    }
}

/// A row of the table of positions.
#[derive(Debug)]
pub struct PositionRow {
    /// The market's question, clipped to 25 bytes.
    pub market: String,
    pub outcome: String,
    pub size: String,
    /// The average price in cents.
    pub avg_price: String,
    /// The current price in cents.
    pub current_price: String,
    /// The unrealized profit in dollars, with its sign.
    pub pnl: String,
    /// The unrealized profit in percent, with its sign.
    pub pnl_percent: String,
    /// Whether the unrealized profit is not below zero.
    pub gaining: bool,
}

impl PositionRow {
    /// Whether this is the row of `position`.
    pub open spec fn shows(&self, position: Position) -> bool {
        &&& clipped(self.market@, position.market_question@, 25)
        &&& self.outcome@ == position.outcome_name@
        &&& self.size@ == decimal_fixed_text(position.size, 2)
        &&& self.avg_price@ == or_text(cents_text(position.avg_price), Seq::empty())
        &&& self.current_price@ == or_text(cents_text(position.current_price), Seq::empty())
        &&& self.pnl@ == sign_text(position.unrealized_pnl) + "$"@ + decimal_fixed_text(
            position.unrealized_pnl,
            2,
        )
        &&& self.pnl_percent@ == sign_text(position.unrealized_pnl) + decimal_fixed_text(
            position.unrealized_pnl_percent,
            1,
        ) + "%"@
        &&& self.gaining == position.unrealized_pnl.ge(Decimal::of(0, 0))
    }

    /// The row of `position`.
    pub fn of(position: &Position) -> (r: Self)
        ensures
            r.shows(*position),
    {
        let gaining = position.unrealized_pnl.is_ge(Decimal::zero());
        let sign = if gaining {
            "+"
        } else {
            ""
        };
        proof {
            reveal_strlit("");
            assert(""@ =~= Seq::<char>::empty());
        }
        PositionRow {
            market: clip(position.market_question.as_str(), 25),
            outcome: position.outcome_name.clone(),
            size: position.size.to_fixed(2),
            avg_price: match cents(position.avg_price) {
                Some(t) => t,
                None => String::new(),
            },
            current_price: match cents(position.current_price) {
                Some(t) => t,
                None => String::new(),
            },
            pnl: sign.to_owned().concat("$").concat(position.unrealized_pnl.to_fixed(2).as_str()),
            pnl_percent: sign.to_owned().concat(
                position.unrealized_pnl_percent.to_fixed(1).as_str(),
            ).concat("%"),
            gaining,
        }
    }
}

/// The title of the table of positions.
pub open spec fn positions_title_text(portfolio: PortfolioState) -> Seq<char> {
    " Positions ("@ + unsigned_text(portfolio.positions@.len()) + ") | Value: $"@
        + decimal_fixed_text(portfolio.total_value, 2) + " | P&L: $"@ + decimal_fixed_text(
        portfolio.total_unrealized_pnl,
        2,
    ) + " "@
}

/// The title of the table of positions: their number, the value of the
/// portfolio and its unrealized profit.
pub fn positions_title(portfolio: &PortfolioState) -> (r: String)
    ensures
        r@ == positions_title_text(*portfolio),
{
    " Positions (".to_owned().concat(
        unsigned_to_text(portfolio.positions.len() as u64).as_str(),
    ).concat(") | Value: $").concat(portfolio.total_value.to_fixed(2).as_str()).concat(
        " | P&L: $",
    ).concat(portfolio.total_unrealized_pnl.to_fixed(2).as_str()).concat(" ")
}

/// The title of the table of markets: how many are loaded.
pub fn markets_title(count: usize) -> (r: String)
    ensures
        r@ == " Markets ("@ + unsigned_text(count as nat) + ") "@,
{
    " Markets (".to_owned().concat(unsigned_to_text(count as u64).as_str()).concat(") ")
}

/// The title of the table of orders: how many can still be filled.
pub fn orders_title(open: usize) -> (r: String)
    ensures
        r@ == " Orders ("@ + unsigned_text(open as nat) + " open) "@,
{
    " Orders (".to_owned().concat(unsigned_to_text(open as u64).as_str()).concat(" open) ")
}

/// One tab of the tab bar.
#[derive(Debug, Clone, Copy)]
pub struct Tab {
    pub key: &'static str,
    pub name: &'static str,
    pub screen: Screen,
    /// Whether this is the tab of the view shown.
    pub selected: bool,
}

/// The four tabs, the one of the view `current` selected.
pub fn tabs(current: Screen) -> (r: Vec<Tab>)
    ensures
        r@.len() == 4,
        r@[0].key@ == "1"@ && r@[0].name@ == "Markets"@ && r@[0].screen == Screen::Markets,
        r@[1].key@ == "2"@ && r@[1].name@ == "Orders"@ && r@[1].screen == Screen::Orders,
        r@[2].key@ == "3"@ && r@[2].name@ == "Positions"@ && r@[2].screen == Screen::Positions,
        r@[3].key@ == "4"@ && r@[3].name@ == "Settings"@ && r@[3].screen == Screen::Settings,
        forall|i: int| 0 <= i < 4 ==> (#[trigger] r@[i]).selected == (r@[i].screen == current),
{
    let mut out: Vec<Tab> = Vec::new();
    out.push(Tab { key: "1", name: "Markets", screen: Screen::Markets, selected: current == Screen::Markets });
    out.push(Tab { key: "2", name: "Orders", screen: Screen::Orders, selected: current == Screen::Orders });
    out.push(
        Tab {
            key: "3",
            name: "Positions",
            screen: Screen::Positions,
            selected: current == Screen::Positions,
        },
    );
    out.push(
        Tab { key: "4", name: "Settings", screen: Screen::Settings, selected: current == Screen::Settings },
    );
    out
}

} // verus!
