//! The figures and the ladders of an order book, as text.

use vstd::prelude::*;
use vstd::string::StringExecFns;
use crate::decimal::{
    Decimal, decimal_fixed_text, decimal_product, decimal_text, fixed_or_plain, quotient,
};
use crate::state::orderbook_state::{best_price, depth_len, volume};
use crate::state::{OrderBookDepth, PriceLevel};
use crate::text::{parse_u64, parsed_u64};
use crate::ui::tables::{cents, cents_text, or_text};

verus! {

/// Which side weighs more in a book.
#[derive(Debug, Clone, Copy, PartialEq, Eq, Structural)]
pub enum Tendency {
    Buy,
    Sell,
    Neutral,
    /// There is no imbalance to speak of.
    Unknown,
}

/// The tendency that an imbalance shows.
pub open spec fn tendency_of(imbalance: Option<Decimal>) -> Tendency {
    match imbalance {
        Some(i) => if i.gt(Decimal::of(0, 0)) {
            Tendency::Buy
        } else if i.lt(Decimal::of(0, 0)) {
            Tendency::Sell
        } else {
            Tendency::Neutral
        },
        None => Tendency::Unknown,
    }
}

/// An imbalance in percent with its tendency, such as `+20.0% BUY`.
pub open spec fn imbalance_text(imbalance: Option<Decimal>) -> Seq<char> {
    match imbalance {
        Some(i) => match decimal_product(i, Decimal::of(100, 0)) {
            Some(pct) => if i.gt(Decimal::of(0, 0)) {
                "+"@ + decimal_fixed_text(pct, 1) + "% BUY"@
            } else if i.lt(Decimal::of(0, 0)) {
                decimal_fixed_text(pct, 1) + "% SELL"@
            } else {
                "0% NEUTRAL"@
            },
            None => "-"@,
        },
        None => "-"@,
    }
}

/// A price in cents, or a dash.
pub open spec fn cents_or_dash(price: Option<Decimal>) -> Seq<char> {
    match price {
        Some(p) => or_text(cents_text(p), "-"@),
        None => "-"@,
    }
}

/// A percentage with `places` fractional digits, or a dash.
pub open spec fn percent_or_dash(value: Option<Decimal>, places: usize) -> Seq<char> {
    match value {
        Some(v) => fixed_or_plain(v, places) + "%"@,
        None => "-"@,
    }
}

fn cents_cell(price: Option<Decimal>) -> (r: String)
    ensures
        r@ == cents_or_dash(price),
{
    match price {
        Some(p) => match cents(p) {
            Some(t) => t,
            None => "-".to_owned(),
        },
        None => "-".to_owned(),
    }
}

fn percent_cell(value: Option<Decimal>, places: usize) -> (r: String)
    ensures
        r@ == percent_or_dash(value, places),
{
    match value {
        Some(v) => v.to_fixed_or_plain(places).concat("%"),
        None => "-".to_owned(),
    }
}

/// The figures above the ladders.
#[derive(Debug)]
pub struct BookStats {
    pub best_bid: String,
    pub best_ask: String,
    pub mid: String,
    pub spread: String,
    pub spread_percent: String,
    pub imbalance: String,
    pub tendency: Tendency,
    pub bid_depth: usize,
    pub ask_depth: usize,
}

impl BookStats {
    /// Whether these are the figures of `book` over its first `depth`
    /// levels.
    pub open spec fn shows(&self, book: &OrderBookDepth, depth: usize) -> bool {
        &&& self.best_bid@ == cents_or_dash(best_price(book.bids@))
        &&& self.best_ask@ == cents_or_dash(best_price(book.asks@))
        &&& self.mid@ == cents_or_dash(book.spec_mid_price())
        &&& self.spread@ == cents_or_dash(book.spec_spread())
        &&& self.spread_percent@ == percent_or_dash(book.spec_spread_percent(), 2)
        &&& self.imbalance@ == imbalance_text(book.spec_imbalance(depth))
        &&& self.tendency == tendency_of(book.spec_imbalance(depth))
        &&& self.bid_depth == book.bids@.len()
        &&& self.ask_depth == book.asks@.len()
    }

    /// The figures of `book` over its first `depth` levels.
    pub fn of(book: &OrderBookDepth, depth: usize) -> (r: Self)
        ensures
            r.shows(book, depth),
    {
        let imbalance = book.imbalance(depth);
        let (text, tendency) = match imbalance {
            Some(i) => {
                let tendency = if i.is_gt(Decimal::zero()) {
                    Tendency::Buy
                } else if i.is_lt(Decimal::zero()) {
                    Tendency::Sell
                } else {
                    Tendency::Neutral
                };
                let text = match i.checked_mul(Decimal::one_hundred()) {
                    Some(pct) => match tendency {
                        Tendency::Buy => "+".to_owned().concat(pct.to_fixed(1).as_str()).concat("% BUY"),
                        Tendency::Sell => pct.to_fixed(1).concat("% SELL"),
                        _ => "0% NEUTRAL".to_owned(),
                    },
                    None => "-".to_owned(),
                };
                (text, tendency)
            },
            None => ("-".to_owned(), Tendency::Unknown),
        };
        BookStats {
            best_bid: cents_cell(book.best_bid_price()),
            best_ask: cents_cell(book.best_ask_price()),
            mid: cents_cell(book.mid_price()),
            spread: cents_cell(book.spread()),
            spread_percent: percent_cell(book.spread_percent(), 2),
            imbalance: text,
            tendency,
            bid_depth: book.bid_depth(),
            ask_depth: book.ask_depth(),
        }
    }

    /// The spread of `book` in percent with `places` fractional digits, or a
    /// dash.
    pub fn spread_percent_text(book: &OrderBookDepth, places: usize) -> (r: String)
        ensures
            r@ == percent_or_dash(book.spec_spread_percent(), places),
    {
        percent_cell(book.spread_percent(), places)
    }

    /// The best prices and the spread in one line, such as
    /// `50.00¢ / 52.00¢ (3.9%)`.
    pub fn spread_line(book: &OrderBookDepth) -> (r: String)
        ensures
            r@ == cents_or_dash(best_price(book.bids@)) + " / "@ + cents_or_dash(
                best_price(book.asks@),
            ) + " ("@ + percent_or_dash(book.spec_spread_percent(), 1) + ")"@,
    {
        cents_cell(book.best_bid_price()).concat(" / ").concat(
            cents_cell(book.best_ask_price()).as_str(),
        ).concat(" (").concat(percent_cell(book.spread_percent(), 1).as_str()).concat(")")
    }
}

/// One level of a ladder as it is shown.
#[derive(Debug)]
pub struct DepthRow {
    /// The price in cents.
    pub price: String,
    pub size: String,
    /// The size of this level and all levels before it.
    pub total: String,
    /// The part of the shown volume that `total` is; nothing where the
    /// volume is zero.
    pub fill: Option<Decimal>,
}

/// The part of `max` that `total` is; nothing where `max` is zero.
pub open spec fn fill_of(total: Decimal, max: Decimal) -> Option<Decimal> {
    quotient(total, max)
}

/// Whether `rows` show the first `depth` levels of `levels`.
pub open spec fn rows_show(rows: Seq<DepthRow>, levels: Seq<PriceLevel>, depth: usize) -> bool {
    &&& rows.len() == depth_len(levels, depth)
    &&& volume(levels, depth_len(levels, depth)) is Some
    &&& forall|i: int|
        0 <= i < rows.len() ==> {
            let total = volume(levels, (i + 1) as nat);
            &&& (#[trigger] rows[i]).price@ == cents_or_dash(Some(levels[i].price))
            &&& rows[i].size@ == decimal_fixed_text(levels[i].size, 2)
            &&& total is Some
            &&& rows[i].total@ == decimal_fixed_text(total->0, 2)
            &&& rows[i].fill == fill_of(total->0, volume(levels, depth_len(levels, depth))->0)
        }
}

/// The first `depth` levels of a ladder, each with its running total and
/// the part of the whole that the total is. There are none where the
/// volume leaves the range.
pub fn depth_rows(levels: &Vec<PriceLevel>, depth: usize) -> (r: Option<Vec<DepthRow>>)
    ensures
        match r {
            Some(rows) => rows_show(rows@, levels@, depth),
            None => volume(levels@, depth_len(levels@, depth)) is None,
        },
{
    let n = if depth < levels.len() {
        depth
    } else {
        levels.len()
    };
    let max = match total_size(levels, n) {
        Some(m) => m,
        None => {
            return None;
        },
    };
    let mut rows: Vec<DepthRow> = Vec::new();
    let mut running = Decimal::zero();
    let mut i: usize = 0;
    while i < n
        invariant
            i <= n <= levels@.len(),
            n == depth_len(levels@, depth),
            volume(levels@, n as nat) == Some(max),
            volume(levels@, i as nat) == Some(running),
            rows@.len() == i,
            forall|k: int|
                0 <= k < i ==> {
                    let total = volume(levels@, (k + 1) as nat);
                    &&& (#[trigger] rows@[k]).price@ == cents_or_dash(Some(levels@[k].price))
                    &&& rows@[k].size@ == decimal_fixed_text(levels@[k].size, 2)
                    &&& total is Some
                    &&& rows@[k].total@ == decimal_fixed_text(total->0, 2)
                    &&& rows@[k].fill == fill_of(total->0, max)
                },
        decreases n - i,
    {
        proof {
            if volume(levels@, (i + 1) as nat) is None {
                crate::state::orderbook_state::lemma_volume_none(levels@, (i + 1) as nat, n as nat);
            }
        }
        let total = match running.checked_add(levels[i].size) {
            Some(t) => t,
            None => {
                return None;
            },
        };
        rows.push(
            DepthRow {
                price: cents_cell(Some(levels[i].price)),
                size: levels[i].size.to_fixed(2),
                total: total.to_fixed(2),
                fill: total.checked_div(max),
            },
        );
        running = total;
        i += 1;
    }
    Some(rows)
}

fn total_size(levels: &Vec<PriceLevel>, n: usize) -> (r: Option<Decimal>)
    requires
        n <= levels@.len(),
    ensures
        r == volume(levels@, n as nat),
{
    let mut acc = Decimal::zero();
    let mut i: usize = 0;
    while i < n
        invariant
            i <= n <= levels@.len(),
            volume(levels@, i as nat) == Some(acc),
        decreases n - i,
    {
        match acc.checked_add(levels[i].size) {
            Some(next) => {
                acc = next;
            },
            None => {
                proof {
                    crate::state::orderbook_state::lemma_volume_none(
                        levels@,
                        (i + 1) as nat,
                        n as nat,
                    );
                }
                return None;
            },
        }
        i += 1;
    }
    Some(acc)
}

/// A level in short: its price in cents and its size with one fractional
/// digit.
pub fn compact_row(level: &PriceLevel) -> (r: (String, String))
    ensures
        r.0@ == cents_or_dash(Some(level.price)),
        r.1@ == decimal_fixed_text(level.size, 1),
{
    (cents_cell(Some(level.price)), level.size.to_fixed(1))
}

/// The label of a bar of the depth chart: the price in whole cents.
pub fn bar_label(price: Decimal) -> (r: String)
    ensures
        r@ == match decimal_product(price, Decimal::of(100, 0)) {
            Some(c) => decimal_fixed_text(c, 0) + "¢"@,
            None => "-"@,
        },
{
    match price.checked_mul(Decimal::one_hundred()) {
        Some(c) => c.to_fixed(0).concat("¢"),
        None => "-".to_owned(),
    }
}

/// The height of a bar of the depth chart: `total / max * 100` where that
/// is written as a whole number, zero where it is not or where there is no
/// such figure.
pub open spec fn bar_height_of(total: Decimal, max: Decimal) -> u64 {
    match quotient(total, max) {
        Some(q) => match decimal_product(q, Decimal::of(100, 0)) {
            Some(p) => match parsed_u64(decimal_text(p)) {
                Some(h) => h,
                None => 0,
            },
            None => 0,
        },
        None => 0,
    }
}

/// The height of a bar of the depth chart.
pub fn bar_height(total: Decimal, max: Decimal) -> (r: u64)
    ensures
        r == bar_height_of(total, max),
{
    match total.checked_div(max) {
        Some(q) => match q.checked_mul(Decimal::one_hundred()) {
            Some(p) => match parse_u64(p.to_string().as_str()) {
                Some(h) => h,
                None => 0,
            },
            None => 0,
        },
        None => 0,
    }
}

} // verus!
