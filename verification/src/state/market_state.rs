//! Markets and their outcomes.

use vstd::prelude::*;
use crate::clock::Timestamp;
use crate::decimal::{Decimal, decimal_difference, quotient, sum};
use crate::state::orderbook_state::percent_of;
use crate::text::{contains_piece, contains_str, lowercase_text, to_lowercase};

verus! {

/// Where a market stands in its life.
#[derive(Debug, Clone, Copy, PartialEq, Eq, Structural)]
pub enum MarketStatus {
    Active,
    Closed,
    Resolved,
    Paused,
}

impl Default for MarketStatus {
    fn default() -> (r: Self)
        ensures
            r == MarketStatus::Active,
    {
        MarketStatus::Active
    }
}

impl MarketStatus {
    /// The status as text.
    pub fn label(&self) -> (r: &'static str)
        ensures
            r@ == match *self {
                MarketStatus::Active => "Active"@,
                MarketStatus::Closed => "Closed"@,
                MarketStatus::Resolved => "Resolved"@,
                MarketStatus::Paused => "Paused"@,
            },
    {
        match self {
            MarketStatus::Active => "Active",
            MarketStatus::Closed => "Closed",
            MarketStatus::Resolved => "Resolved",
            MarketStatus::Paused => "Paused",
        }
    }
}

/// One outcome of a market and its quotes.
#[derive(Debug, Clone)]
pub struct Outcome {
    pub token_id: String,
    pub name: String,
    pub bid: Decimal,
    pub ask: Decimal,
    pub last_price: Decimal,
    pub volume_24h: Decimal,
    pub price_change_24h: Decimal,
}

/// `(bid + ask) / 2`.
pub open spec fn quote_mid(bid: Decimal, ask: Decimal) -> Option<Decimal> {
    match sum(bid, ask) {
        Some(s) => quotient(s, Decimal::of(2, 0)),
        None => None,
    }
}

/// The spread in percent of the mid price, zero where the mid price is
/// zero.
pub open spec fn quote_spread_percent(bid: Decimal, ask: Decimal) -> Option<Decimal> {
    match quote_mid(bid, ask) {
        Some(mid) => if mid.is_zero() {
            Some(Decimal::of(0, 0))
        } else {
            match decimal_difference(ask, bid) {
                Some(spread) => percent_of(spread, mid),
                None => None,
            }
        },
        None => None,
    }
}

fn mid(bid: Decimal, ask: Decimal) -> (r: Option<Decimal>)
    ensures
        r == quote_mid(bid, ask),
{
    match bid.checked_add(ask) {
        Some(s) => s.checked_div(Decimal::two()),
        None => None,
    }
}

impl Outcome {
    pub open spec fn spec_mid_price(&self) -> Option<Decimal> {
        quote_mid(self.bid, self.ask)
    }

    /// The mid price of the two quotes.
    #[verifier::when_used_as_spec(spec_mid_price)]
    pub fn mid_price(&self) -> (r: Option<Decimal>)
        ensures
            r == self.spec_mid_price(),
    {
        mid(self.bid, self.ask)
    }

    pub open spec fn spec_spread(&self) -> Option<Decimal> {
        decimal_difference(self.ask, self.bid)
    }

    /// Ask less bid.
    #[verifier::when_used_as_spec(spec_spread)]
    pub fn spread(&self) -> (r: Option<Decimal>)
        ensures
            r == self.spec_spread(),
    {
        self.ask.checked_sub(self.bid)
    }

    pub open spec fn spec_spread_percent(&self) -> Option<Decimal> {
        quote_spread_percent(self.bid, self.ask)
    }

    /// The spread in percent of the mid price; zero where the mid price is
    /// zero.
    #[verifier::when_used_as_spec(spec_spread_percent)]
    pub fn spread_percent(&self) -> (r: Option<Decimal>)
        ensures
            r == self.spec_spread_percent(),
    {
        let mid = match self.mid_price() {
            Some(m) => m,
            None => {
                return None;
            },
        };
        if mid.is_zero() {
            Some(Decimal::zero())
        } else {
            match self.spread() {
                Some(spread) => match spread.checked_div(mid) {
                    Some(q) => q.checked_mul(Decimal::one_hundred()),
                    None => None,
                },
                None => None,
            }
        }
    }
}

/// A prediction market.
#[derive(Debug, Clone)]
pub struct Market {
    /// The condition id.
    pub id: String,
    pub question: String,
    pub description: String,
    pub status: MarketStatus,
    pub end_date: Option<Timestamp>,
    pub tags: Vec<String>,
    pub outcomes: Vec<Outcome>,
    pub volume: Decimal,
    pub liquidity: Decimal,
    pub image_url: Option<String>,
    pub created_at: Timestamp,
    pub updated_at: Timestamp,
}

impl Market {
    /// The bid of the `outcome_index`-th outcome.
    pub fn best_bid(&self, outcome_index: usize) -> (r: Option<Decimal>)
        ensures
            r == if outcome_index < self.outcomes@.len() {
                Some(self.outcomes@[outcome_index as int].bid)
            } else {
                None
            },
    {
        if outcome_index < self.outcomes.len() {
            Some(self.outcomes[outcome_index].bid)
        } else {
            None
        }
    }

    /// The ask of the `outcome_index`-th outcome.
    pub fn best_ask(&self, outcome_index: usize) -> (r: Option<Decimal>)
        ensures
            r == if outcome_index < self.outcomes@.len() {
                Some(self.outcomes@[outcome_index as int].ask)
            } else {
                None
            },
    {
        if outcome_index < self.outcomes.len() {
            Some(self.outcomes[outcome_index].ask)
        } else {
            None
        }
    }

    /// The mid price of the `outcome_index`-th outcome.
    pub fn mid_price(&self, outcome_index: usize) -> (r: Option<Decimal>)
        ensures
            r == if outcome_index < self.outcomes@.len() {
                self.outcomes@[outcome_index as int].spec_mid_price()
            } else {
                None
            },
    {
        if outcome_index < self.outcomes.len() {
            self.outcomes[outcome_index].mid_price()
        } else {
            None
        }
    }

    /// The spread of the `outcome_index`-th outcome.
    pub fn spread(&self, outcome_index: usize) -> (r: Option<Decimal>)
        ensures
            r == if outcome_index < self.outcomes@.len() {
                self.outcomes@[outcome_index as int].spec_spread()
            } else {
                None
            },
    {
        if outcome_index < self.outcomes.len() {
            self.outcomes[outcome_index].spread()
        } else {
            None
        }
    }

    /// Whether orders can be placed: the market is active.
    pub fn is_tradeable(&self) -> (r: bool)
        ensures
            r == (self.status == MarketStatus::Active),
    {
        self.status == MarketStatus::Active
    }
}

/// The markets that are loaded, and what of them is shown.
#[derive(Debug)]
pub struct MarketState {
    pub markets: Vec<Market>,
    pub selected_index: Option<usize>,
    pub search_query: Option<String>,
    pub status_filter: Option<MarketStatus>,
    pub loading: bool,
    pub last_updated: Option<Timestamp>,
    pub scroll_offset: usize,
}

impl Default for MarketState {
    fn default() -> (r: Self)
        ensures
            r.markets@.len() == 0,
            r.selected_index is None,
            r.search_query is None,
            r.status_filter is None,
            !r.loading,
            r.last_updated is None,
            r.scroll_offset == 0,
    {
        MarketState {
            markets: Vec::new(),
            selected_index: None,
            search_query: None,
            status_filter: None,
            loading: false,
            last_updated: None,
            scroll_offset: 0,
        }
    }
}

/// Whether one of `tags`, in lower case, holds `query`.
pub open spec fn tag_holds(tags: Seq<String>, query: Seq<char>) -> bool {
    exists|i: int|
        0 <= i < tags.len() && contains_piece(lowercase_text((#[trigger] tags[i])@), query)
}

/// Whether a market is shown under a filter: it has the status asked for,
/// and the query, whatever its case, occurs in its question, its description
/// or one of its tags.
pub open spec fn market_shown(
    market: Market,
    status_filter: Option<MarketStatus>,
    query: Option<String>,
) -> bool {
    &&& match status_filter {
        Some(status) => market.status == status,
        None => true,
    }
    &&& match query {
        Some(q) => {
            let lower = lowercase_text(q@);
            contains_piece(lowercase_text(market.question@), lower) || contains_piece(
                lowercase_text(market.description@),
                lower,
            ) || tag_holds(market.tags@, lower)
        },
        None => true,
    }
}

fn some_tag_holds(tags: &Vec<String>, query: &str) -> (r: bool)
    ensures
        r == tag_holds(tags@, query@),
{
    let mut i: usize = 0;
    while i < tags.len()
        invariant
            i <= tags@.len(),
            forall|k: int| 0 <= k < i ==> !contains_piece(lowercase_text((#[trigger] tags@[k])@), query@),
        decreases tags@.len() - i,
    {
        let lower = to_lowercase(tags[i].as_str());
        if contains_str(lower.as_str(), query) {
            return true;
        }
        i += 1;
    }
    false
}

impl MarketState {
    fn shows(&self, market: &Market) -> (r: bool)
        ensures
            r == market_shown(*market, self.status_filter, self.search_query),
    {
        if let Some(status) = self.status_filter {
            if market.status != status {
                return false;
            }
        }
        match &self.search_query {
            Some(query) => {
                let lower = to_lowercase(query.as_str());
                contains_str(to_lowercase(market.question.as_str()).as_str(), lower.as_str())
                    || contains_str(
                    to_lowercase(market.description.as_str()).as_str(),
                    lower.as_str(),
                ) || some_tag_holds(&market.tags, lower.as_str())
            },
            None => true,
        }
    }

    /// The markets that the filters let through, in order.
    pub open spec fn shown(&self) -> Seq<Market> {
        self.markets@.filter(|m: Market| market_shown(m, self.status_filter, self.search_query))
    }

    /// The markets that the status filter and the search let through, in
    /// order.
    pub fn filtered_markets(&self) -> (r: Vec<&Market>)
        ensures
            r@.map_values(|m: &Market| *m) == self.shown(),
    {
        let ghost all = self.markets@;
        let ghost pred = |m: Market| market_shown(m, self.status_filter, self.search_query);
        let mut out: Vec<&Market> = Vec::new();
        let mut i: usize = 0;
        proof {
            assert(all.take(0) =~= Seq::<Market>::empty());
            assert(out@.map_values(|m: &Market| *m) =~= all.take(0).filter(pred));
        }
        while i < self.markets.len()
            invariant
                i <= self.markets@.len(),
                all == self.markets@,
                pred == (|m: Market| market_shown(m, self.status_filter, self.search_query)),
                out@.map_values(|m: &Market| *m) == all.take(i as int).filter(pred),
            decreases self.markets@.len() - i,
        {
            let m = &self.markets[i];
            proof {
                assert(all.take(i + 1).drop_last() =~= all.take(i as int));
                assert(all.take(i + 1).last() == *m);
                reveal(Seq::filter);
            }
            let ghost before = out@;
            if self.shows(m) {
                out.push(m);
                proof {
                    assert(out@.map_values(|m: &Market| *m) =~= before.map_values(|m: &Market| *m).push(
                        *m,
                    ));
                }
            }
            i += 1;
        }
        proof {
            assert(all.take(all.len() as int) =~= all);
        }
        out
    }

    /// The selected one of the markets that the filters let through.
    pub fn selected_market(&self) -> (r: Option<&Market>)
        ensures
            match (self.selected_index, r) {
                (Some(i), Some(m)) => i < self.shown().len() && *m == self.shown()[i as int],
                (Some(i), None) => i >= self.shown().len(),
                (None, Some(_)) => false,
                (None, None) => true,
            },
    {
        match self.selected_index {
            Some(i) => {
                let shown = self.filtered_markets();
                proof {
                    assert(shown@.len() == shown@.map_values(|m: &Market| *m).len());
                    if i < shown@.len() {
                        assert(shown@.map_values(|m: &Market| *m)[i as int] == *shown@[i as int]);
                    }
                }
                if i < shown.len() {
                    Some(shown[i])
                } else {
                    None
                }
            },
            None => None,
        }
    }

    /// How many markets the filters let through.
    pub fn filtered_count(&self) -> (r: usize)
        ensures
            r == self.shown().len(),
    {
        let shown = self.filtered_markets();
        proof {
            assert(shown@.len() == shown@.map_values(|m: &Market| *m).len());
        }
        shown.len()
    }
}

} // verus!
