//! Order-book depth and the analytics over its two ladders.
//!
//! Bids are kept best (highest) first and asks best (lowest) first, as the
//! feed delivers them; nothing here sorts. Every figure is an
//! `Option<Decimal>`: there is no value where a ratio would divide by zero,
//! where a side that the figure needs is empty, or where the arithmetic
//! leaves the range of [`Decimal`].

use vstd::prelude::*;
use crate::clock::Timestamp;
use crate::collections::{TextMap, lookup, put, without};
use crate::decimal::{Decimal, decimal_difference, decimal_product, decimal_quotient, quotient, sum};

verus! {

/// One price of a ladder and the size resting there.
#[derive(Clone, Copy, Debug)]
pub struct PriceLevel {
    pub price: Decimal,
    pub size: Decimal,
}

impl PriceLevel {
    pub fn new(price: Decimal, size: Decimal) -> (r: Self)
        ensures
            r.price == price,
            r.size == size,
    {
        Self { price, size }
    }

    /// `price * size`.
    pub open spec fn spec_value(&self) -> Option<Decimal> {
        decimal_product(self.price, self.size)
    }

    /// The notional value resting at this level.
    #[verifier::when_used_as_spec(spec_value)]
    pub fn value(&self) -> (r: Option<Decimal>)
        ensures
            r == self.spec_value(),
    {
        self.price.checked_mul(self.size)
    }
}

/// How many levels a depth of `depth` covers on a ladder.
pub open spec fn depth_len(levels: Seq<PriceLevel>, depth: usize) -> nat {
    if depth < levels.len() {
        depth as nat
    } else {
        levels.len()
    }
}

/// The sizes of the first `n` levels, added up from the front.
pub open spec fn volume(levels: Seq<PriceLevel>, n: nat) -> Option<Decimal>
    decreases n,
{
    if n == 0 {
        Some(Decimal::of(0, 0))
    } else {
        match volume(levels, (n - 1) as nat) {
            Some(acc) => sum(acc, levels[n - 1].size),
            None => None,
        }
    }
}

/// The values of the first `n` levels, added up from the front.
pub open spec fn liquidity(levels: Seq<PriceLevel>, n: nat) -> Option<Decimal>
    decreases n,
{
    if n == 0 {
        Some(Decimal::of(0, 0))
    } else {
        match (liquidity(levels, (n - 1) as nat), levels[n - 1].spec_value()) {
            (Some(acc), Some(v)) => sum(acc, v),
            _ => None,
        }
    }
}

/// The price of the first level, if there is one.
pub open spec fn best_price(levels: Seq<PriceLevel>) -> Option<Decimal> {
    if levels.len() > 0 {
        Some(levels[0].price)
    } else {
        None
    }
}

/// The mid price: the average of the two best prices, the one best price
/// where only one side is quoted, nothing where neither is.
pub open spec fn mid_of(bid: Option<Decimal>, ask: Option<Decimal>) -> Option<Decimal> {
    match (bid, ask) {
        (Some(b), Some(a)) => match sum(b, a) {
            Some(s) => quotient(s, Decimal::of(2, 0)),
            None => None,
        },
        (Some(b), None) => Some(b),
        (None, Some(a)) => Some(a),
        (None, None) => None,
    }
}

/// The mid price, or the price of the last trade where neither side is
/// quoted.
pub open spec fn mid_or_last(bid: Option<Decimal>, ask: Option<Decimal>, last: Decimal) -> Option<
    Decimal,
> {
    if bid is None && ask is None {
        Some(last)
    } else {
        mid_of(bid, ask)
    }
}

/// `ask - bid`, where both sides are quoted.
pub open spec fn spread_of(bid: Option<Decimal>, ask: Option<Decimal>) -> Option<Decimal> {
    match (bid, ask) {
        (Some(b), Some(a)) => decimal_difference(a, b),
        _ => None,
    }
}

/// `numerator / denominator * 100`, with no value for a zero denominator.
pub open spec fn percent_of(numerator: Decimal, denominator: Decimal) -> Option<Decimal> {
    match quotient(numerator, denominator) {
        Some(q) => decimal_product(q, Decimal::of(100, 0)),
        None => None,
    }
}

/// The spread as a percentage of the mid price.
pub open spec fn spread_percent_of(bid: Option<Decimal>, ask: Option<Decimal>) -> Option<Decimal> {
    match (spread_of(bid, ask), mid_of(bid, ask)) {
        (Some(s), Some(m)) => percent_of(s, m),
        _ => None,
    }
}

/// `(bid_volume - ask_volume) / (bid_volume + ask_volume)`, with no value
/// where the total is zero.
pub open spec fn imbalance_of(bid_volume: Option<Decimal>, ask_volume: Option<Decimal>) -> Option<
    Decimal,
> {
    match (bid_volume, ask_volume) {
        (Some(b), Some(a)) => match sum(b, a) {
            Some(total) => if total.is_zero() {
                None
            } else {
                match decimal_difference(b, a) {
                    Some(d) => decimal_quotient(d, total),
                    None => None,
                }
            },
            None => None,
        },
        _ => None,
    }
}

/// The state of a walk down a ladder: what is still to fill, and the value
/// and the size of what has been filled.
pub struct Walk {
    pub remaining: Decimal,
    pub value: Decimal,
    pub filled: Decimal,
}

/// One step of the walk: fill `min(remaining, size)` at the level's price.
pub open spec fn walk_step(w: Walk, level: PriceLevel) -> Option<Walk> {
    let fill = w.remaining.spec_min(level.size);
    match decimal_product(level.price, fill) {
        Some(cost) => match (sum(w.value, cost), sum(w.filled, fill), decimal_difference(
            w.remaining,
            fill,
        )) {
            (Some(value), Some(filled), Some(remaining)) => Some(Walk { remaining, value, filled }),
            _ => None,
        },
        None => None,
    }
}

/// The walk after the first `n` levels. It stops at the level that leaves
/// nothing to fill.
pub open spec fn walk(levels: Seq<PriceLevel>, target: Decimal, n: nat) -> Option<Walk>
    decreases n,
{
    if n == 0 {
        Some(Walk { remaining: target, value: Decimal::of(0, 0), filled: Decimal::of(0, 0) })
    } else {
        match walk(levels, target, (n - 1) as nat) {
            Some(w) => if w.remaining.is_zero() {
                Some(w)
            } else {
                walk_step(w, levels[n - 1])
            },
            None => None,
        }
    }
}

/// The volume-weighted average price of filling `target` down the ladder:
/// the value filled over the size filled, which is less than `target` where
/// the ladder is exhausted first.
pub open spec fn vwap(levels: Seq<PriceLevel>, target: Decimal) -> Option<Decimal> {
    if levels.len() == 0 || target.is_zero() {
        None
    } else {
        match walk(levels, target, levels.len()) {
            Some(w) => quotient(w.value, w.filled),
            None => None,
        }
    }
}

/// Slippage of a buy: `(vwap - best) / best * 100`.
pub open spec fn slippage_buy_of(vwap: Option<Decimal>, best: Option<Decimal>) -> Option<Decimal> {
    match (vwap, best) {
        (Some(v), Some(b)) => match decimal_difference(v, b) {
            Some(d) => percent_of(d, b),
            None => None,
        },
        _ => None,
    }
}

/// Slippage of a sell: `(best - vwap) / best * 100`.
pub open spec fn slippage_sell_of(vwap: Option<Decimal>, best: Option<Decimal>) -> Option<Decimal> {
    match (vwap, best) {
        (Some(v), Some(b)) => match decimal_difference(b, v) {
            Some(d) => percent_of(d, b),
            None => None,
        },
        _ => None,
    }
}

/// Once a prefix has no volume, no longer prefix has one.
pub proof fn lemma_volume_none(levels: Seq<PriceLevel>, k: nat, n: nat)
    requires
        k <= n,
        volume(levels, k) is None,
    ensures
        volume(levels, n) is None,
    decreases n,
{
    if k < n {
        lemma_volume_none(levels, k, (n - 1) as nat);
    }
}

/// Once a prefix has no liquidity, no longer prefix has one.
pub proof fn lemma_liquidity_none(levels: Seq<PriceLevel>, k: nat, n: nat)
    requires
        k <= n,
        liquidity(levels, k) is None,
    ensures
        liquidity(levels, n) is None,
    decreases n,
{
    if k < n {
        lemma_liquidity_none(levels, k, (n - 1) as nat);
    }
}

/// Once a walk has failed, it stays failed.
pub proof fn lemma_walk_none(levels: Seq<PriceLevel>, target: Decimal, k: nat, n: nat)
    requires
        k <= n,
        walk(levels, target, k) is None,
    ensures
        walk(levels, target, n) is None,
    decreases n,
{
    if k < n {
        lemma_walk_none(levels, target, k, (n - 1) as nat);
    }
}

/// Once a walk has nothing left to fill, further levels do not change it.
pub proof fn lemma_walk_done(levels: Seq<PriceLevel>, target: Decimal, k: nat, n: nat)
    requires
        k <= n,
        walk(levels, target, k) matches Some(w) && w.remaining.is_zero(),
    ensures
        walk(levels, target, n) == walk(levels, target, k),
    decreases n,
{
    if k < n {
        lemma_walk_done(levels, target, k, (n - 1) as nat);
    }
}

/// Whether the walk takes each of the first `n` levels whole: when it comes
/// to a level, more is left to fill than the level holds.
pub open spec fn taken_whole(levels: Seq<PriceLevel>, target: Decimal, n: nat) -> bool {
    forall|k: nat|
        k < n ==> ((#[trigger] walk(levels, target, k)) matches Some(w) && !w.remaining.is_zero()
            && levels[k as int].size.lt(w.remaining))
}

/// A walk that takes every level whole has filled the size of all of them
/// at the value of all of them.
pub proof fn lemma_walk_of_whole_levels(levels: Seq<PriceLevel>, target: Decimal, n: nat)
    requires
        n <= levels.len(),
        taken_whole(levels, target, n),
    ensures
        walk(levels, target, n) matches Some(w) ==> (liquidity(levels, n) == Some(w.value)
            && volume(levels, n) == Some(w.filled)),
    decreases n,
{
    if n > 0 {
        let m = (n - 1) as nat;
        assert(taken_whole(levels, target, m));
        lemma_walk_of_whole_levels(levels, target, m);
        assert(walk(levels, target, m) is Some);
    }
}

/// A ladder that cannot fill the target gives the average price of what it
/// holds: where every level is taken whole, the result is the value of all
/// levels over the size of all levels, whatever the target is beyond that.
pub proof fn lemma_vwap_of_partial_fill(levels: Seq<PriceLevel>, target: Decimal)
    requires
        levels.len() > 0,
        taken_whole(levels, target, levels.len()),
    ensures
        vwap(levels, target) matches Some(price) ==> (liquidity(levels, levels.len()) matches Some(
            value,
        ) && volume(levels, levels.len()) matches Some(size) && quotient(value, size) == Some(price)),
{
    lemma_walk_of_whole_levels(levels, target, levels.len());
    assert(walk(levels, target, 0) is Some);
}

/// With no volume on either side there is no imbalance.
pub proof fn lemma_imbalance_of_nothing(bid_volume: Decimal, ask_volume: Decimal)
    requires
        bid_volume.is_zero(),
        ask_volume.is_zero(),
    ensures
        imbalance_of(Some(bid_volume), Some(ask_volume)) is None,
{
}

/// There is no average price for an empty ladder or for a target of zero.
pub proof fn lemma_vwap_of_nothing(levels: Seq<PriceLevel>, target: Decimal)
    requires
        levels.len() == 0 || target.is_zero(),
    ensures
        vwap(levels, target) is None,
{
}

fn sum_sizes(levels: &Vec<PriceLevel>, depth: usize) -> (r: Option<Decimal>)
    ensures
        r == volume(levels@, depth_len(levels@, depth)),
{
    let n = if depth < levels.len() {
        depth
    } else {
        levels.len()
    };
    let mut acc = Decimal::zero();
    let mut i: usize = 0;
    while i < n
        invariant
            i <= n <= levels.len(),
            n == depth_len(levels@, depth),
            volume(levels@, i as nat) == Some(acc),
        decreases n - i,
    {
        match acc.checked_add(levels[i].size) {
            Some(next) => {
                acc = next;
            },
            None => {
                proof {
                    lemma_volume_none(levels@, (i + 1) as nat, n as nat);
                }
                return None;
            },
        }
        i += 1;
    }
    Some(acc)
}

fn sum_values(levels: &Vec<PriceLevel>, depth: usize) -> (r: Option<Decimal>)
    ensures
        r == liquidity(levels@, depth_len(levels@, depth)),
{
    let n = if depth < levels.len() {
        depth
    } else {
        levels.len()
    };
    let mut acc = Decimal::zero();
    let mut i: usize = 0;
    while i < n
        invariant
            i <= n <= levels.len(),
            n == depth_len(levels@, depth),
            liquidity(levels@, i as nat) == Some(acc),
        decreases n - i,
    {
        let next = match levels[i].value() {
            Some(v) => acc.checked_add(v),
            None => None,
        };
        match next {
            Some(next) => {
                acc = next;
            },
            None => {
                proof {
                    lemma_liquidity_none(levels@, (i + 1) as nat, n as nat);
                }
                return None;
            },
        }
        i += 1;
    }
    Some(acc)
}

fn first_price(levels: &Vec<PriceLevel>) -> (r: Option<Decimal>)
    ensures
        r == best_price(levels@),
{
    if levels.len() > 0 {
        Some(levels[0].price)
    } else {
        None
    }
}

fn percent(numerator: Decimal, denominator: Decimal) -> (r: Option<Decimal>)
    ensures
        r == percent_of(numerator, denominator),
{
    match numerator.checked_div(denominator) {
        Some(q) => q.checked_mul(Decimal::one_hundred()),
        None => None,
    }
}

fn step(w: Walk, level: PriceLevel) -> (r: Option<Walk>)
    ensures
        r == walk_step(w, level),
{
    let fill = w.remaining.min(level.size);
    let cost = match level.price.checked_mul(fill) {
        Some(c) => c,
        None => {
            return None;
        },
    };
    match (w.value.checked_add(cost), w.filled.checked_add(fill), w.remaining.checked_sub(fill)) {
        (Some(value), Some(filled), Some(remaining)) => Some(Walk { remaining, value, filled }),
        _ => None,
    }
}

fn calculate_vwap(levels: &Vec<PriceLevel>, target: Decimal) -> (r: Option<Decimal>)
    ensures
        r == vwap(levels@, target),
{
    if levels.len() == 0 || target.is_zero() {
        return None;
    }
    let n = levels.len();
    let mut w = Walk { remaining: target, value: Decimal::zero(), filled: Decimal::zero() };
    let mut i: usize = 0;
    while i < n && !w.remaining.is_zero()
        invariant
            i <= n == levels.len(),
            walk(levels@, target, i as nat) == Some(w),
        decreases n - i,
    {
        match step(w, levels[i]) {
            Some(next) => {
                w = next;
            },
            None => {
                proof {
                    lemma_walk_none(levels@, target, (i + 1) as nat, n as nat);
                }
                return None;
            },
        }
        i += 1;
    }
    proof {
        if i < n {
            lemma_walk_done(levels@, target, i as nat, n as nat);
        }
    }
    w.value.checked_div(w.filled)
}

/// The running totals of a ladder: for each level its price and the size of
/// all levels up to and including it.
pub open spec fn is_cumulative(levels: Seq<PriceLevel>, rows: Seq<(Decimal, Decimal)>) -> bool {
    &&& rows.len() == levels.len()
    &&& forall|i: int|
        0 <= i < levels.len() ==> (#[trigger] rows[i]).0 == levels[i].price && Some(rows[i].1)
            == volume(levels, (i + 1) as nat)
}

fn cumulative(levels: &Vec<PriceLevel>) -> (r: Option<Vec<(Decimal, Decimal)>>)
    ensures
        match r {
            Some(rows) => is_cumulative(levels@, rows@),
            None => volume(levels@, levels@.len()) is None,
        },
{
    let n = levels.len();
    let mut rows: Vec<(Decimal, Decimal)> = Vec::new();
    let mut acc = Decimal::zero();
    let mut i: usize = 0;
    while i < n
        invariant
            i <= n == levels.len(),
            volume(levels@, i as nat) == Some(acc),
            rows.len() == i,
            forall|j: int|
                0 <= j < i ==> (#[trigger] rows[j]).0 == levels[j].price && Some(rows[j].1)
                    == volume(levels@, (j + 1) as nat),
        decreases n - i,
    {
        match acc.checked_add(levels[i].size) {
            Some(next) => {
                acc = next;
            },
            None => {
                proof {
                    lemma_volume_none(levels@, (i + 1) as nat, n as nat);
                }
                return None;
            },
        }
        rows.push((levels[i].price, acc));
        i += 1;
    }
    Some(rows)
}

/// The depth of one outcome's order book at one moment.
#[derive(Clone, Debug)]
pub struct OrderBookDepth {
    /// The market's condition id.
    pub market_id: String,
    /// The outcome's token id.
    pub token_id: String,
    /// The feed's hash of this snapshot.
    pub hash: String,
    /// When the snapshot was taken.
    pub timestamp: Timestamp,
    /// Bids, highest price first.
    pub bids: Vec<PriceLevel>,
    /// Asks, lowest price first.
    pub asks: Vec<PriceLevel>,
}

impl OrderBookDepth {
    /// An empty book for the given market and token, stamped with the current
    /// time.
    pub fn new(market_id: &str, token_id: &str) -> (r: Self)
        ensures
            r.market_id@ == market_id@,
            r.token_id@ == token_id@,
            r.hash@.len() == 0,
            r.bids@.len() == 0,
            r.asks@.len() == 0,
    {
        Self::new_at(market_id, token_id, crate::clock::now())
    }

    /// An empty book for the given market and token, stamped `timestamp`.
    pub fn new_at(market_id: &str, token_id: &str, timestamp: Timestamp) -> (r: Self)
        ensures
            r.market_id@ == market_id@,
            r.token_id@ == token_id@,
            r.hash@.len() == 0,
            r.timestamp == timestamp,
            r.bids@.len() == 0,
            r.asks@.len() == 0,
    {
        Self {
            market_id: market_id.to_owned(),
            token_id: token_id.to_owned(),
            hash: String::new(),
            timestamp,
            bids: Vec::new(),
            asks: Vec::new(),
        }
    }

    /// The best (first) bid.
    pub fn best_bid(&self) -> (r: Option<&PriceLevel>)
        ensures
            r == if self.bids@.len() > 0 {
                Some(&self.bids@[0])
            } else {
                None
            },
    {
        if self.bids.len() > 0 {
            Some(&self.bids[0])
        } else {
            None
        }
    }

    /// The best (first) ask.
    pub fn best_ask(&self) -> (r: Option<&PriceLevel>)
        ensures
            r == if self.asks@.len() > 0 {
                Some(&self.asks@[0])
            } else {
                None
            },
    {
        if self.asks.len() > 0 {
            Some(&self.asks[0])
        } else {
            None
        }
    }

    pub fn best_bid_price(&self) -> (r: Option<Decimal>)
        ensures
            r == best_price(self.bids@),
    {
        first_price(&self.bids)
    }

    pub fn best_ask_price(&self) -> (r: Option<Decimal>)
        ensures
            r == best_price(self.asks@),
    {
        first_price(&self.asks)
    }

    pub open spec fn spec_mid_price(&self) -> Option<Decimal> {
        mid_of(best_price(self.bids@), best_price(self.asks@))
    }

    /// The mid price: the average of best bid and best ask, or the one of
    /// them that is quoted.
    #[verifier::when_used_as_spec(spec_mid_price)]
    pub fn mid_price(&self) -> (r: Option<Decimal>)
        ensures
            r == self.spec_mid_price(),
    {
        match (self.best_bid_price(), self.best_ask_price()) {
            (Some(bid), Some(ask)) => match bid.checked_add(ask) {
                Some(s) => s.checked_div(Decimal::two()),
                None => None,
            },
            (Some(bid), None) => Some(bid),
            (None, Some(ask)) => Some(ask),
            (None, None) => None,
        }
    }

    /// The mid price, falling back to the price of the last trade where the
    /// book is empty.
    pub fn mid_price_or(&self, last_trade_price: Decimal) -> (r: Option<Decimal>)
        ensures
            r == mid_or_last(best_price(self.bids@), best_price(self.asks@), last_trade_price),
    {
        if self.bids.len() == 0 && self.asks.len() == 0 {
            Some(last_trade_price)
        } else {
            self.mid_price()
        }
    }

    pub open spec fn spec_spread(&self) -> Option<Decimal> {
        spread_of(best_price(self.bids@), best_price(self.asks@))
    }

    /// Best ask less best bid.
    #[verifier::when_used_as_spec(spec_spread)]
    pub fn spread(&self) -> (r: Option<Decimal>)
        ensures
            r == self.spec_spread(),
    {
        match (self.best_bid_price(), self.best_ask_price()) {
            (Some(bid), Some(ask)) => ask.checked_sub(bid),
            _ => None,
        }
    }

    pub open spec fn spec_spread_percent(&self) -> Option<Decimal> {
        spread_percent_of(best_price(self.bids@), best_price(self.asks@))
    }

    /// The spread as a percentage of the mid price; no value where the mid
    /// price is zero.
    #[verifier::when_used_as_spec(spec_spread_percent)]
    pub fn spread_percent(&self) -> (r: Option<Decimal>)
        ensures
            r == self.spec_spread_percent(),
    {
        match (self.spread(), self.mid_price()) {
            (Some(spread), Some(mid)) => percent(spread, mid),
            _ => None,
        }
    }

    pub open spec fn spec_bid_liquidity(&self, depth: usize) -> Option<Decimal> {
        liquidity(self.bids@, depth_len(self.bids@, depth))
    }

    /// The value of the first `depth` bid levels.
    #[verifier::when_used_as_spec(spec_bid_liquidity)]
    pub fn bid_liquidity(&self, depth: usize) -> (r: Option<Decimal>)
        ensures
            r == self.spec_bid_liquidity(depth),
    {
        sum_values(&self.bids, depth)
    }

    pub open spec fn spec_ask_liquidity(&self, depth: usize) -> Option<Decimal> {
        liquidity(self.asks@, depth_len(self.asks@, depth))
    }

    /// The value of the first `depth` ask levels.
    #[verifier::when_used_as_spec(spec_ask_liquidity)]
    pub fn ask_liquidity(&self, depth: usize) -> (r: Option<Decimal>)
        ensures
            r == self.spec_ask_liquidity(depth),
    {
        sum_values(&self.asks, depth)
    }

    pub open spec fn spec_bid_volume(&self, depth: usize) -> Option<Decimal> {
        volume(self.bids@, depth_len(self.bids@, depth))
    }

    /// The size of the first `depth` bid levels.
    #[verifier::when_used_as_spec(spec_bid_volume)]
    pub fn bid_volume(&self, depth: usize) -> (r: Option<Decimal>)
        ensures
            r == self.spec_bid_volume(depth),
    {
        sum_sizes(&self.bids, depth)
    }

    pub open spec fn spec_ask_volume(&self, depth: usize) -> Option<Decimal> {
        volume(self.asks@, depth_len(self.asks@, depth))
    }

    /// The size of the first `depth` ask levels.
    #[verifier::when_used_as_spec(spec_ask_volume)]
    pub fn ask_volume(&self, depth: usize) -> (r: Option<Decimal>)
        ensures
            r == self.spec_ask_volume(depth),
    {
        sum_sizes(&self.asks, depth)
    }

    pub open spec fn spec_total_liquidity(&self, depth: usize) -> Option<Decimal> {
        match (self.spec_bid_liquidity(depth), self.spec_ask_liquidity(depth)) {
            (Some(b), Some(a)) => sum(b, a),
            _ => None,
        }
    }

    /// Bid liquidity plus ask liquidity over the first `depth` levels.
    #[verifier::when_used_as_spec(spec_total_liquidity)]
    pub fn total_liquidity(&self, depth: usize) -> (r: Option<Decimal>)
        ensures
            r == self.spec_total_liquidity(depth),
    {
        match (self.bid_liquidity(depth), self.ask_liquidity(depth)) {
            (Some(b), Some(a)) => b.checked_add(a),
            _ => None,
        }
    }

    pub open spec fn spec_imbalance(&self, depth: usize) -> Option<Decimal> {
        imbalance_of(self.spec_bid_volume(depth), self.spec_ask_volume(depth))
    }

    /// The imbalance of the first `depth` levels: positive for more size
    /// bid than offered. No value where there is no size at all.
    #[verifier::when_used_as_spec(spec_imbalance)]
    pub fn imbalance(&self, depth: usize) -> (r: Option<Decimal>)
        ensures
            r == self.spec_imbalance(depth),
    {
        let (bid_vol, ask_vol) = match (self.bid_volume(depth), self.ask_volume(depth)) {
            (Some(b), Some(a)) => (b, a),
            _ => {
                return None;
            },
        };
        let total = match bid_vol.checked_add(ask_vol) {
            Some(t) => t,
            None => {
                return None;
            },
        };
        if total.is_zero() {
            None
        } else {
            match bid_vol.checked_sub(ask_vol) {
                Some(d) => d.checked_div(total),
                None => None,
            }
        }
    }

    pub open spec fn spec_vwap_buy(&self, size: Decimal) -> Option<Decimal> {
        vwap(self.asks@, size)
    }

    /// The average price of buying `size`, walking the asks.
    #[verifier::when_used_as_spec(spec_vwap_buy)]
    pub fn vwap_buy(&self, size: Decimal) -> (r: Option<Decimal>)
        ensures
            r == self.spec_vwap_buy(size),
    {
        calculate_vwap(&self.asks, size)
    }

    pub open spec fn spec_vwap_sell(&self, size: Decimal) -> Option<Decimal> {
        vwap(self.bids@, size)
    }

    /// The average price of selling `size`, walking the bids.
    #[verifier::when_used_as_spec(spec_vwap_sell)]
    pub fn vwap_sell(&self, size: Decimal) -> (r: Option<Decimal>)
        ensures
            r == self.spec_vwap_sell(size),
    {
        calculate_vwap(&self.bids, size)
    }

    pub open spec fn spec_slippage_buy(&self, size: Decimal) -> Option<Decimal> {
        slippage_buy_of(vwap(self.asks@, size), best_price(self.asks@))
    }

    /// How much worse than the best ask a buy of `size` fills, in percent of
    /// the best ask.
    #[verifier::when_used_as_spec(spec_slippage_buy)]
    pub fn slippage_buy(&self, size: Decimal) -> (r: Option<Decimal>)
        ensures
            r == self.spec_slippage_buy(size),
    {
        match (self.vwap_buy(size), self.best_ask_price()) {
            (Some(v), Some(best)) => match v.checked_sub(best) {
                Some(d) => percent(d, best),
                None => None,
            },
            _ => None,
        }
    }

    pub open spec fn spec_slippage_sell(&self, size: Decimal) -> Option<Decimal> {
        slippage_sell_of(vwap(self.bids@, size), best_price(self.bids@))
    }

    /// How much worse than the best bid a sell of `size` fills, in percent of
    /// the best bid.
    #[verifier::when_used_as_spec(spec_slippage_sell)]
    pub fn slippage_sell(&self, size: Decimal) -> (r: Option<Decimal>)
        ensures
            r == self.spec_slippage_sell(size),
    {
        match (self.vwap_sell(size), self.best_bid_price()) {
            (Some(v), Some(best)) => match best.checked_sub(v) {
                Some(d) => percent(d, best),
                None => None,
            },
            _ => None,
        }
    }

    /// The number of bid levels.
    pub fn bid_depth(&self) -> (r: usize)
        ensures
            r == self.bids@.len(),
    {
        self.bids.len()
    }

    /// The number of ask levels.
    pub fn ask_depth(&self) -> (r: usize)
        ensures
            r == self.asks@.len(),
    {
        self.asks.len()
    }

    /// Whether both ladders are empty.
    pub fn is_empty(&self) -> (r: bool)
        ensures
            r == (self.bids@.len() == 0 && self.asks@.len() == 0),
    {
        self.bids.len() == 0 && self.asks.len() == 0
    }

    /// Price and running size at each bid level; `None` where the running
    /// size leaves the range.
    pub fn cumulative_bids(&self) -> (r: Option<Vec<(Decimal, Decimal)>>)
        ensures
            match r {
                Some(rows) => is_cumulative(self.bids@, rows@),
                None => volume(self.bids@, self.bids@.len()) is None,
            },
    {
        cumulative(&self.bids)
    }

    /// Price and running size at each ask level; `None` where the running
    /// size leaves the range.
    pub fn cumulative_asks(&self) -> (r: Option<Vec<(Decimal, Decimal)>>)
        ensures
            match r {
                Some(rows) => is_cumulative(self.asks@, rows@),
                None => volume(self.asks@, self.asks@.len()) is None,
            },
    {
        cumulative(&self.asks)
    }
}

/// The figures of one book, computed once.
#[derive(Clone, Copy, Debug)]
pub struct OrderBookStats {
    pub best_bid: Option<Decimal>,
    pub best_ask: Option<Decimal>,
    pub mid_price: Option<Decimal>,
    pub spread: Option<Decimal>,
    pub spread_percent: Option<Decimal>,
    pub bid_liquidity: Option<Decimal>,
    pub ask_liquidity: Option<Decimal>,
    pub imbalance: Option<Decimal>,
    pub bid_depth: usize,
    pub ask_depth: usize,
}

impl OrderBookStats {
    pub open spec fn spec_from_orderbook(book: &OrderBookDepth, depth: usize) -> OrderBookStats {
        OrderBookStats {
            best_bid: best_price(book.bids@),
            best_ask: best_price(book.asks@),
            mid_price: book.spec_mid_price(),
            spread: book.spec_spread(),
            spread_percent: book.spec_spread_percent(),
            bid_liquidity: book.spec_bid_liquidity(depth),
            ask_liquidity: book.spec_ask_liquidity(depth),
            imbalance: book.spec_imbalance(depth),
            bid_depth: book.bids@.len() as usize,
            ask_depth: book.asks@.len() as usize,
        }
    }

    /// The figures of `book`, the sums over its first `depth` levels.
    #[verifier::when_used_as_spec(spec_from_orderbook)]
    pub fn from_orderbook(book: &OrderBookDepth, depth: usize) -> (r: Self)
        ensures
            r == Self::spec_from_orderbook(book, depth),
    {
        Self {
            best_bid: book.best_bid_price(),
            best_ask: book.best_ask_price(),
            mid_price: book.mid_price(),
            spread: book.spread(),
            spread_percent: book.spread_percent(),
            bid_liquidity: book.bid_liquidity(depth),
            ask_liquidity: book.ask_liquidity(depth),
            imbalance: book.imbalance(depth),
            bid_depth: book.bid_depth(),
            ask_depth: book.ask_depth(),
        }
    }
}

impl Default for OrderBookStats {
    fn default() -> (r: Self)
        ensures
            r.best_bid is None,
            r.best_ask is None,
            r.mid_price is None,
            r.spread is None,
            r.spread_percent is None,
            r.bid_liquidity == Some(Decimal::of(0, 0)),
            r.ask_liquidity == Some(Decimal::of(0, 0)),
            r.imbalance is None,
            r.bid_depth == 0,
            r.ask_depth == 0,
    {
        Self {
            best_bid: None,
            best_ask: None,
            mid_price: None,
            spread: None,
            spread_percent: None,
            bid_liquidity: Some(Decimal::zero()),
            ask_liquidity: Some(Decimal::zero()),
            imbalance: None,
            bid_depth: 0,
            ask_depth: 0,
        }
    }
}

/// The order books that are loaded, by token.
#[derive(Debug)]
pub struct OrderBookState {
    pub books: TextMap<OrderBookDepth>,
    /// The token whose book is shown.
    pub selected_token_id: Option<String>,
    pub loading: bool,
    pub last_updated: Option<Timestamp>,
    /// The number of levels shown.
    pub display_depth: usize,
    pub error: Option<String>,
}

impl OrderBookState {
    /// No books, nothing selected, ten levels shown.
    pub fn new() -> (r: Self)
        ensures
            r.books@.len() == 0,
            r.selected_token_id is None,
            !r.loading,
            r.last_updated is None,
            r.display_depth == 10,
            r.error is None,
    {
        OrderBookState {
            books: TextMap::new(),
            selected_token_id: None,
            loading: false,
            last_updated: None,
            display_depth: 10,
            error: None,
        }
    }

    /// The book of the given token.
    pub fn get_book(&self, token_id: &str) -> (r: Option<&OrderBookDepth>)
        ensures
            match r {
                Some(b) => lookup(self.books@, token_id@) == Some(*b),
                None => lookup(self.books@, token_id@) is None,
            },
    {
        self.books.get(token_id)
    }

    /// The book of the selected token.
    pub fn selected_book(&self) -> (r: Option<&OrderBookDepth>)
        ensures
            match (self.selected_token_id, r) {
                (Some(id), Some(b)) => lookup(self.books@, id@) == Some(*b),
                (Some(id), None) => lookup(self.books@, id@) is None,
                (None, Some(_)) => false,
                (None, None) => true,
            },
    {
        match &self.selected_token_id {
            Some(id) => self.books.get(id.as_str()),
            None => None,
        }
    }

    /// Puts `book` in under its token, in the place of an older book of
    /// that token, and stamps the state with the current time.
    pub fn update_book(&mut self, book: OrderBookDepth)
        ensures
            final(self).books@ == put(old(self).books@, book.token_id@, book),
            final(self).last_updated is Some,
            final(self).selected_token_id == old(self).selected_token_id,
            final(self).loading == old(self).loading,
            final(self).display_depth == old(self).display_depth,
            final(self).error == old(self).error,
    {
        self.update_book_at(book, crate::clock::now())
    }

    /// Puts `book` in under its token, in the place of an older book of
    /// that token, and stamps the state `now`.
    pub fn update_book_at(&mut self, book: OrderBookDepth, now: Timestamp)
        ensures
            final(self).books@ == put(old(self).books@, book.token_id@, book),
            final(self).last_updated == Some(now),
            final(self).selected_token_id == old(self).selected_token_id,
            final(self).loading == old(self).loading,
            final(self).display_depth == old(self).display_depth,
            final(self).error == old(self).error,
    {
        let key = book.token_id.clone();
        self.books.insert(key, book);
        self.last_updated = Some(now);
    }

    /// Takes the book of the given token out.
    pub fn remove_book(&mut self, token_id: &str)
        ensures
            final(self).books@ == without(old(self).books@, token_id@),
            final(self).last_updated == old(self).last_updated,
            final(self).selected_token_id == old(self).selected_token_id,
            final(self).loading == old(self).loading,
            final(self).display_depth == old(self).display_depth,
            final(self).error == old(self).error,
    {
        let _ = self.books.remove(token_id);
    }

    /// Takes every book out and selects nothing.
    pub fn clear(&mut self)
        ensures
            final(self).books@.len() == 0,
            final(self).selected_token_id is None,
            final(self).last_updated == old(self).last_updated,
            final(self).loading == old(self).loading,
            final(self).display_depth == old(self).display_depth,
            final(self).error == old(self).error,
    {
        self.books.clear();
        self.selected_token_id = None;
    }

    /// The figures of the given token's book over the levels shown.
    pub fn get_stats(&self, token_id: &str) -> (r: Option<OrderBookStats>)
        ensures
            r == match lookup(self.books@, token_id@) {
                Some(book) => Some(OrderBookStats::spec_from_orderbook(&book, self.display_depth)),
                None => None,
            },
    {
        match self.books.get(token_id) {
            Some(book) => Some(OrderBookStats::from_orderbook(book, self.display_depth)),
            None => None,
        }
    }

    /// The tokens of which a book is loaded, in the order in which their
    /// first book came.
    pub fn token_ids(&self) -> (r: Vec<&String>)
        ensures
            r@.len() == self.books@.len(),
            forall|i: int| 0 <= i < r@.len() ==> (#[trigger] r@[i])@ == self.books@[i].0,
    {
        let mut out: Vec<&String> = Vec::new();
        let mut i: usize = 0;
        while i < self.books.len()
            invariant
                i <= self.books@.len(),
                out@.len() == i,
                forall|k: int| 0 <= k < i ==> (#[trigger] out@[k])@ == self.books@[k].0,
            decreases self.books@.len() - i,
        {
            out.push(self.books.key_at(i));
            i += 1;
        }
        out
    }
}

impl Default for OrderBookState {
    /// No books, nothing selected, no levels shown.
    fn default() -> (r: Self)
        ensures
            r.books@.len() == 0,
            r.selected_token_id is None,
            !r.loading,
            r.last_updated is None,
            r.display_depth == 0,
            r.error is None,
    {
        OrderBookState {
            books: TextMap::new(),
            selected_token_id: None,
            loading: false,
            last_updated: None,
            display_depth: 0,
            error: None,
        }
    }
}

} // verus!
