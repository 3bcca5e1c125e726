//! What a strategy sees during one evaluation: snapshots of markets,
//! positions and orders, the balance, and price histories with the moving
//! averages derived from them.

use vstd::prelude::*;
use crate::clock::Timestamp;
use crate::collections::{TextMap, lemma_put, lemma_select_related, lookup, related, select};
use crate::decimal::{Decimal, decimal_difference, decimal_product, decimal_quotient, quotient, sum};
use crate::state::order_state::fill_percent_of;
use crate::state::{Market, MarketStatus, Order, OrderSide, OrderStatus, Position};
use crate::text::{clone_texts, str_eq, texts};

verus! {

/// One point of a price history.
#[derive(Debug, Clone, Copy)]
pub struct PricePoint {
    pub timestamp: Timestamp,
    pub price: Decimal,
    pub volume: Option<Decimal>,
}

/// A market as a strategy sees it.
#[derive(Debug)]
pub struct MarketSnapshot {
    pub condition_id: String,
    pub question: String,
    pub status: MarketStatus,
    /// The token of each outcome.
    pub token_ids: Vec<String>,
    /// The name of each outcome.
    pub token_names: Vec<String>,
    /// The price of each outcome.
    pub token_prices: Vec<Decimal>,
    pub volume_24h: Decimal,
    pub liquidity: Decimal,
    pub spread: Option<Decimal>,
    pub end_date: Option<Timestamp>,
}

/// A market snapshot as a value.
pub struct MarketSnapshotView {
    pub condition_id: Seq<char>,
    pub question: Seq<char>,
    pub status: MarketStatus,
    pub token_ids: Seq<Seq<char>>,
    pub token_names: Seq<Seq<char>>,
    pub token_prices: Seq<Decimal>,
    pub volume_24h: Decimal,
    pub liquidity: Decimal,
    pub spread: Option<Decimal>,
    pub end_date: Option<Timestamp>,
}

impl View for MarketSnapshot {
    type V = MarketSnapshotView;

    open spec fn view(&self) -> MarketSnapshotView {
        MarketSnapshotView {
            condition_id: self.condition_id@,
            question: self.question@,
            status: self.status,
            token_ids: texts(self.token_ids@),
            token_names: texts(self.token_names@),
            token_prices: self.token_prices@,
            volume_24h: self.volume_24h,
            liquidity: self.liquidity,
            spread: self.spread,
            end_date: self.end_date,
        }
    }
}

impl MarketSnapshotView {
    /// The price of the first outcome.
    pub open spec fn yes_price(self) -> Option<Decimal> {
        if self.token_prices.len() > 0 {
            Some(self.token_prices[0])
        } else {
            None
        }
    }

    /// The price of the second outcome.
    pub open spec fn no_price(self) -> Option<Decimal> {
        if self.token_prices.len() > 1 {
            Some(self.token_prices[1])
        } else {
            None
        }
    }

    /// The token of the first outcome; empty where there is none.
    pub open spec fn first_token(self) -> Seq<char> {
        if self.token_ids.len() > 0 {
            self.token_ids[0]
        } else {
            Seq::empty()
        }
    }
}

fn clone_prices(list: &Vec<Decimal>) -> (r: Vec<Decimal>)
    ensures
        r@ == list@,
{
    let mut out: Vec<Decimal> = Vec::new();
    let mut i: usize = 0;
    while i < list.len()
        invariant
            i <= list.len(),
            out@ == list@.take(i as int),
        decreases list.len() - i,
    {
        out.push(list[i]);
        proof {
            assert(list@.take(i + 1) == list@.take(i as int).push(list@[i as int]));
        }
        i += 1;
    }
    proof {
        assert(list@.take(list@.len() as int) == list@);
    }
    out
}

impl Clone for MarketSnapshot {
    fn clone(&self) -> (r: Self)
        ensures
            r@ == self@,
    {
        MarketSnapshot {
            condition_id: self.condition_id.clone(),
            question: self.question.clone(),
            status: self.status,
            token_ids: clone_texts(&self.token_ids),
            token_names: clone_texts(&self.token_names),
            token_prices: clone_prices(&self.token_prices),
            volume_24h: self.volume_24h,
            liquidity: self.liquidity,
            spread: self.spread,
            end_date: self.end_date,
        }
    }
}

/// The mid prices of the first `n` outcomes.
pub open spec fn outcome_prices(market: Market, n: nat) -> Option<Seq<Decimal>>
    decreases n,
{
    if n == 0 {
        Some(Seq::empty())
    } else {
        match (outcome_prices(market, (n - 1) as nat), market.outcomes@[n - 1].spec_mid_price()) {
            (Some(prices), Some(p)) => Some(prices.push(p)),
            _ => None,
        }
    }
}

/// The snapshot of a market: its outcomes' tokens, names and mid prices, and
/// no spread. There is none where a mid price cannot be computed.
pub open spec fn snapshot_of(market: Market) -> Option<MarketSnapshotView> {
    match outcome_prices(market, market.outcomes@.len()) {
        Some(prices) => Some(
            MarketSnapshotView {
                condition_id: market.id@,
                question: market.question@,
                status: market.status,
                token_ids: Seq::new(market.outcomes@.len(), |i: int| market.outcomes@[i].token_id@),
                token_names: Seq::new(market.outcomes@.len(), |i: int| market.outcomes@[i].name@),
                token_prices: prices,
                volume_24h: market.volume,
                liquidity: market.liquidity,
                spread: None,
                end_date: market.end_date,
            },
        ),
        None => None,
    }
}

proof fn lemma_outcome_prices_none(market: Market, k: nat, n: nat)
    requires
        k <= n,
        outcome_prices(market, k) is None,
    ensures
        outcome_prices(market, n) is None,
    decreases n,
{
    if k < n {
        lemma_outcome_prices_none(market, k, (n - 1) as nat);
    }
}

impl MarketSnapshot {
    /// The snapshot of `market`, where every outcome has a mid price.
    pub fn from_market(market: &Market) -> (r: Option<Self>)
        ensures
            match r {
                Some(s) => snapshot_of(*market) == Some(s@),
                None => snapshot_of(*market) is None,
            },
    {
        let n = market.outcomes.len();
        let mut token_prices: Vec<Decimal> = Vec::new();
        let mut token_ids: Vec<String> = Vec::new();
        let mut token_names: Vec<String> = Vec::new();
        let mut i: usize = 0;
        while i < n
            invariant
                i <= n == market.outcomes@.len(),
                outcome_prices(*market, i as nat) == Some(token_prices@),
                token_ids@.len() == i,
                token_names@.len() == i,
                forall|k: int| 0 <= k < i ==> (#[trigger] token_ids@[k])@ == market.outcomes@[k].token_id@,
                forall|k: int| 0 <= k < i ==> (#[trigger] token_names@[k])@ == market.outcomes@[k].name@,
            decreases n - i,
        {
            match market.outcomes[i].mid_price() {
                Some(p) => {
                    token_prices.push(p);
                },
                None => {
                    proof {
                        lemma_outcome_prices_none(*market, (i + 1) as nat, n as nat);
                    }
                    return None;
                },
            }
            token_ids.push(market.outcomes[i].token_id.clone());
            token_names.push(market.outcomes[i].name.clone());
            i += 1;
        }
        let r = MarketSnapshot {
            condition_id: market.id.clone(),
            question: market.question.clone(),
            status: market.status,
            token_ids,
            token_names,
            token_prices,
            volume_24h: market.volume,
            liquidity: market.liquidity,
            spread: None,
            end_date: market.end_date,
        };
        proof {
            assert(r@.token_ids =~= snapshot_of(*market)->0.token_ids);
            assert(r@.token_names =~= snapshot_of(*market)->0.token_names);
        }
        Some(r)
    }

    /// The price of the first outcome.
    pub fn yes_price(&self) -> (r: Option<Decimal>)
        ensures
            r == self@.yes_price(),
    {
        if self.token_prices.len() > 0 {
            Some(self.token_prices[0])
        } else {
            None
        }
    }

    /// The price of the second outcome.
    pub fn no_price(&self) -> (r: Option<Decimal>)
        ensures
            r == self@.no_price(),
    {
        if self.token_prices.len() > 1 {
            Some(self.token_prices[1])
        } else {
            None
        }
    }

    /// Whether the market is active.
    pub fn is_tradeable(&self) -> (r: bool)
        ensures
            r == (self.status == MarketStatus::Active),
    {
        self.status == MarketStatus::Active
    }

    /// The market's estimate of the first outcome's probability: its price.
    pub fn implied_probability(&self) -> (r: Option<Decimal>)
        ensures
            r == self@.yes_price(),
    {
        self.yes_price()
    }

    /// The token of the first outcome; empty where there is none.
    pub fn first_token(&self) -> (r: String)
        ensures
            r@ == self@.first_token(),
    {
        if self.token_ids.len() > 0 {
            self.token_ids[0].clone()
        } else {
            String::new()
        }
    }
}

/// A position as a strategy sees it.
#[derive(Debug)]
pub struct PositionSnapshot {
    pub market_id: String,
    pub token_id: String,
    pub size: Decimal,
    pub avg_price: Decimal,
    pub current_price: Decimal,
    pub current_value: Decimal,
    pub unrealized_pnl: Decimal,
    pub pnl_percent: Decimal,
}

/// A position snapshot as a value.
pub struct PositionSnapshotView {
    pub market_id: Seq<char>,
    pub token_id: Seq<char>,
    pub size: Decimal,
    pub avg_price: Decimal,
    pub current_price: Decimal,
    pub current_value: Decimal,
    pub unrealized_pnl: Decimal,
    pub pnl_percent: Decimal,
}

impl View for PositionSnapshot {
    type V = PositionSnapshotView;

    open spec fn view(&self) -> PositionSnapshotView {
        PositionSnapshotView {
            market_id: self.market_id@,
            token_id: self.token_id@,
            size: self.size,
            avg_price: self.avg_price,
            current_price: self.current_price,
            current_value: self.current_value,
            unrealized_pnl: self.unrealized_pnl,
            pnl_percent: self.pnl_percent,
        }
    }
}

impl Clone for PositionSnapshot {
    fn clone(&self) -> (r: Self)
        ensures
            r@ == self@,
    {
        PositionSnapshot {
            market_id: self.market_id.clone(),
            token_id: self.token_id.clone(),
            size: self.size,
            avg_price: self.avg_price,
            current_price: self.current_price,
            current_value: self.current_value,
            unrealized_pnl: self.unrealized_pnl,
            pnl_percent: self.pnl_percent,
        }
    }
}

/// The snapshot of a position.
pub open spec fn position_snapshot_of(position: Position) -> PositionSnapshotView {
    PositionSnapshotView {
        market_id: position.market_id@,
        token_id: position.token_id@,
        size: position.size,
        avg_price: position.avg_price,
        current_price: position.current_price,
        current_value: position.market_value,
        unrealized_pnl: position.unrealized_pnl,
        pnl_percent: position.unrealized_pnl_percent,
    }
}

impl PositionSnapshot {
    pub fn from_position(position: &Position) -> (r: Self)
        ensures
            r@ == position_snapshot_of(*position),
    {
        PositionSnapshot {
            market_id: position.market_id.clone(),
            token_id: position.token_id.clone(),
            size: position.size,
            avg_price: position.avg_price,
            current_price: position.current_price,
            current_value: position.market_value,
            unrealized_pnl: position.unrealized_pnl,
            pnl_percent: position.unrealized_pnl_percent,
        }
    }

    /// Whether the unrealized profit is above zero.
    pub fn is_profitable(&self) -> (r: bool)
        ensures
            r == self.unrealized_pnl.gt(Decimal::of(0, 0)),
    {
        self.unrealized_pnl.is_gt(Decimal::zero())
    }
}

/// An order as a strategy sees it.
#[derive(Debug)]
pub struct OrderSnapshot {
    pub order_id: String,
    pub market_id: String,
    pub token_id: String,
    pub side: OrderSide,
    pub price: Decimal,
    pub original_size: Decimal,
    pub remaining_size: Decimal,
    pub filled_size: Decimal,
    pub status: OrderStatus,
    pub created_at: Timestamp,
}

/// An order snapshot as a value.
pub struct OrderSnapshotView {
    pub order_id: Seq<char>,
    pub market_id: Seq<char>,
    pub token_id: Seq<char>,
    pub side: OrderSide,
    pub price: Decimal,
    pub original_size: Decimal,
    pub remaining_size: Decimal,
    pub filled_size: Decimal,
    pub status: OrderStatus,
    pub created_at: Timestamp,
}

impl View for OrderSnapshot {
    type V = OrderSnapshotView;

    open spec fn view(&self) -> OrderSnapshotView {
        OrderSnapshotView {
            order_id: self.order_id@,
            market_id: self.market_id@,
            token_id: self.token_id@,
            side: self.side,
            price: self.price,
            original_size: self.original_size,
            remaining_size: self.remaining_size,
            filled_size: self.filled_size,
            status: self.status,
            created_at: self.created_at,
        }
    }
}

impl Clone for OrderSnapshot {
    fn clone(&self) -> (r: Self)
        ensures
            r@ == self@,
    {
        OrderSnapshot {
            order_id: self.order_id.clone(),
            market_id: self.market_id.clone(),
            token_id: self.token_id.clone(),
            side: self.side,
            price: self.price,
            original_size: self.original_size,
            remaining_size: self.remaining_size,
            filled_size: self.filled_size,
            status: self.status,
            created_at: self.created_at,
        }
    }
}

/// The snapshot of an order.
pub open spec fn order_snapshot_of(order: Order) -> OrderSnapshotView {
    OrderSnapshotView {
        order_id: order.id@,
        market_id: order.market_id@,
        token_id: order.token_id@,
        side: order.side,
        price: order.price,
        original_size: order.original_size,
        remaining_size: order.remaining_size,
        filled_size: order.filled_size,
        status: order.status,
        created_at: order.created_at,
    }
}

impl OrderSnapshot {
    pub fn from_order(order: &Order) -> (r: Self)
        ensures
            r@ == order_snapshot_of(*order),
    {
        OrderSnapshot {
            order_id: order.id.clone(),
            market_id: order.market_id.clone(),
            token_id: order.token_id.clone(),
            side: order.side,
            price: order.price,
            original_size: order.original_size,
            remaining_size: order.remaining_size,
            filled_size: order.filled_size,
            status: order.status,
            created_at: order.created_at,
        }
    }

    /// Whether the order can still be filled.
    pub fn is_open(&self) -> (r: bool)
        ensures
            r == self.status.is_active(),
    {
        self.status.is_active()
    }

    /// How much of the order is filled, in percent.
    pub fn fill_percent(&self) -> (r: Option<Decimal>)
        ensures
            r == fill_percent_of(self.filled_size, self.original_size),
    {
        crate::state::order_state::fill_percent(self.filled_size, self.original_size)
    }
}

/// The prices of the last `k` points, added up from the latest backwards.
pub open spec fn recent_sum(history: Seq<PricePoint>, k: nat) -> Option<Decimal>
    decreases k,
{
    if k == 0 {
        Some(Decimal::of(0, 0))
    } else {
        match recent_sum(history, (k - 1) as nat) {
            Some(acc) => sum(acc, history[history.len() - k].price),
            None => None,
        }
    }
}

/// The prices of the first `k` points, added up from the oldest forwards.
pub open spec fn front_sum(history: Seq<PricePoint>, k: nat) -> Option<Decimal>
    decreases k,
{
    if k == 0 {
        Some(Decimal::of(0, 0))
    } else {
        match front_sum(history, (k - 1) as nat) {
            Some(acc) => sum(acc, history[k - 1].price),
            None => None,
        }
    }
}

/// The simple moving average: the mean of the latest `periods` prices.
pub open spec fn sma_of(history: Seq<PricePoint>, periods: usize) -> Option<Decimal> {
    if history.len() < periods {
        None
    } else {
        match recent_sum(history, periods as nat) {
            Some(s) => quotient(s, Decimal::of(periods as int, 0)),
            None => None,
        }
    }
}

/// The seed of the exponential moving average: the mean of the first
/// `periods` prices.
pub open spec fn ema_seed(history: Seq<PricePoint>, periods: usize) -> Option<Decimal> {
    match front_sum(history, periods as nat) {
        Some(s) => quotient(s, Decimal::of(periods as int, 0)),
        None => None,
    }
}

/// The smoothing factor `2 / (periods + 1)`.
pub open spec fn ema_multiplier(periods: usize) -> Option<Decimal> {
    if periods == usize::MAX {
        None
    } else {
        quotient(Decimal::of(2, 0), Decimal::of(periods + 1, 0))
    }
}

/// One smoothing step: `(price - ema) * multiplier + ema`.
pub open spec fn ema_step(ema: Decimal, price: Decimal, multiplier: Decimal) -> Option<Decimal> {
    match decimal_difference(price, ema) {
        Some(d) => match decimal_product(d, multiplier) {
            Some(p) => sum(p, ema),
            None => None,
        },
        None => None,
    }
}

/// The average after the first `n` points: the seed, smoothed over every
/// point after the first `periods`.
pub open spec fn ema_walk(history: Seq<PricePoint>, periods: usize, multiplier: Decimal, n: nat) -> Option<
    Decimal,
>
    decreases n,
{
    if n <= periods {
        ema_seed(history, periods)
    } else {
        match ema_walk(history, periods, multiplier, (n - 1) as nat) {
            Some(ema) => ema_step(ema, history[n - 1].price, multiplier),
            None => None,
        }
    }
}

/// The exponential moving average over `periods`.
pub open spec fn ema_of(history: Seq<PricePoint>, periods: usize) -> Option<Decimal> {
    if history.len() < periods {
        None
    } else {
        match ema_multiplier(periods) {
            Some(m) => ema_walk(history, periods, m, history.len()),
            None => None,
        }
    }
}

/// The relative change from the price `periods` points before the latest to
/// the latest.
pub open spec fn price_change_of(history: Seq<PricePoint>, periods: usize) -> Option<Decimal> {
    if history.len() <= periods {
        None
    } else {
        let current = history[history.len() - 1].price;
        let past = history[history.len() - 1 - periods].price;
        if past.is_zero() {
            None
        } else {
            match decimal_difference(current, past) {
                Some(d) => decimal_quotient(d, past),
                None => None,
            }
        }
    }
}

proof fn lemma_recent_sum_none(history: Seq<PricePoint>, k: nat, n: nat)
    requires
        k <= n,
        recent_sum(history, k) is None,
    ensures
        recent_sum(history, n) is None,
    decreases n,
{
    if k < n {
        lemma_recent_sum_none(history, k, (n - 1) as nat);
    }
}

proof fn lemma_front_sum_none(history: Seq<PricePoint>, k: nat, n: nat)
    requires
        k <= n,
        front_sum(history, k) is None,
    ensures
        front_sum(history, n) is None,
    decreases n,
{
    if k < n {
        lemma_front_sum_none(history, k, (n - 1) as nat);
    }
}

proof fn lemma_ema_walk_none(history: Seq<PricePoint>, periods: usize, m: Decimal, k: nat, n: nat)
    requires
        k <= n,
        ema_walk(history, periods, m, k) is None,
    ensures
        ema_walk(history, periods, m, n) is None,
    decreases n,
{
    if k < n {
        lemma_ema_walk_none(history, periods, m, k, (n - 1) as nat);
    }
}

/// The sum of the first `k` prices looks at no later point.
pub proof fn lemma_front_sum_prefix(history: Seq<PricePoint>, other: Seq<PricePoint>, k: nat)
    requires
        k <= history.len(),
        k <= other.len(),
        history.take(k as int) == other.take(k as int),
    ensures
        front_sum(history, k) == front_sum(other, k),
    decreases k,
{
    if k > 0 {
        assert(history.take((k - 1) as int) =~= history.take(k as int).take((k - 1) as int));
        assert(other.take((k - 1) as int) =~= other.take(k as int).take((k - 1) as int));
        lemma_front_sum_prefix(history, other, (k - 1) as nat);
        assert(history[k - 1] == history.take(k as int)[k - 1]);
        assert(other[k - 1] == other.take(k as int)[k - 1]);
    }
}

/// A history shorter than the period has no exponential moving average.
pub proof fn lemma_ema_needs_history(history: Seq<PricePoint>, periods: usize)
    requires
        history.len() < periods,
    ensures
        ema_of(history, periods) is None,
{
}

/// The exponential moving average starts from the mean of the first
/// `periods` prices: over a history of just that length it is that mean,
/// and two histories that agree on their first `periods` points have the
/// same seed, whatever their latest prices are.
pub proof fn lemma_ema_seeded_by_first_points(
    history: Seq<PricePoint>,
    other: Seq<PricePoint>,
    periods: usize,
)
    requires
        periods <= history.len(),
        periods <= other.len(),
        history.take(periods as int) == other.take(periods as int),
    ensures
        ema_seed(history, periods) == ema_seed(other, periods),
        ema_multiplier(periods) is Some && history.len() == periods ==> ema_of(history, periods)
            == ema_seed(history, periods),
{
    lemma_front_sum_prefix(history, other, periods as nat);
}

fn sum_recent(history: &Vec<PricePoint>, periods: usize) -> (r: Option<Decimal>)
    requires
        periods <= history@.len(),
    ensures
        r == recent_sum(history@, periods as nat),
{
    let n = history.len();
    let mut acc = Decimal::zero();
    let mut k: usize = 0;
    while k < periods
        invariant
            k <= periods <= n == history@.len(),
            recent_sum(history@, k as nat) == Some(acc),
        decreases periods - k,
    {
        match acc.checked_add(history[n - 1 - k].price) {
            Some(next) => {
                acc = next;
            },
            None => {
                proof {
                    lemma_recent_sum_none(history@, (k + 1) as nat, periods as nat);
                }
                return None;
            },
        }
        k += 1;
    }
    Some(acc)
}

fn sum_front(history: &Vec<PricePoint>, periods: usize) -> (r: Option<Decimal>)
    requires
        periods <= history@.len(),
    ensures
        r == front_sum(history@, periods as nat),
{
    let mut acc = Decimal::zero();
    let mut k: usize = 0;
    while k < periods
        invariant
            k <= periods <= history@.len(),
            front_sum(history@, k as nat) == Some(acc),
        decreases periods - k,
    {
        match acc.checked_add(history[k].price) {
            Some(next) => {
                acc = next;
            },
            None => {
                proof {
                    lemma_front_sum_none(history@, (k + 1) as nat, periods as nat);
                }
                return None;
            },
        }
        k += 1;
    }
    Some(acc)
}

/// The simple moving average of a history.
pub fn sma(history: &Vec<PricePoint>, periods: usize) -> (r: Option<Decimal>)
    ensures
        r == sma_of(history@, periods),
{
    if history.len() < periods {
        return None;
    }
    match sum_recent(history, periods) {
        Some(s) => s.checked_div(Decimal::from_usize(periods)),
        None => None,
    }
}

fn smooth(ema: Decimal, price: Decimal, multiplier: Decimal) -> (r: Option<Decimal>)
    ensures
        r == ema_step(ema, price, multiplier),
{
    match price.checked_sub(ema) {
        Some(d) => match d.checked_mul(multiplier) {
            Some(p) => p.checked_add(ema),
            None => None,
        },
        None => None,
    }
}

/// The exponential moving average of a history.
pub fn ema(history: &Vec<PricePoint>, periods: usize) -> (r: Option<Decimal>)
    ensures
        r == ema_of(history@, periods),
{
    let n = history.len();
    if n < periods {
        return None;
    }
    if periods == usize::MAX {
        return None;
    }
    let multiplier = match Decimal::two().checked_div(Decimal::from_usize(periods + 1)) {
        Some(m) => m,
        None => {
            return None;
        },
    };
    let seed = match sum_front(history, periods) {
        Some(s) => s.checked_div(Decimal::from_usize(periods)),
        None => None,
    };
    let mut ema = match seed {
        Some(e) => e,
        None => {
            proof {
                lemma_ema_walk_none(history@, periods, multiplier, periods as nat, n as nat);
            }
            return None;
        },
    };
    let mut i: usize = periods;
    while i < n
        invariant
            periods <= i <= n == history@.len(),
            ema_multiplier(periods) == Some(multiplier),
            ema_walk(history@, periods, multiplier, i as nat) == Some(ema),
        decreases n - i,
    {
        match smooth(ema, history[i].price, multiplier) {
            Some(next) => {
                ema = next;
            },
            None => {
                proof {
                    lemma_ema_walk_none(history@, periods, multiplier, (i + 1) as nat, n as nat);
                }
                return None;
            },
        }
        i += 1;
    }
    Some(ema)
}

/// The relative price change over the last `periods` points of a history.
pub fn price_change(history: &Vec<PricePoint>, periods: usize) -> (r: Option<Decimal>)
    ensures
        r == price_change_of(history@, periods),
{
    let n = history.len();
    if n <= periods {
        return None;
    }
    let current = history[n - 1].price;
    let past = history[n - 1 - periods].price;
    if past.is_zero() {
        return None;
    }
    match current.checked_sub(past) {
        Some(d) => d.checked_div(past),
        None => None,
    }
}

/// The values of the first `n` positions, added up in order.
pub open spec fn exposure(positions: Seq<(Seq<char>, PositionSnapshot)>, n: nat) -> Option<Decimal>
    decreases n,
{
    if n == 0 {
        Some(Decimal::of(0, 0))
    } else {
        match exposure(positions, (n - 1) as nat) {
            Some(acc) => sum(acc, positions[n - 1].1.current_value),
            None => None,
        }
    }
}

proof fn lemma_exposure_none(positions: Seq<(Seq<char>, PositionSnapshot)>, k: nat, n: nat)
    requires
        k <= n,
        exposure(positions, k) is None,
    ensures
        exposure(positions, n) is None,
    decreases n,
{
    if k < n {
        lemma_exposure_none(positions, k, (n - 1) as nat);
    }
}

/// The values of the first `n` positions in `market`, added up in order.
pub open spec fn market_exposure(
    positions: Seq<(Seq<char>, PositionSnapshot)>,
    market: Seq<char>,
    n: nat,
) -> Option<Decimal>
    decreases n,
{
    if n == 0 {
        Some(Decimal::of(0, 0))
    } else {
        match market_exposure(positions, market, (n - 1) as nat) {
            Some(acc) => if positions[n - 1].1.market_id@ == market {
                sum(acc, positions[n - 1].1.current_value)
            } else {
                Some(acc)
            },
            None => None,
        }
    }
}

proof fn lemma_market_exposure_none(
    positions: Seq<(Seq<char>, PositionSnapshot)>,
    market: Seq<char>,
    k: nat,
    n: nat,
)
    requires
        k <= n,
        market_exposure(positions, market, k) is None,
    ensures
        market_exposure(positions, market, n) is None,
    decreases n,
{
    if k < n {
        lemma_market_exposure_none(positions, market, k, (n - 1) as nat);
    }
}

/// Whether some position of size above zero is in `market`.
pub open spec fn holds_market(positions: Seq<(Seq<char>, PositionSnapshot)>, market: Seq<char>) -> bool {
    exists|i: int|
        0 <= i < positions.len() && (#[trigger] positions[i]).1.market_id@ == market
            && positions[i].1.size.gt(Decimal::of(0, 0))
}

/// Whether two lists of entries hold the same keys with the same values, in
/// the same order.
pub open spec fn same_markets(
    a: Seq<(Seq<char>, MarketSnapshot)>,
    b: Seq<(Seq<char>, MarketSnapshot)>,
) -> bool {
    related(a, b, |x: MarketSnapshot, y: MarketSnapshot| x@ == y@)
}

/// As [`same_markets`], for positions.
pub open spec fn same_positions(
    a: Seq<(Seq<char>, PositionSnapshot)>,
    b: Seq<(Seq<char>, PositionSnapshot)>,
) -> bool {
    related(a, b, |x: PositionSnapshot, y: PositionSnapshot| x@ == y@)
}

/// As [`same_markets`], for orders.
pub open spec fn same_orders(
    a: Seq<(Seq<char>, OrderSnapshot)>,
    b: Seq<(Seq<char>, OrderSnapshot)>,
) -> bool {
    related(a, b, |x: OrderSnapshot, y: OrderSnapshot| x@ == y@)
}

/// As [`same_markets`], for price histories.
pub open spec fn same_histories(
    a: Seq<(Seq<char>, Vec<PricePoint>)>,
    b: Seq<(Seq<char>, Vec<PricePoint>)>,
) -> bool {
    related(a, b, |x: Vec<PricePoint>, y: Vec<PricePoint>| x@ == y@)
}

/// The markets a strategy is shown: those on a non-empty include list, less
/// those on the exclude list.
pub open spec fn shown_markets(
    markets: Seq<(Seq<char>, MarketSnapshot)>,
    only: Seq<String>,
    except: Seq<String>,
) -> Seq<(Seq<char>, MarketSnapshot)> {
    let included = if only.len() > 0 {
        select(markets, only, true)
    } else {
        markets
    };
    if except.len() > 0 {
        select(included, except, false)
    } else {
        included
    }
}

/// The latest of `markets[..n]` with the id `key`.
pub open spec fn market_with_id(markets: Seq<Market>, key: Seq<char>, n: nat) -> Option<Market>
    decreases n,
{
    if n == 0 {
        None
    } else if markets[n - 1].id@ == key {
        Some(markets[n - 1])
    } else {
        market_with_id(markets, key, (n - 1) as nat)
    }
}

/// The latest of `positions[..n]` with the token `key`.
pub open spec fn position_with_token(positions: Seq<Position>, key: Seq<char>, n: nat) -> Option<
    Position,
>
    decreases n,
{
    if n == 0 {
        None
    } else if positions[n - 1].token_id@ == key {
        Some(positions[n - 1])
    } else {
        position_with_token(positions, key, (n - 1) as nat)
    }
}

/// The latest of `orders[..n]` with the id `key`.
pub open spec fn order_with_id(orders: Seq<Order>, key: Seq<char>, n: nat) -> Option<Order>
    decreases n,
{
    if n == 0 {
        None
    } else if orders[n - 1].id@ == key {
        Some(orders[n - 1])
    } else {
        order_with_id(orders, key, (n - 1) as nat)
    }
}

/// Whether every one of `markets[..n]` has a snapshot.
pub open spec fn all_have_snapshots(markets: Seq<Market>, n: nat) -> bool {
    forall|i: int| 0 <= i < n ==> (#[trigger] snapshot_of(markets[i])) is Some
}

/// The market values of `positions[..n]`, added up in order.
pub open spec fn positions_value(positions: Seq<Position>, n: nat) -> Option<Decimal>
    decreases n,
{
    if n == 0 {
        Some(Decimal::of(0, 0))
    } else {
        match positions_value(positions, (n - 1) as nat) {
            Some(acc) => sum(acc, positions[n - 1].market_value),
            None => None,
        }
    }
}

proof fn lemma_positions_value_none(positions: Seq<Position>, k: nat, n: nat)
    requires
        k <= n,
        positions_value(positions, k) is None,
    ensures
        positions_value(positions, n) is None,
    decreases n,
{
    if k < n {
        lemma_positions_value_none(positions, k, (n - 1) as nat);
    }
}

/// The value of a portfolio: its positions, then the balance.
pub open spec fn portfolio_value(positions: Seq<Position>, balance: Decimal) -> Option<Decimal> {
    match positions_value(positions, positions.len()) {
        Some(v) => sum(v, balance),
        None => None,
    }
}

/// What a strategy is given for one evaluation.
#[derive(Debug)]
pub struct StrategyContext {
    /// The time of the tick.
    pub timestamp: Timestamp,
    /// Markets by condition id.
    pub markets: TextMap<MarketSnapshot>,
    /// Positions by token id.
    pub positions: TextMap<PositionSnapshot>,
    /// Orders by order id.
    pub orders: TextMap<OrderSnapshot>,
    pub available_balance: Decimal,
    pub total_value: Decimal,
    /// Price histories by condition id, oldest point first.
    pub price_history: TextMap<Vec<PricePoint>>,
}

impl StrategyContext {
    /// Whether `other` shows the same as `self`, but for the markets, which
    /// are those of `self` that `only` and `except` let through.
    pub open spec fn shown_as(&self, other: &StrategyContext, only: Seq<String>, except: Seq<String>) -> bool {
        &&& other.timestamp == self.timestamp
        &&& other.available_balance == self.available_balance
        &&& other.total_value == self.total_value
        &&& same_markets(other.markets@, shown_markets(self.markets@, only, except))
        &&& same_positions(other.positions@, self.positions@)
        &&& same_orders(other.orders@, self.orders@)
        &&& same_histories(other.price_history@, self.price_history@)
    }

    /// Whether the context is what `from_state_at` makes of the arguments.
    pub open spec fn built_from(
        &self,
        markets: Seq<Market>,
        positions: Seq<Position>,
        orders: Seq<Order>,
        balance: Decimal,
        now: Timestamp,
    ) -> bool {
        &&& self.timestamp == now
        &&& self.available_balance == balance
        &&& Some(self.total_value) == portfolio_value(positions, balance)
        &&& self.price_history@.len() == 0
        &&& forall|key: Seq<char>|
            match (
                #[trigger] lookup(self.markets@, key),
                market_with_id(markets, key, markets.len()),
            ) {
                (Some(s), Some(m)) => Some(s@) == snapshot_of(m),
                (None, None) => true,
                _ => false,
            }
        &&& forall|key: Seq<char>|
            match (
                #[trigger] lookup(self.positions@, key),
                position_with_token(positions, key, positions.len()),
            ) {
                (Some(s), Some(p)) => s@ == position_snapshot_of(p),
                (None, None) => true,
                _ => false,
            }
        &&& forall|key: Seq<char>|
            match (#[trigger] lookup(self.orders@, key), order_with_id(orders, key, orders.len())) {
                (Some(s), Some(o)) => s@ == order_snapshot_of(o),
                (None, None) => true,
                _ => false,
            }
    }

    /// An empty context stamped with the current time.
    pub fn new() -> (r: Self)
        ensures
            r.markets@.len() == 0,
            r.positions@.len() == 0,
            r.orders@.len() == 0,
            r.price_history@.len() == 0,
            r.available_balance == Decimal::of(0, 0),
            r.total_value == Decimal::of(0, 0),
    {
        Self::new_at(crate::clock::now())
    }

    /// An empty context stamped `timestamp`.
    pub fn new_at(timestamp: Timestamp) -> (r: Self)
        ensures
            r.timestamp == timestamp,
            r.markets@.len() == 0,
            r.positions@.len() == 0,
            r.orders@.len() == 0,
            r.price_history@.len() == 0,
            r.available_balance == Decimal::of(0, 0),
            r.total_value == Decimal::of(0, 0),
    {
        StrategyContext {
            timestamp,
            markets: TextMap::new(),
            positions: TextMap::new(),
            orders: TextMap::new(),
            available_balance: Decimal::zero(),
            total_value: Decimal::zero(),
            price_history: TextMap::new(),
        }
    }

    /// All markets, in order.
    pub fn markets(&self) -> (r: Vec<&MarketSnapshot>)
        ensures
            r@.len() == self.markets@.len(),
            forall|i: int| 0 <= i < r@.len() ==> *(#[trigger] r@[i]) == self.markets@[i].1,
    {
        let mut out: Vec<&MarketSnapshot> = Vec::new();
        let mut i: usize = 0;
        while i < self.markets.len()
            invariant
                i <= self.markets@.len(),
                out@.len() == i,
                forall|k: int| 0 <= k < i ==> *(#[trigger] out@[k]) == self.markets@[k].1,
            decreases self.markets@.len() - i,
        {
            out.push(self.markets.value_at(i));
            i += 1;
        }
        out
    }

    /// The active markets, in order.
    pub fn active_markets(&self) -> (r: Vec<&MarketSnapshot>)
        ensures
            r@.map_values(|m: &MarketSnapshot| *m) == self.markets@.map_values(
                |e: (Seq<char>, MarketSnapshot)| e.1,
            ).filter(|m: MarketSnapshot| m.status == MarketStatus::Active),
    {
        let ghost all = self.markets@.map_values(|e: (Seq<char>, MarketSnapshot)| e.1);
        let ghost pred = |m: MarketSnapshot| m.status == MarketStatus::Active;
        let mut out: Vec<&MarketSnapshot> = Vec::new();
        let mut i: usize = 0;
        proof {
            assert(all.take(0) =~= Seq::<MarketSnapshot>::empty());
            assert(out@.map_values(|m: &MarketSnapshot| *m) =~= all.take(0).filter(pred));
        }
        while i < self.markets.len()
            invariant
                i <= self.markets@.len(),
                all == self.markets@.map_values(|e: (Seq<char>, MarketSnapshot)| e.1),
                pred == (|m: MarketSnapshot| m.status == MarketStatus::Active),
                out@.map_values(|m: &MarketSnapshot| *m) == all.take(i as int).filter(pred),
            decreases self.markets@.len() - i,
        {
            let m = self.markets.value_at(i);
            proof {
                assert(all.take(i + 1).drop_last() =~= all.take(i as int));
                assert(all.take(i + 1).last() == *m);
                reveal(Seq::filter);
            }
            let ghost before = out@;
            if m.status == MarketStatus::Active {
                out.push(m);
                proof {
                    assert(out@.map_values(|m: &MarketSnapshot| *m) =~= before.map_values(
                        |m: &MarketSnapshot| *m,
                    ).push(*m));
                }
            }
            i += 1;
        }
        proof {
            assert(all.take(all.len() as int) =~= all);
        }
        out
    }

    /// The market with the given condition id.
    pub fn get_market(&self, condition_id: &str) -> (r: Option<&MarketSnapshot>)
        ensures
            match r {
                Some(m) => lookup(self.markets@, condition_id@) == Some(*m),
                None => lookup(self.markets@, condition_id@) is None,
            },
    {
        self.markets.get(condition_id)
    }

    /// All positions, in order.
    pub fn positions(&self) -> (r: Vec<&PositionSnapshot>)
        ensures
            r@.len() == self.positions@.len(),
            forall|i: int| 0 <= i < r@.len() ==> *(#[trigger] r@[i]) == self.positions@[i].1,
    {
        let mut out: Vec<&PositionSnapshot> = Vec::new();
        let mut i: usize = 0;
        while i < self.positions.len()
            invariant
                i <= self.positions@.len(),
                out@.len() == i,
                forall|k: int| 0 <= k < i ==> *(#[trigger] out@[k]) == self.positions@[k].1,
            decreases self.positions@.len() - i,
        {
            out.push(self.positions.value_at(i));
            i += 1;
        }
        out
    }

    /// The position in the given token.
    pub fn get_position(&self, token_id: &str) -> (r: Option<&PositionSnapshot>)
        ensures
            match r {
                Some(p) => lookup(self.positions@, token_id@) == Some(*p),
                None => lookup(self.positions@, token_id@) is None,
            },
    {
        self.positions.get(token_id)
    }

    /// Whether a position of size above zero is held in the given market.
    pub fn has_position_in_market(&self, condition_id: &str) -> (r: bool)
        ensures
            r == holds_market(self.positions@, condition_id@),
    {
        let mut i: usize = 0;
        while i < self.positions.len()
            invariant
                i <= self.positions@.len(),
                forall|k: int|
                    0 <= k < i ==> !((#[trigger] self.positions@[k]).1.market_id@ == condition_id@
                        && self.positions@[k].1.size.gt(Decimal::of(0, 0))),
            decreases self.positions@.len() - i,
        {
            let p = self.positions.value_at(i);
            if str_eq(p.market_id.as_str(), condition_id) && p.size.is_gt(Decimal::zero()) {
                return true;
            }
            i += 1;
        }
        false
    }

    /// The value of all positions.
    pub fn total_exposure(&self) -> (r: Option<Decimal>)
        ensures
            r == exposure(self.positions@, self.positions@.len()),
    {
        let n = self.positions.len();
        let mut acc = Decimal::zero();
        let mut i: usize = 0;
        while i < n
            invariant
                i <= n == self.positions@.len(),
                exposure(self.positions@, i as nat) == Some(acc),
            decreases n - i,
        {
            match acc.checked_add(self.positions.value_at(i).current_value) {
                Some(next) => {
                    acc = next;
                },
                None => {
                    proof {
                        lemma_exposure_none(self.positions@, (i + 1) as nat, n as nat);
                    }
                    return None;
                },
            }
            i += 1;
        }
        Some(acc)
    }

    /// The value of the positions in one market.
    pub fn exposure_in_market(&self, market_id: &str) -> (r: Option<Decimal>)
        ensures
            r == market_exposure(self.positions@, market_id@, self.positions@.len()),
    {
        let n = self.positions.len();
        let mut acc = Decimal::zero();
        let mut i: usize = 0;
        while i < n
            invariant
                i <= n == self.positions@.len(),
                market_exposure(self.positions@, market_id@, i as nat) == Some(acc),
            decreases n - i,
        {
            let p = self.positions.value_at(i);
            if str_eq(p.market_id.as_str(), market_id) {
                match acc.checked_add(p.current_value) {
                    Some(next) => {
                        acc = next;
                    },
                    None => {
                        proof {
                            lemma_market_exposure_none(
                                self.positions@,
                                market_id@,
                                (i + 1) as nat,
                                n as nat,
                            );
                        }
                        return None;
                    },
                }
            }
            i += 1;
        }
        Some(acc)
    }

    /// The orders that can still be filled, in order.
    pub fn open_orders(&self) -> (r: Vec<&OrderSnapshot>)
        ensures
            r@.map_values(|o: &OrderSnapshot| *o) == self.orders@.map_values(
                |e: (Seq<char>, OrderSnapshot)| e.1,
            ).filter(|o: OrderSnapshot| o.status.is_active()),
    {
        let ghost all = self.orders@.map_values(|e: (Seq<char>, OrderSnapshot)| e.1);
        let ghost pred = |o: OrderSnapshot| o.status.is_active();
        let mut out: Vec<&OrderSnapshot> = Vec::new();
        let mut i: usize = 0;
        proof {
            assert(all.take(0) =~= Seq::<OrderSnapshot>::empty());
            assert(out@.map_values(|o: &OrderSnapshot| *o) =~= all.take(0).filter(pred));
        }
        while i < self.orders.len()
            invariant
                i <= self.orders@.len(),
                all == self.orders@.map_values(|e: (Seq<char>, OrderSnapshot)| e.1),
                pred == (|o: OrderSnapshot| o.status.is_active()),
                out@.map_values(|o: &OrderSnapshot| *o) == all.take(i as int).filter(pred),
            decreases self.orders@.len() - i,
        {
            let o = self.orders.value_at(i);
            proof {
                assert(all.take(i + 1).drop_last() =~= all.take(i as int));
                assert(all.take(i + 1).last() == *o);
                reveal(Seq::filter);
            }
            let ghost before = out@;
            if o.is_open() {
                out.push(o);
                proof {
                    assert(out@.map_values(|o: &OrderSnapshot| *o) =~= before.map_values(
                        |o: &OrderSnapshot| *o,
                    ).push(*o));
                }
            }
            i += 1;
        }
        proof {
            assert(all.take(all.len() as int) =~= all);
        }
        out
    }

    /// The orders in the given market, in order.
    pub fn orders_for_market(&self, condition_id: &str) -> (r: Vec<&OrderSnapshot>)
        ensures
            r@.map_values(|o: &OrderSnapshot| *o) == self.orders@.map_values(
                |e: (Seq<char>, OrderSnapshot)| e.1,
            ).filter(|o: OrderSnapshot| o.market_id@ == condition_id@),
    {
        let ghost all = self.orders@.map_values(|e: (Seq<char>, OrderSnapshot)| e.1);
        let ghost pred = |o: OrderSnapshot| o.market_id@ == condition_id@;
        let mut out: Vec<&OrderSnapshot> = Vec::new();
        let mut i: usize = 0;
        proof {
            assert(all.take(0) =~= Seq::<OrderSnapshot>::empty());
            assert(out@.map_values(|o: &OrderSnapshot| *o) =~= all.take(0).filter(pred));
        }
        while i < self.orders.len()
            invariant
                i <= self.orders@.len(),
                all == self.orders@.map_values(|e: (Seq<char>, OrderSnapshot)| e.1),
                pred == (|o: OrderSnapshot| o.market_id@ == condition_id@),
                out@.map_values(|o: &OrderSnapshot| *o) == all.take(i as int).filter(pred),
            decreases self.orders@.len() - i,
        {
            let o = self.orders.value_at(i);
            proof {
                assert(all.take(i + 1).drop_last() =~= all.take(i as int));
                assert(all.take(i + 1).last() == *o);
                reveal(Seq::filter);
            }
            let ghost before = out@;
            if str_eq(o.market_id.as_str(), condition_id) {
                out.push(o);
                proof {
                    assert(out@.map_values(|o: &OrderSnapshot| *o) =~= before.map_values(
                        |o: &OrderSnapshot| *o,
                    ).push(*o));
                }
            }
            i += 1;
        }
        proof {
            assert(all.take(all.len() as int) =~= all);
        }
        out
    }

    /// The price history of the given market.
    pub fn get_price_history(&self, condition_id: &str) -> (r: Option<&Vec<PricePoint>>)
        ensures
            match r {
                Some(h) => lookup(self.price_history@, condition_id@) == Some(*h),
                None => lookup(self.price_history@, condition_id@) is None,
            },
    {
        self.price_history.get(condition_id)
    }

    /// The simple moving average of the given market's prices.
    pub open spec fn spec_sma(&self, condition_id: Seq<char>, periods: usize) -> Option<Decimal> {
        match lookup(self.price_history@, condition_id) {
            Some(h) => sma_of(h@, periods),
            None => None,
        }
    }

    /// The simple moving average of the given market: the mean of its
    /// latest `periods` prices; no value where the history is shorter.
    pub fn sma(&self, condition_id: &str, periods: usize) -> (r: Option<Decimal>)
        ensures
            r == self.spec_sma(condition_id@, periods),
    {
        match self.price_history.get(condition_id) {
            Some(h) => sma(h, periods),
            None => None,
        }
    }

    /// The exponential moving average of the given market's prices.
    pub open spec fn spec_ema(&self, condition_id: Seq<char>, periods: usize) -> Option<Decimal> {
        match lookup(self.price_history@, condition_id) {
            Some(h) => ema_of(h@, periods),
            None => None,
        }
    }

    /// The exponential moving average of the given market: seeded with the
    /// mean of the first `periods` prices, then smoothed by
    /// `2 / (periods + 1)` over every later price; no value where the
    /// history is shorter than `periods`.
    pub fn ema(&self, condition_id: &str, periods: usize) -> (r: Option<Decimal>)
        ensures
            r == self.spec_ema(condition_id@, periods),
    {
        match self.price_history.get(condition_id) {
            Some(h) => ema(h, periods),
            None => None,
        }
    }

    /// The price of the `token_index`-th outcome of the given market.
    pub fn latest_price(&self, condition_id: &str, token_index: usize) -> (r: Option<Decimal>)
        ensures
            r == match lookup(self.markets@, condition_id@) {
                Some(m) => if token_index < m.token_prices@.len() {
                    Some(m.token_prices@[token_index as int])
                } else {
                    None
                },
                None => None,
            },
    {
        match self.markets.get(condition_id) {
            Some(m) => if token_index < m.token_prices.len() {
                Some(m.token_prices[token_index])
            } else {
                None
            },
            None => None,
        }
    }

    /// The relative price change of the given market over `periods` points.
    pub fn price_change(&self, condition_id: &str, periods: usize) -> (r: Option<Decimal>)
        ensures
            r == match lookup(self.price_history@, condition_id@) {
                Some(h) => price_change_of(h@, periods),
                None => None,
            },
    {
        match self.price_history.get(condition_id) {
            Some(h) => price_change(h, periods),
            None => None,
        }
    }

    /// A copy for one strategy: the markets on its non-empty include list,
    /// less those on its exclude list; everything else as it is.
    pub fn filtered(&self, only: &Vec<String>, except: &Vec<String>) -> (r: Self)
        ensures
            self.shown_as(&r, only@, except@),
    {
        let mut markets = self.markets.clone();
        let positions = self.positions.clone();
        let orders = self.orders.clone();
        let price_history = self.price_history.clone();
        let ghost same_m = |x: MarketSnapshot, y: MarketSnapshot| x@ == y@;
        proof {
            assert(related(markets@, self.markets@, same_m));
            assert(same_positions(positions@, self.positions@));
            assert(same_orders(orders@, self.orders@));
            assert(same_histories(price_history@, self.price_history@));
        }
        if only.len() > 0 {
            let ghost before = markets@;
            markets.retain_listed(only, true);
            proof {
                lemma_select_related(before, self.markets@, same_m, only@, true);
            }
        }
        if except.len() > 0 {
            let ghost before = markets@;
            let ghost included = if only@.len() > 0 {
                select(self.markets@, only@, true)
            } else {
                self.markets@
            };
            markets.retain_listed(except, false);
            proof {
                lemma_select_related(before, included, same_m, except@, false);
            }
        }
        StrategyContext {
            timestamp: self.timestamp,
            markets,
            positions,
            orders,
            available_balance: self.available_balance,
            total_value: self.total_value,
            price_history,
        }
    }

    /// The context of a tick at the current time.
    pub fn from_state(markets: &[Market], positions: &[Position], orders: &[Order], balance: Decimal) -> (r:
        Option<Self>)
        ensures
            match r {
                Some(ctx) => ctx.built_from(markets@, positions@, orders@, balance, ctx.timestamp),
                None => !all_have_snapshots(markets@, markets@.len()) || portfolio_value(
                    positions@,
                    balance,
                ) is None,
            },
    {
        Self::from_state_at(markets, positions, orders, balance, crate::clock::now())
    }

    /// The context of a tick at `now`: a snapshot of every market, position
    /// and order, a later one replacing an earlier one of the same id, and
    /// the portfolio's value. There is none where a market has no snapshot
    /// or the value leaves the range.
    pub fn from_state_at(
        markets: &[Market],
        positions: &[Position],
        orders: &[Order],
        balance: Decimal,
        now: Timestamp,
    ) -> (r: Option<Self>)
        ensures
            match r {
                Some(ctx) => ctx.built_from(markets@, positions@, orders@, balance, now),
                None => !all_have_snapshots(markets@, markets@.len()) || portfolio_value(
                    positions@,
                    balance,
                ) is None,
            },
    {
        let mut market_map: TextMap<MarketSnapshot> = TextMap::new();
        let mut i: usize = 0;
        while i < markets.len()
            invariant
                i <= markets@.len(),
                all_have_snapshots(markets@, i as nat),
                forall|key: Seq<char>|
                    match (
                        #[trigger] lookup(market_map@, key),
                        market_with_id(markets@, key, i as nat),
                    ) {
                        (Some(s), Some(m)) => Some(s@) == snapshot_of(m),
                        (None, None) => true,
                        _ => false,
                    },
            decreases markets@.len() - i,
        {
            let snapshot = match MarketSnapshot::from_market(&markets[i]) {
                Some(s) => s,
                None => {
                    return None;
                },
            };
            let ghost before = market_map@;
            let n = market_map.len();
            market_map.insert(markets[i].id.clone(), snapshot);
            proof {
                lemma_put(before, markets@[i as int].id@, snapshot);
                assert forall|key: Seq<char>|
                    match (
                        #[trigger] lookup(market_map@, key),
                        market_with_id(markets@, key, (i + 1) as nat),
                    ) {
                        (Some(s), Some(m)) => Some(s@) == snapshot_of(m),
                        (None, None) => true,
                        _ => false,
                    } by {
                    if key != markets@[i as int].id@ {
                        assert(lookup(market_map@, key) == lookup(before, key));
                    }
                }
            }
            i += 1;
        }
        let mut position_map: TextMap<PositionSnapshot> = TextMap::new();
        let mut total = Decimal::zero();
        let mut j: usize = 0;
        while j < positions.len()
            invariant
                j <= positions@.len(),
                positions_value(positions@, j as nat) == Some(total),
                forall|key: Seq<char>|
                    match (
                        #[trigger] lookup(position_map@, key),
                        position_with_token(positions@, key, j as nat),
                    ) {
                        (Some(s), Some(p)) => s@ == position_snapshot_of(p),
                        (None, None) => true,
                        _ => false,
                    },
            decreases positions@.len() - j,
        {
            let snapshot = PositionSnapshot::from_position(&positions[j]);
            match total.checked_add(snapshot.current_value) {
                Some(t) => {
                    total = t;
                },
                None => {
                    proof {
                        lemma_positions_value_none(
                            positions@,
                            (j + 1) as nat,
                            positions@.len() as nat,
                        );
                    }
                    return None;
                },
            }
            let ghost before = position_map@;
            let n = position_map.len();
            position_map.insert(positions[j].token_id.clone(), snapshot);
            proof {
                lemma_put(before, positions@[j as int].token_id@, snapshot);
                assert forall|key: Seq<char>|
                    match (
                        #[trigger] lookup(position_map@, key),
                        position_with_token(positions@, key, (j + 1) as nat),
                    ) {
                        (Some(s), Some(p)) => s@ == position_snapshot_of(p),
                        (None, None) => true,
                        _ => false,
                    } by {
                    if key != positions@[j as int].token_id@ {
                        assert(lookup(position_map@, key) == lookup(before, key));
                    }
                }
            }
            j += 1;
        }
        let total_value = match total.checked_add(balance) {
            Some(t) => t,
            None => {
                return None;
            },
        };
        let mut order_map: TextMap<OrderSnapshot> = TextMap::new();
        let mut k: usize = 0;
        while k < orders.len()
            invariant
                k <= orders@.len(),
                forall|key: Seq<char>|
                    match (
                        #[trigger] lookup(order_map@, key),
                        order_with_id(orders@, key, k as nat),
                    ) {
                        (Some(s), Some(o)) => s@ == order_snapshot_of(o),
                        (None, None) => true,
                        _ => false,
                    },
            decreases orders@.len() - k,
        {
            let snapshot = OrderSnapshot::from_order(&orders[k]);
            let ghost before = order_map@;
            let n = order_map.len();
            order_map.insert(orders[k].id.clone(), snapshot);
            proof {
                lemma_put(before, orders@[k as int].id@, snapshot);
                assert forall|key: Seq<char>|
                    match (
                        #[trigger] lookup(order_map@, key),
                        order_with_id(orders@, key, (k + 1) as nat),
                    ) {
                        (Some(s), Some(o)) => s@ == order_snapshot_of(o),
                        (None, None) => true,
                        _ => false,
                    } by {
                    if key != orders@[k as int].id@ {
                        assert(lookup(order_map@, key) == lookup(before, key));
                    }
                }
            }
            k += 1;
        }
        Some(
            StrategyContext {
                timestamp: now,
                markets: market_map,
                positions: position_map,
                orders: order_map,
                available_balance: balance,
                total_value,
                price_history: TextMap::new(),
            },
        )
    }
}

impl Default for StrategyContext {
    fn default() -> (r: Self)
        ensures
            r.markets@.len() == 0,
            r.positions@.len() == 0,
            r.orders@.len() == 0,
            r.price_history@.len() == 0,
            r.available_balance == Decimal::of(0, 0),
            r.total_value == Decimal::of(0, 0),
    {
        Self::new()
    }
}

} // verus!
