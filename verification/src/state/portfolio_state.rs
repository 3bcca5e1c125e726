//! Balances and positions.

use vstd::prelude::*;
use crate::clock::Timestamp;
use crate::decimal::{Decimal, decimal_difference, decimal_product, sum};
use crate::text::str_eq;
use crate::state::orderbook_state::percent_of;

verus! {

/// The balance of one asset.
#[derive(Debug, Clone)]
pub struct Balance {
    pub asset: String,
    pub total: Decimal,
    pub available: Decimal,
    /// What is tied up in orders: `total - available`.
    pub locked: Decimal,
}

impl Balance {
    /// The balance of `asset`; `None` where `total - available` leaves the
    /// range.
    pub fn new(asset: &str, total: Decimal, available: Decimal) -> (r: Option<Self>)
        ensures
            match r {
                Some(b) => b.asset@ == asset@ && b.total == total && b.available == available
                    && Some(b.locked) == decimal_difference(total, available),
                None => decimal_difference(total, available) is None,
            },
    {
        match total.checked_sub(available) {
            Some(locked) => Some(Self { asset: asset.to_owned(), total, available, locked }),
            None => None,
        }
    }
}

/// A position in one outcome.
#[derive(Debug, Clone)]
pub struct Position {
    pub market_id: String,
    pub market_question: String,
    pub token_id: String,
    pub outcome_name: String,
    pub size: Decimal,
    pub avg_price: Decimal,
    pub current_price: Decimal,
    pub unrealized_pnl: Decimal,
    pub unrealized_pnl_percent: Decimal,
    pub realized_pnl: Decimal,
    pub cost_basis: Decimal,
    pub market_value: Decimal,
}

/// The four figures that follow from size and prices.
pub struct Pnl {
    pub market_value: Decimal,
    pub cost_basis: Decimal,
    pub unrealized_pnl: Decimal,
    /// `None` where the cost basis is zero: the percentage then stays as it
    /// was.
    pub unrealized_pnl_percent: Option<Decimal>,
}

/// Market value, cost basis and unrealized profit of a position.
pub open spec fn pnl_of(size: Decimal, avg_price: Decimal, current_price: Decimal) -> Option<Pnl> {
    match (decimal_product(size, current_price), decimal_product(size, avg_price)) {
        (Some(market_value), Some(cost_basis)) => match decimal_difference(
            market_value,
            cost_basis,
        ) {
            Some(unrealized_pnl) => if cost_basis.is_zero() {
                Some(Pnl { market_value, cost_basis, unrealized_pnl, unrealized_pnl_percent: None })
            } else {
                match percent_of(unrealized_pnl, cost_basis) {
                    Some(p) => Some(
                        Pnl {
                            market_value,
                            cost_basis,
                            unrealized_pnl,
                            unrealized_pnl_percent: Some(p),
                        },
                    ),
                    None => None,
                }
            },
            None => None,
        },
        _ => None,
    }
}

impl Position {
    /// The position with the given figures; unchanged where there are none.
    pub open spec fn with_pnl(self, pnl: Option<Pnl>) -> Position {
        match pnl {
            Some(p) => Position {
                market_value: p.market_value,
                cost_basis: p.cost_basis,
                unrealized_pnl: p.unrealized_pnl,
                unrealized_pnl_percent: match p.unrealized_pnl_percent {
                    Some(x) => x,
                    None => self.unrealized_pnl_percent,
                },
                ..self
            },
            None => self,
        }
    }

    /// Recomputes market value, cost basis and unrealized profit from size
    /// and prices. Returns whether the figures could be computed; where they
    /// could not, nothing changes.
    pub fn calculate_pnl(&mut self) -> (r: bool)
        ensures
            r == pnl_of(old(self).size, old(self).avg_price, old(self).current_price).is_some(),
            *final(self) == old(self).with_pnl(
                pnl_of(old(self).size, old(self).avg_price, old(self).current_price),
            ),
    {
        let market_value = match self.size.checked_mul(self.current_price) {
            Some(v) => v,
            None => {
                return false;
            },
        };
        let cost_basis = match self.size.checked_mul(self.avg_price) {
            Some(v) => v,
            None => {
                return false;
            },
        };
        let unrealized_pnl = match market_value.checked_sub(cost_basis) {
            Some(v) => v,
            None => {
                return false;
            },
        };
        if !cost_basis.is_zero() {
            let percent = match unrealized_pnl.checked_div(cost_basis) {
                Some(q) => q.checked_mul(Decimal::one_hundred()),
                None => None,
            };
            match percent {
                Some(p) => {
                    self.unrealized_pnl_percent = p;
                },
                None => {
                    return false;
                },
            }
        }
        self.market_value = market_value;
        self.cost_basis = cost_basis;
        self.unrealized_pnl = unrealized_pnl;
        true
    }

    /// Whether the unrealized profit is above zero.
    pub fn is_profitable(&self) -> (r: bool)
        ensures
            r == self.unrealized_pnl.gt(Decimal::of(0, 0)),
    {
        self.unrealized_pnl.is_gt(Decimal::zero())
    }
}

/// The portfolio: balances, positions and their totals.
#[derive(Debug, Clone)]
pub struct PortfolioState {
    pub balances: Vec<Balance>,
    pub positions: Vec<Position>,
    pub total_value: Decimal,
    pub total_unrealized_pnl: Decimal,
    pub total_realized_pnl: Decimal,
    pub selected_position: Option<usize>,
    pub loading: bool,
    pub last_updated: Option<Timestamp>,
    pub scroll_offset: usize,
}

impl Default for PortfolioState {
    fn default() -> (r: Self)
        ensures
            r.balances@.len() == 0,
            r.positions@.len() == 0,
            r.total_value == Decimal::of(0, 0),
            r.total_unrealized_pnl == Decimal::of(0, 0),
            r.total_realized_pnl == Decimal::of(0, 0),
            r.selected_position is None,
            !r.loading,
            r.last_updated is None,
            r.scroll_offset == 0,
    {
        PortfolioState {
            balances: Vec::new(),
            positions: Vec::new(),
            total_value: Decimal::zero(),
            total_unrealized_pnl: Decimal::zero(),
            total_realized_pnl: Decimal::zero(),
            selected_position: None,
            loading: false,
            last_updated: None,
            scroll_offset: 0,
        }
    }
}

/// The figure `of` of the first `n` positions, added up in order: the
/// unrealized profit (`of` 0), the realized profit (1) or the market value.
pub open spec fn positions_total(positions: Seq<Position>, of: u8, n: nat) -> Option<Decimal>
    decreases n,
{
    if n == 0 {
        Some(Decimal::of(0, 0))
    } else {
        match positions_total(positions, of, (n - 1) as nat) {
            Some(acc) => sum(
                acc,
                if of == 0 {
                    positions[n - 1].unrealized_pnl
                } else if of == 1 {
                    positions[n - 1].realized_pnl
                } else {
                    positions[n - 1].market_value
                },
            ),
            None => None,
        }
    }
}

/// The totals of the first `n` balances, added up in order.
pub open spec fn balances_total(balances: Seq<Balance>, n: nat) -> Option<Decimal>
    decreases n,
{
    if n == 0 {
        Some(Decimal::of(0, 0))
    } else {
        match balances_total(balances, (n - 1) as nat) {
            Some(acc) => sum(acc, balances[n - 1].total),
            None => None,
        }
    }
}

proof fn lemma_positions_total_none(positions: Seq<Position>, of: u8, k: nat, n: nat)
    requires
        k <= n,
        positions_total(positions, of, k) is None,
    ensures
        positions_total(positions, of, n) is None,
    decreases n,
{
    if k < n {
        lemma_positions_total_none(positions, of, k, (n - 1) as nat);
    }
}

proof fn lemma_balances_total_none(balances: Seq<Balance>, k: nat, n: nat)
    requires
        k <= n,
        balances_total(balances, k) is None,
    ensures
        balances_total(balances, n) is None,
    decreases n,
{
    if k < n {
        lemma_balances_total_none(balances, k, (n - 1) as nat);
    }
}

fn total_of_positions(positions: &Vec<Position>, of: u8) -> (r: Option<Decimal>)
    ensures
        r == positions_total(positions@, of, positions@.len()),
{
    let n = positions.len();
    let mut acc = Decimal::zero();
    let mut i: usize = 0;
    while i < n
        invariant
            i <= n == positions@.len(),
            positions_total(positions@, of, i as nat) == Some(acc),
        decreases n - i,
    {
        let x = if of == 0 {
            positions[i].unrealized_pnl
        } else if of == 1 {
            positions[i].realized_pnl
        } else {
            positions[i].market_value
        };
        match acc.checked_add(x) {
            Some(next) => {
                acc = next;
            },
            None => {
                proof {
                    lemma_positions_total_none(positions@, of, (i + 1) as nat, n as nat);
                }
                return None;
            },
        }
        i += 1;
    }
    Some(acc)
}

fn total_of_balances(balances: &Vec<Balance>) -> (r: Option<Decimal>)
    ensures
        r == balances_total(balances@, balances@.len()),
{
    let n = balances.len();
    let mut acc = Decimal::zero();
    let mut i: usize = 0;
    while i < n
        invariant
            i <= n == balances@.len(),
            balances_total(balances@, i as nat) == Some(acc),
        decreases n - i,
    {
        match acc.checked_add(balances[i].total) {
            Some(next) => {
                acc = next;
            },
            None => {
                proof {
                    lemma_balances_total_none(balances@, (i + 1) as nat, n as nat);
                }
                return None;
            },
        }
        i += 1;
    }
    Some(acc)
}

/// The three totals of a portfolio: unrealized profit, realized profit, and
/// the value of positions and balances together.
pub open spec fn totals_of(positions: Seq<Position>, balances: Seq<Balance>) -> Option<
    (Decimal, Decimal, Decimal),
> {
    match (
        positions_total(positions, 0, positions.len()),
        positions_total(positions, 1, positions.len()),
        positions_total(positions, 2, positions.len()),
        balances_total(balances, balances.len()),
    ) {
        (Some(unrealized), Some(realized), Some(held), Some(cash)) => match sum(held, cash) {
            Some(value) => Some((unrealized, realized, value)),
            None => None,
        },
        _ => None,
    }
}

/// The available amount of the first balance in `asset`; zero where there
/// is none.
pub open spec fn available_of(balances: Seq<Balance>, asset: Seq<char>, n: nat) -> Decimal
    decreases balances.len() - n,
{
    if n >= balances.len() {
        Decimal::of(0, 0)
    } else if balances[n as int].asset@ == asset {
        balances[n as int].available
    } else {
        available_of(balances, asset, n + 1)
    }
}

fn pick_positions(positions: &Vec<Position>, profitable: bool) -> (r: Vec<&Position>)
    ensures
        r@.map_values(|p: &Position| *p) == positions@.filter(
            |p: Position| p.unrealized_pnl.gt(Decimal::of(0, 0)) == profitable,
        ),
{
    let ghost all = positions@;
    let ghost pred = |p: Position| p.unrealized_pnl.gt(Decimal::of(0, 0)) == profitable;
    let mut out: Vec<&Position> = Vec::new();
    let mut i: usize = 0;
    proof {
        assert(all.take(0) =~= Seq::<Position>::empty());
        assert(out@.map_values(|p: &Position| *p) =~= all.take(0).filter(pred));
    }
    while i < positions.len()
        invariant
            i <= positions@.len(),
            all == positions@,
            pred == (|p: Position| p.unrealized_pnl.gt(Decimal::of(0, 0)) == profitable),
            out@.map_values(|p: &Position| *p) == all.take(i as int).filter(pred),
        decreases positions@.len() - i,
    {
        let p = &positions[i];
        proof {
            assert(all.take(i + 1).drop_last() =~= all.take(i as int));
            assert(all.take(i + 1).last() == *p);
            reveal(Seq::filter);
        }
        let ghost before = out@;
        if p.is_profitable() == profitable {
            out.push(p);
            proof {
                assert(out@.map_values(|p: &Position| *p) =~= before.map_values(
                    |p: &Position| *p,
                ).push(*p));
            }
        }
        i += 1;
    }
    proof {
        assert(all.take(all.len() as int) =~= all);
    }
    out
}

impl PortfolioState {
    /// The selected position.
    pub fn selected_position(&self) -> (r: Option<&Position>)
        ensures
            match (self.selected_position, r) {
                (Some(i), Some(p)) => i < self.positions@.len() && *p == self.positions@[i as int],
                (Some(i), None) => i >= self.positions@.len(),
                (None, Some(_)) => false,
                (None, None) => true,
            },
    {
        match self.selected_position {
            Some(i) => if i < self.positions.len() {
                Some(&self.positions[i])
            } else {
                None
            },
            None => None,
        }
    }

    /// What is available of the first USDC balance; zero where there is
    /// none.
    pub fn available_usdc(&self) -> (r: Decimal)
        ensures
            r == available_of(self.balances@, "USDC"@, 0),
    {
        let mut i: usize = 0;
        while i < self.balances.len()
            invariant
                i <= self.balances@.len(),
                available_of(self.balances@, "USDC"@, 0) == available_of(
                    self.balances@,
                    "USDC"@,
                    i as nat,
                ),
            decreases self.balances@.len() - i,
        {
            if str_eq(self.balances[i].asset.as_str(), "USDC") {
                return self.balances[i].available;
            }
            i += 1;
        }
        Decimal::zero()
    }

    /// The portfolio with the given totals; unchanged where there are none.
    pub open spec fn with_totals(self, totals: Option<(Decimal, Decimal, Decimal)>) -> PortfolioState {
        match totals {
            Some((unrealized, realized, value)) => PortfolioState {
                total_unrealized_pnl: unrealized,
                total_realized_pnl: realized,
                total_value: value,
                ..self
            },
            None => self,
        }
    }

    /// Recomputes the three totals from positions and balances. Returns
    /// whether they could be computed; where they could not, nothing
    /// changes.
    pub fn calculate_totals(&mut self) -> (r: bool)
        ensures
            r == totals_of(old(self).positions@, old(self).balances@).is_some(),
            *final(self) == old(self).with_totals(
                totals_of(old(self).positions@, old(self).balances@),
            ),
    {
        let totals = (
            total_of_positions(&self.positions, 0),
            total_of_positions(&self.positions, 1),
            total_of_positions(&self.positions, 2),
            total_of_balances(&self.balances),
        );
        match totals {
            (Some(unrealized), Some(realized), Some(held), Some(cash)) => match held.checked_add(cash) {
                Some(value) => {
                    self.total_unrealized_pnl = unrealized;
                    self.total_realized_pnl = realized;
                    self.total_value = value;
                    true
                },
                None => false,
            },
            _ => false,
        }
    }

    /// The positions with an unrealized profit above zero, in order.
    pub fn profitable_positions(&self) -> (r: Vec<&Position>)
        ensures
            r@.map_values(|p: &Position| *p) == self.positions@.filter(
                |p: Position| p.unrealized_pnl.gt(Decimal::of(0, 0)) == true,
            ),
    {
        pick_positions(&self.positions, true)
    }

    /// The positions without an unrealized profit above zero, in order.
    pub fn losing_positions(&self) -> (r: Vec<&Position>)
        ensures
            r@.map_values(|p: &Position| *p) == self.positions@.filter(
                |p: Position| p.unrealized_pnl.gt(Decimal::of(0, 0)) == false,
            ),
    {
        pick_positions(&self.positions, false)
    }
}

} // verus!
