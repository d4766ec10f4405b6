//! The pricing model: instruments, gear rows, and the buy/sell side
//! derivations.
//!
//! Fixed-point conventions:
//! - a starting price, a gear and a grid spacing carry three decimal
//!   places (a stored `1000` stands for `1.0`);
//! - a buy price is the exact product of a starting price and a gear and
//!   so carries six decimal places (`1_000_000` stands for `1.0`), as do
//!   the trigger prices derived from it (the 0.005 trigger tick is
//!   `5000`);
//! - a share count carries three decimal places (`10_000_000` stands for
//!   10000 shares);
//! - the buy money, a price times a share count scaled back by one
//!   thousand, carries six decimal places.

use vstd::prelude::*;

use crate::rounding::div_round;
use crate::rounding::round_div;
use crate::rounding::round_to_hundred;
use crate::rounding::round_to_hundred_spec;

verus! {

/// One configured instrument: its identity, starting point, and the three
/// grid spacings a report builds ladders for.
pub struct GTableConfig {
    pub name: String,
    pub code: String,
    /// Starting price, three decimal places.
    pub start_price: u64,
    /// Starting share count, three decimal places.
    pub start_numbers: u64,
    /// The three grid spacings, three decimal places each, in (0, 1).
    pub small_grid: u64,
    pub medium_grid: u64,
    pub large_grid: u64,
}

/// An instrument stripped to what the pricing model reads: its identity
/// and the gear-zero price and share count.
pub struct GTable {
    pub name: String,
    pub code: String,
    /// Starting price, three decimal places.
    pub start_price: u64,
    /// Starting share count, three decimal places.
    pub start_numbers: u64,
}

/// One gear of a ladder: the fractional price level, the buy price at
/// that level, and the lot-rounded share count to buy there.
#[derive(Clone, Copy)]
pub struct GRow {
    /// Price level relative to 1.0 at gear index 0; three decimal places.
    pub gear: u64,
    /// `start_price * gear`, exactly; six decimal places.
    pub buy_price: u64,
    /// Lot-rounded share count; three decimal places.
    pub buy_numbers: u64,
}

/// The gear at index `n` for spacing `grid`: `1 - n * grid`, in
/// thousandths.
pub open spec fn gear_at(n: int, grid: int) -> int {
    1000 - n * grid
}

/// The buy price at gear index `n`: the starting price scaled by the
/// gear. The product of two three-decimal values, so six decimal places —
/// exact, never rounded.
pub open spec fn buy_price_at(start_price: int, n: int, grid: int) -> int {
    start_price * gear_at(n, grid)
}

/// The share count at gear index `n` before lot rounding: the count that
/// makes the invested money at this gear equal
/// `start_price * start_numbers * (1 + n * grid)`. The starting price
/// cancels out of that ratio, leaving
/// `start_numbers * (1 + n * grid) / gear`, rounded to the nearest
/// thousandth of a share.
pub open spec fn raw_buy_numbers_at(start_numbers: int, n: int, grid: int) -> int {
    round_div(start_numbers * (1000 + n * grid), gear_at(n, grid))
}

/// The share count at gear index `n`: the raw count snapped to a round
/// lot.
pub open spec fn buy_numbers_at(start_numbers: int, n: int, grid: int) -> int {
    round_to_hundred_spec(raw_buy_numbers_at(start_numbers, n, grid))
}

/// The fraction of a position sold per step, in thousandths: the grid
/// spacing itself, except that a spacing of 0.10 or below is doubled —
/// thin grids sell a larger fraction to compensate for smaller price
/// moves.
pub open spec fn effective_spacing(grid: int) -> int {
    if grid > 100 {
        grid
    } else {
        2 * grid
    }
}

/// The sell price one spacing above a row's gear:
/// `buy_price * (gear + grid) / gear`, rounded to the nearest millionth.
pub open spec fn sell_price_spec(row: GRow, grid: int) -> int {
    round_div(row.buy_price * (row.gear + grid), row.gear as int)
}

/// The share count to sell from a row: the bought count reduced by the
/// effective spacing, then snapped to a round lot.
pub open spec fn sell_numbers_spec(row: GRow, grid: int) -> int {
    round_to_hundred_spec(round_div(row.buy_numbers * (1000 - effective_spacing(grid)), 1000))
}

impl GTable {
    /// Copy the identity and starting point out of a configuration.
    pub fn new(config: &GTableConfig) -> (table: GTable)
        ensures
            table.name@ == config.name@,
            table.code@ == config.code@,
            table.start_price == config.start_price,
            table.start_numbers == config.start_numbers,
    {
        GTable {
            name: config.name.clone(),
            code: config.code.clone(),
            start_price: config.start_price,
            start_numbers: config.start_numbers,
        }
    }

    /// The row at gear index `n` for spacing `grid`: gear, exact buy
    /// price, and lot-rounded buy count. The index must keep the gear
    /// positive — the ladder builder's stopping rule guarantees that for
    /// its callers — and the starting values must be small enough that
    /// the products fit the fixed-point arithmetic.
    pub fn nth_row(&self, n: u32, grid: u64) -> (row: GRow)
        requires
            0 < grid < 1000,
            n * grid < 1000,
            self.start_price <= 1_000_000_000_000_000,
            self.start_numbers <= 1_000_000_000_000_000,
        ensures
            row.gear == gear_at(n as int, grid as int),
            row.buy_price == buy_price_at(self.start_price as int, n as int, grid as int),
            row.buy_numbers == buy_numbers_at(self.start_numbers as int, n as int, grid as int),
    {
        let step: u64 = (n as u64) * grid;
        let gear: u64 = 1000 - step;
        proof {
            assert(self.start_price * gear <= 1_000_000_000_000_000 * 1000) by (nonlinear_arith)
                requires
                    self.start_price <= 1_000_000_000_000_000,
                    gear <= 1000,
            ;
            assert(self.start_numbers * (1000 + step) <= 1_000_000_000_000_000 * 2000)
                by (nonlinear_arith)
                requires
                    self.start_numbers <= 1_000_000_000_000_000,
                    step < 1000,
            ;
        }
        let buy_price: u64 = self.start_price * gear;
        let raw: u64 = div_round(self.start_numbers * (1000 + step), gear);
        GRow { gear, buy_price, buy_numbers: round_to_hundred(raw) }
    }
}

impl GRow {
    /// Assemble a row directly from its parts. No invariant is checked:
    /// this construction path deliberately accepts arbitrary values.
    pub fn new(gear: u64, buy_price: u64, buy_numbers: u64) -> (row: GRow)
        ensures
            row.gear == gear,
            row.buy_price == buy_price,
            row.buy_numbers == buy_numbers,
    {
        GRow { gear, buy_price, buy_numbers }
    }

    /// The sell price one spacing above this row's gear.
    pub fn sell_price(&self, grid: u64) -> (r: u64)
        requires
            self.gear > 0,
            self.gear + grid <= u64::MAX,
            self.buy_price * (self.gear + grid) + self.gear / 2 <= u64::MAX,
        ensures
            r == sell_price_spec(*self, grid as int),
    {
        div_round(self.buy_price * (self.gear + grid), self.gear)
    }

    /// The lot-rounded share count to sell from this row.
    pub fn sell_numbers(&self, grid: u64) -> (r: u64)
        requires
            0 < grid < 1000,
            self.buy_numbers <= 1_000_000_000_000_000,
        ensures
            r == sell_numbers_spec(*self, grid as int),
    {
        let t: u64 = if grid > 100 {
            grid
        } else {
            2 * grid
        };
        proof {
            assert(self.buy_numbers * (1000 - t) <= 1_000_000_000_000_000 * 1000)
                by (nonlinear_arith)
                requires
                    self.buy_numbers <= 1_000_000_000_000_000,
                    t < 1000,
            ;
        }
        let kept: u64 = div_round(self.buy_numbers * (1000 - t), 1000);
        round_to_hundred(kept)
    }

    /// The buy order's trigger price: one 0.005 tick above the buy price.
    pub fn buy_trigger_price(&self) -> (r: u64)
        requires
            self.buy_price + 5000 <= u64::MAX,
        ensures
            r == self.buy_price + 5000,
    {
        self.buy_price + 5000
    }

    /// The money spent buying this row: buy price times share count,
    /// scaled back to six decimal places.
    pub fn buy_money(&self) -> (r: u64)
        requires
            self.buy_price * self.buy_numbers + 500 <= u64::MAX,
        ensures
            r == round_div((self.buy_price * self.buy_numbers) as int, 1000),
    {
        div_round(self.buy_price * self.buy_numbers, 1000)
    }

    /// The sell order's trigger price: one 0.005 tick below the sell
    /// price. The model holds non-negative prices only, so the sell price
    /// must cover the tick.
    pub fn sell_trigger_price(&self, grid: u64) -> (r: u64)
        requires
            self.gear > 0,
            self.gear + grid <= u64::MAX,
            self.buy_price * (self.gear + grid) + self.gear / 2 <= u64::MAX,
            sell_price_spec(*self, grid as int) >= 5000,
        ensures
            r == sell_price_spec(*self, grid as int) - 5000,
    {
        self.sell_price(grid) - 5000
    }
}

/// The money invariant of the pricing model: at gear index `n`, the exact
/// pre-rounding share count is the ratio
/// `start_numbers * (1000 + n * grid) / gear_at(n, grid)`, and multiplying
/// it by the buy price gives exactly
/// `start_price * start_numbers * (1 + n * grid)` — invested money grows
/// linearly with the gear index. Stated multiplied through by the gear so
/// that every term is an integer; lot rounding afterwards perturbs it.
pub proof fn lemma_money_invariant(start_price: int, start_numbers: int, n: int, grid: int)
    ensures
        buy_price_at(start_price, n, grid) * (start_numbers * (1000 + n * grid)) == (start_price
            * start_numbers * (1000 + n * grid)) * gear_at(n, grid),
{
    let g = gear_at(n, grid);
    let w = 1000 + n * grid;
    assert((start_price * g) * (start_numbers * w) == (start_price * start_numbers * w) * g)
        by (nonlinear_arith);
}

/// A sell beats its buy: for a positive spacing, the sell price is
/// strictly above the buy price whenever the gain covers the rounding
/// step — `buy_price * grid` plus half a gear must reach one gear (for a
/// one-thousandth buy price and above this always holds; a row such as
/// gear 1000, buy price 1, grid 1 falls under the rounding and is left
/// out).
pub proof fn lemma_sell_price_exceeds_buy_price(row: GRow, grid: int)
    requires
        row.gear > 0,
        grid > 0,
        row.buy_price * grid + (row.gear as int) / 2 >= row.gear,
    ensures
        sell_price_spec(row, grid) > row.buy_price,
{
    let q = row.gear as int;
    let total = row.buy_price * (row.gear + grid) + q / 2;
    assert(total >= (row.buy_price + 1) * q) by (nonlinear_arith)
        requires
            row.buy_price * grid + q / 2 >= q,
            total == row.buy_price * (row.gear + grid) + q / 2,
            q == row.gear as int,
    ;
    vstd::arithmetic::div_mod::lemma_div_is_ordered((row.buy_price + 1) * q, total, q);
    vstd::arithmetic::div_mod::lemma_div_multiples_vanish(row.buy_price + 1 as int, q);
    assert(q * (row.buy_price + 1) == (row.buy_price + 1) * q) by (nonlinear_arith);
}

} // verus!
