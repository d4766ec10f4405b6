//! The ladder builder: the ordered sequence of gear rows for one
//! instrument and one grid spacing.

use vstd::prelude::*;

use crate::table::GRow;
use crate::table::GTable;
use crate::table::buy_numbers_at;
use crate::table::buy_price_at;
use crate::table::gear_at;

verus! {

/// Build the ladder for `table` and spacing `grid`, taking gear indices
/// `start_index`, `start_index + 1`, ... in order. A running gear
/// tracker starts at 1.0 and steps down by the spacing after each row;
/// the loop continues while the tracker is strictly above `gear_floor`,
/// and a candidate row whose own gear has fallen below the floor is not
/// emitted. Both checks are honored: with a positive `start_index` the
/// tracker and the rows' gears deliberately differ.
///
/// The result is pinned down exactly: row `i` is the model's row at gear
/// index `start_index + i`, every emitted row's gear is at least the
/// floor, the gears fall strictly, a row is present for exactly the
/// indices at which the tracker had not yet reached the floor, and the
/// ladder ends only when one of the two stopping rules fires.
pub fn build_ladder(table: &GTable, grid: u64, start_index: u32, gear_floor: u64) -> (rows: Vec<
    GRow,
>)
    requires
        0 < grid < 1000,
        0 < gear_floor < 1000,
        table.start_price <= 1_000_000_000_000_000,
        table.start_numbers <= 1_000_000_000_000_000,
    ensures
        forall|i: int|
            0 <= i < rows@.len() ==> {
                &&& (#[trigger] rows@[i]).gear == gear_at(start_index + i, grid as int)
                &&& rows@[i].buy_price == buy_price_at(
                    table.start_price as int,
                    start_index + i,
                    grid as int,
                )
                &&& rows@[i].buy_numbers == buy_numbers_at(
                    table.start_numbers as int,
                    start_index + i,
                    grid as int,
                )
                &&& rows@[i].gear >= gear_floor
            },
        forall|i: int| 0 <= i < rows@.len() ==> 1000 - #[trigger] (i * grid) > gear_floor,
        forall|i: int, j: int|
            0 <= i < j < rows@.len() ==> (#[trigger] rows@[i]).gear > (#[trigger] rows@[j]).gear,
        1000 - rows@.len() * grid <= gear_floor || 1000 - (start_index + rows@.len()) * grid
            < gear_floor,
{
    let mut rows: Vec<GRow> = Vec::new();
    let mut index: u32 = start_index;
    let mut gear: i64 = 1000;
    while gear > gear_floor as i64
        invariant
            0 < grid < 1000,
            0 < gear_floor < 1000,
            table.start_price <= 1_000_000_000_000_000,
            table.start_numbers <= 1_000_000_000_000_000,
            index == start_index + rows@.len(),
            gear == 1000 - rows@.len() * grid,
            forall|i: int|
                0 <= i < rows@.len() ==> {
                    &&& (#[trigger] rows@[i]).gear == gear_at(start_index + i, grid as int)
                    &&& rows@[i].buy_price == buy_price_at(
                        table.start_price as int,
                        start_index + i,
                        grid as int,
                    )
                    &&& rows@[i].buy_numbers == buy_numbers_at(
                        table.start_numbers as int,
                        start_index + i,
                        grid as int,
                    )
                    &&& rows@[i].gear >= gear_floor
                },
            forall|i: int| 0 <= i < rows@.len() ==> 1000 - #[trigger] (i * grid) > gear_floor,
        ensures
            index == start_index + rows@.len(),
            1000 - rows@.len() * grid <= gear_floor || 1000 - (start_index + rows@.len()) * grid
                < gear_floor,
        decreases 1000 - rows@.len(),
    {
        proof {
            assert((index as int) * (grid as int) <= 0xFFFF_FFFF * 1000) by (nonlinear_arith)
                requires
                    index <= 0xFFFF_FFFF,
                    grid <= 1000,
            ;
        }
        let step: u64 = (index as u64) * grid;
        if step + gear_floor > 1000 {
            break;
        }
        proof {
            assert(index <= step) by (nonlinear_arith)
                requires
                    grid >= 1,
                    step == index * grid,
            ;
        }
        let row = table.nth_row(index, grid);
        let ghost n0 = rows@.len() as int;
        rows.push(row);
        index = index + 1;
        gear = gear - (grid as i64);
        proof {
            assert((n0 + 1) * grid == n0 * grid + grid) by (nonlinear_arith);
            assert(n0 <= n0 * grid) by (nonlinear_arith)
                requires
                    n0 >= 0,
                    grid >= 1,
            ;
        }
    }
    proof {
        assert forall|i: int, j: int|
            0 <= i < j < rows@.len() implies (#[trigger] rows@[i]).gear > (
        #[trigger] rows@[j]).gear by {
            assert(rows@[i].gear == gear_at(start_index + i, grid as int));
            assert(rows@[j].gear == gear_at(start_index + j, grid as int));
            assert((start_index + i) * grid < (start_index + j) * grid) by (nonlinear_arith)
                requires
                    0 <= i < j,
                    grid >= 1,
            ;
        }
    }
    rows
}

} // verus!
