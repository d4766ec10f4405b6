// Tests of the ladder builder.

use griddle::GTable;
use griddle::GTableConfig;
use griddle::build_ladder;

fn table() -> GTable {
    let config = GTableConfig {
        name: "中概互联".to_string(),
        code: "513050".to_string(),
        start_price: 1_000,
        start_numbers: 10_000_000,
        small_grid: 50,
        medium_grid: 150,
        large_grid: 300,
    };
    GTable::new(&config)
}

#[test]
fn small_grid_ladder() {
    // Spacing 0.05 from index 0 with floor 0.4: the tracker passes
    // 1.0, 0.95, ..., 0.45 and stops at 0.40, so twelve rows come out.
    let rows = build_ladder(&table(), 50, 0, 400);
    assert_eq!(12, rows.len());
    assert_eq!(1_000, rows[0].gear);
    assert_eq!(1_000_000, rows[0].buy_price);
    assert_eq!(10_000_000, rows[0].buy_numbers);
    assert_eq!(950, rows[1].gear);
    assert_eq!(450, rows[11].gear);
    for pair in rows.windows(2) {
        assert!(pair[1].gear < pair[0].gear);
    }
    for row in &rows {
        assert!(row.gear >= 400);
    }
}

#[test]
fn medium_grid_ladder_starts_at_index_one() {
    // Spacing 0.15 from index 1, as the report builds it: rows at gears
    // 0.85, 0.70, 0.55, 0.40 — a gear exactly on the floor is still
    // emitted — and then the tracker (1.0, 0.85, 0.70, 0.55, 0.40)
    // reaches the floor and stops the loop.
    let rows = build_ladder(&table(), 150, 1, 400);
    assert_eq!(4, rows.len());
    assert_eq!(850, rows[0].gear);
    assert_eq!(700, rows[1].gear);
    assert_eq!(550, rows[2].gear);
    assert_eq!(400, rows[3].gear);
}

#[test]
fn large_grid_ladder_stops_on_row_gear() {
    // Spacing 0.3 from index 1 with floor 0.45: the candidate rows sit
    // at gears 0.7 and 0.4; the second falls below the floor and is not
    // emitted, though the tracker (1.0, 0.7) is still above the floor.
    let rows = build_ladder(&table(), 300, 1, 450);
    assert_eq!(1, rows.len());
    assert_eq!(700, rows[0].gear);

    // With the lower floor 0.3 the 0.4 row survives.
    let rows = build_ladder(&table(), 300, 1, 300);
    assert_eq!(2, rows.len());
    assert_eq!(700, rows[0].gear);
    assert_eq!(400, rows[1].gear);
}

#[test]
fn ladder_can_be_empty() {
    // A start index so deep that the first candidate already falls below
    // the floor produces no rows at all.
    let rows = build_ladder(&table(), 300, 3, 400);
    assert_eq!(0, rows.len());
}

#[test]
fn ladder_is_deterministic() {
    let a = build_ladder(&table(), 150, 1, 400);
    let b = build_ladder(&table(), 150, 1, 400);
    assert_eq!(a.len(), b.len());
    for (x, y) in a.iter().zip(b.iter()) {
        assert_eq!(x.gear, y.gear);
        assert_eq!(x.buy_price, y.buy_price);
        assert_eq!(x.buy_numbers, y.buy_numbers);
    }
}
