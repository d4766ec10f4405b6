//! Grid-trading ladders over fixed-point prices and share counts.
//!
//! All quantities are integers with a fixed number of decimal places:
//! prices, gears and grid spacings carry three (a stored `1000` is `1.0`),
//! a buy price — the exact product of a price and a gear — carries six,
//! and share counts carry three. This keeps every formula of the pricing
//! model exact, so each function's contract states its result in full.

pub mod ladder;
pub mod rounding;
pub mod table;

pub use ladder::build_ladder;
pub use rounding::round_to_hundred;
pub use table::GRow;
pub use table::GTable;
pub use table::GTableConfig;
