//! Where new food appears.

use rand::Rng;
use vstd::prelude::*;
use crate::point::{Cell, Point};
use crate::rules::{in_grid, GRID_X_SIZE, GRID_Y_SIZE};

verus! {

/// Calls `rand::thread_rng().gen_range(0..bound)`: a number drawn uniformly
/// from `0..bound` by the thread's generator. All that is claimed is that the
/// number lies in that range. An empty range makes the call panic, hence the
/// precondition.
#[verifier::external_body]
fn random_below(bound: u32) -> (drawn: u32)
    requires
        bound > 0,
    ensures
        drawn < bound,
{
    rand::thread_rng().gen_range(0..bound)
}

/// A position on the grid, its column and its row drawn independently.
pub fn random_food() -> (food: Point)
    ensures
        in_grid(food@),
{
    let x: u32 = random_below(GRID_X_SIZE);
    let y: u32 = random_below(GRID_Y_SIZE);
    food_at(x, y)
}

/// The position in column `column` and row `row`. This is what turns two
/// drawn numbers into food: it lies on the grid exactly when the column is
/// below the grid's width and the row below its height.
pub fn food_at(column: u32, row: u32) -> (food: Point)
    requires
        column <= i32::MAX,
        row <= i32::MAX,
    ensures
        food@ == (Cell { x: column as int, y: row as int }),
        in_grid(food@) <==> column < GRID_X_SIZE && row < GRID_Y_SIZE,
{
    Point(column as i32, row as i32)
}

} // verus!
