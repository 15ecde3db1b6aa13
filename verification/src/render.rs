//! What a game looks like: the squares and colours of one frame.

use vstd::prelude::*;
use crate::game::GameContext;
use crate::point::{Cell, Point};
use crate::rules::{GameState, Snapshot, GRID_X_SIZE, GRID_Y_SIZE};

verus! {

/// Side of a grid cell on the screen, in pixels.
pub const DOT_SIZE_IN_PXS: u32 = 20;

/// An opaque colour: red, green, blue.
#[derive(Copy, Clone, Debug, PartialEq, Eq, Structural)]
pub struct Rgb(pub u8, pub u8, pub u8);

/// A filled square on the screen: its top left corner and its side, in pixels.
#[derive(Copy, Clone, Debug, PartialEq, Eq, Structural)]
pub struct Dot {
    pub x: i32,
    pub y: i32,
    pub side: u32,
}

/// All that is drawn for one frame, in drawing order.
pub struct Frame {
    /// Fills the whole window.
    pub background: Rgb,
    pub player_color: Rgb,
    /// One square per segment of the snake, head first.
    pub player: Vec<Dot>,
    pub food_color: Rgb,
    pub food: Dot,
}

/// The pixel coordinates of the cell's square fit in `i32`.
pub open spec fn drawable(cell: Cell) -> bool {
    &&& i32::MIN <= cell.x * DOT_SIZE_IN_PXS <= i32::MAX
    &&& i32::MIN <= cell.y * DOT_SIZE_IN_PXS <= i32::MAX
}

/// The square that shows a cell: the cell's coordinates scaled by the dot
/// size, one dot wide and high.
pub open spec fn dot_of(cell: Cell) -> Dot {
    Dot {
        x: (cell.x * DOT_SIZE_IN_PXS) as i32,
        y: (cell.y * DOT_SIZE_IN_PXS) as i32,
        side: DOT_SIZE_IN_PXS,
    }
}

/// The background of a game in that state: black while playing, dark grey
/// while paused.
pub open spec fn background_of(state: GameState) -> Rgb {
    match state {
        GameState::Playing => Rgb(0, 0, 0),
        GameState::Paused => Rgb(30, 30, 30),
    }
}

/// Every segment and the food can be drawn.
pub open spec fn all_drawable(s: Snapshot) -> bool {
    &&& drawable(s.food)
    &&& forall|i: int| 0 <= i < s.body.len() ==> drawable(#[trigger] s.body[i])
}

/// Width and height of the window that shows the whole grid, in pixels.
pub fn window_size() -> (size: (u32, u32))
    ensures
        size.0 == GRID_X_SIZE * DOT_SIZE_IN_PXS,
        size.1 == GRID_Y_SIZE * DOT_SIZE_IN_PXS,
        size == (800u32, 600u32),
{
    (GRID_X_SIZE * DOT_SIZE_IN_PXS, GRID_Y_SIZE * DOT_SIZE_IN_PXS)
}

/// The background colour for a game in `state`.
pub fn background_color(state: &GameState) -> (color: Rgb)
    ensures
        color == background_of(*state),
{
    match state {
        GameState::Playing => Rgb(0, 0, 0),
        GameState::Paused => Rgb(30, 30, 30),
    }
}

/// Whether the square that shows `point` has pixel coordinates in `i32`.
pub fn can_draw(point: &Point) -> (ok: bool)
    ensures
        ok == drawable(point@),
{
    let reach: i32 = i32::MAX / (DOT_SIZE_IN_PXS as i32);
    -reach <= point.0 && point.0 <= reach && -reach <= point.1 && point.1 <= reach
}

/// Whether `frame` can be called on `context`.
pub fn can_draw_all(context: &GameContext) -> (ok: bool)
    ensures
        ok == all_drawable(context@),
{
    if !can_draw(&context.food) {
        return false;
    }
    let mut i: usize = 0;
    while i < context.player_position.len()
        invariant
            i <= context.player_position.len(),
            forall|j: int| 0 <= j < i ==> drawable(#[trigger] context@.body[j]),
        decreases context.player_position.len() - i,
    {
        if !can_draw(&context.player_position[i]) {
            assert(!drawable(context@.body[i as int]));
            return false;
        }
        i += 1;
    }
    true
}

/// The square that shows `point`.
pub fn dot(point: &Point) -> (square: Dot)
    requires
        drawable(point@),
    ensures
        square == dot_of(point@),
        square.x == point@.x * 20,
        square.y == point@.y * 20,
        square.side == 20,
{
    Dot {
        x: point.0 * (DOT_SIZE_IN_PXS as i32),
        y: point.1 * (DOT_SIZE_IN_PXS as i32),
        side: DOT_SIZE_IN_PXS,
    }
}

/// The frame that shows `context`: the background by run state, the snake in
/// green, one square per segment in body order, and the food in red.
pub fn frame(context: &GameContext) -> (frame: Frame)
    requires
        all_drawable(context@),
    ensures
        frame.background == background_of(context.state),
        frame.player_color == Rgb(0, 255, 0),
        frame.food_color == Rgb(255, 0, 0),
        frame.food == dot_of(context@.food),
        frame.player@ == context@.body.map_values(|c: Cell| dot_of(c)),
{
    let mut player: Vec<Dot> = Vec::new();
    let mut i: usize = 0;
    while i < context.player_position.len()
        invariant
            i <= context.player_position.len(),
            all_drawable(context@),
            player@.len() == i,
            forall|j: int| 0 <= j < i ==> #[trigger] player@[j] == dot_of(context@.body[j]),
        decreases context.player_position.len() - i,
    {
        assert(drawable(context@.body[i as int]));
        player.push(dot(&context.player_position[i]));
        i += 1;
    }
    assert(player@ =~= context@.body.map_values(|c: Cell| dot_of(c)));
    Frame {
        background: background_color(&context.state),
        player_color: Rgb(0, 255, 0),
        player,
        food_color: Rgb(255, 0, 0),
        food: dot(&context.food),
    }
}

/// A game that satisfies the invariant can always be drawn.
pub proof fn lemma_valid_is_drawable(s: Snapshot)
    requires
        s.valid(),
    ensures
        all_drawable(s),
{
}

} // verus!
