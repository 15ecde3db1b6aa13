//! The rules of the game, stated over a mathematical snapshot of its state.

use vstd::prelude::*;
use crate::point::Cell;

verus! {

/// Number of columns of the grid.
pub const GRID_X_SIZE: u32 = 40;

/// Number of rows of the grid.
pub const GRID_Y_SIZE: u32 = 30;

/// Whether ticks have any effect.
#[derive(Copy, Clone, Debug, PartialEq, Eq, Structural)]
pub enum GameState {
    Playing,
    Paused,
}

/// The direction in which the head moves at the next tick.
#[derive(Copy, Clone, Debug, PartialEq, Eq, Structural)]
pub enum PlayerDirection {
    Up,
    Down,
    Right,
    Left,
}

/// What a single tick does to the game. Exactly one of these applies.
#[derive(Copy, Clone, Debug, PartialEq, Eq, Structural)]
pub enum TickOutcome {
    /// The game is paused: nothing changes.
    Idle,
    /// The head would step onto the segment right behind it: nothing changes.
    Blocked,
    /// The head would step onto the snake: the snake respawns.
    Reset,
    /// The snake moves by one cell and keeps its length.
    Advance,
    /// The snake moves onto the food and gains one segment.
    Grow,
}

/// The unit step of a direction. Rows grow downwards.
pub open spec fn direction_vector(direction: PlayerDirection) -> Cell {
    match direction {
        PlayerDirection::Up => Cell { x: 0, y: -1 },
        PlayerDirection::Down => Cell { x: 0, y: 1 },
        PlayerDirection::Right => Cell { x: 1, y: 0 },
        PlayerDirection::Left => Cell { x: -1, y: 0 },
    }
}

/// A coordinate brought back from outside `[0, size)`: one that fell below
/// zero becomes `size`, one that reached `size` or more becomes zero.
pub open spec fn wrap(coordinate: int, size: int) -> int {
    if coordinate < 0 {
        size
    } else if coordinate >= size {
        0
    } else {
        coordinate
    }
}

/// Where the head goes from `head` in `direction`: one step along the
/// direction's axis, wrapped on that axis; the other coordinate is kept.
pub open spec fn next_head(head: Cell, direction: PlayerDirection) -> Cell {
    let stepped = head.plus(direction_vector(direction));
    match direction {
        PlayerDirection::Up | PlayerDirection::Down => Cell {
            x: stepped.x,
            y: wrap(stepped.y, GRID_Y_SIZE as int),
        },
        PlayerDirection::Right | PlayerDirection::Left => Cell {
            x: wrap(stepped.x, GRID_X_SIZE as int),
            y: stepped.y,
        },
    }
}

/// The three segments with which the snake starts and respawns, head first.
pub open spec fn initial_body() -> Seq<Cell> {
    seq![Cell { x: 3, y: 1 }, Cell { x: 2, y: 1 }, Cell { x: 1, y: 1 }]
}

/// The cell lies on the grid proper.
pub open spec fn in_grid(cell: Cell) -> bool {
    0 <= cell.x < GRID_X_SIZE && 0 <= cell.y < GRID_Y_SIZE
}

/// Longest body that the invariant admits: short enough for every segment to
/// be drawn with `i32` pixel coordinates.
pub open spec fn length_limit() -> int {
    100_000_000
}

/// The whole state of a game as mathematical values.
pub ghost struct Snapshot {
    /// The snake's segments, head first.
    pub body: Seq<Cell>,
    pub direction: PlayerDirection,
    pub food: Cell,
    pub state: GameState,
}

impl Snapshot {
    /// The state in which every game starts: the initial body, heading
    /// right, paused.
    pub open spec fn initial(food: Cell) -> Snapshot {
        Snapshot {
            body: initial_body(),
            direction: PlayerDirection::Right,
            food,
            state: GameState::Paused,
        }
    }

    /// The cell that the head would move to.
    pub open spec fn target(self) -> Cell {
        next_head(self.body[0], self.direction)
    }

    /// What the next tick will do. The segment behind the head is looked at
    /// first, then the whole body, then the food.
    pub open spec fn outcome(self) -> TickOutcome {
        if self.state is Paused {
            TickOutcome::Idle
        } else if self.target() == self.body[1] {
            TickOutcome::Blocked
        } else if self.body.contains(self.target()) {
            TickOutcome::Reset
        } else if self.food == self.target() {
            TickOutcome::Grow
        } else {
            TickOutcome::Advance
        }
    }

    /// The body after one step forward: the target in front, the last
    /// segment gone.
    pub open spec fn moved_body(self) -> Seq<Cell> {
        self.body.drop_last().insert(0, self.target())
    }

    /// The moved body with one more segment, placed one step behind its last
    /// segment, against the direction of travel.
    pub open spec fn grown_body(self) -> Seq<Cell> {
        let moved = self.moved_body();
        moved.push(moved.last().plus(direction_vector(self.direction).negated()))
    }

    /// The state after one tick. `fresh_food` is where the food goes if this
    /// tick eats the present one; otherwise it plays no part.
    pub open spec fn tick(self, fresh_food: Cell) -> Snapshot {
        match self.outcome() {
            TickOutcome::Idle | TickOutcome::Blocked => self,
            TickOutcome::Reset => Snapshot { body: initial_body(), ..self },
            TickOutcome::Advance => Snapshot { body: self.moved_body(), ..self },
            TickOutcome::Grow => Snapshot { body: self.grown_body(), food: fresh_food, ..self },
        }
    }

    /// The state after a direction command.
    pub open spec fn turned(self, direction: PlayerDirection) -> Snapshot {
        Snapshot { direction, ..self }
    }

    /// The state after a pause command.
    pub open spec fn toggled(self) -> Snapshot {
        Snapshot {
            state: match self.state {
                GameState::Playing => GameState::Paused,
                GameState::Paused => GameState::Playing,
            },
            ..self
        }
    }

    /// The state after one tick for each cell of `foods`, in order, each tick
    /// with its cell as the place for new food.
    pub open spec fn after_ticks(self, foods: Seq<Cell>) -> Snapshot
        decreases foods.len(),
    {
        if foods.len() == 0 {
            self
        } else {
            self.after_ticks(foods.drop_last()).tick(foods.last())
        }
    }

    /// The state after the direction commands `directions`, in order.
    pub open spec fn steered(self, directions: Seq<PlayerDirection>) -> Snapshot
        decreases directions.len(),
    {
        if directions.len() == 0 {
            self
        } else {
            self.steered(directions.drop_last()).turned(directions.last())
        }
    }

    /// There is a segment behind the head, and the head's step stays in the
    /// range of `i32`.
    pub open spec fn steppable(self) -> bool {
        &&& self.body.len() >= 2
        &&& self.body[0].plus(direction_vector(self.direction)).fits()
    }

    /// What a tick needs in order to be computed in `i32`. A paused game
    /// needs nothing. A running one needs a segment behind the head, a step
    /// from the head that stays in the range of `i32`, and, if the tick
    /// grows the snake, a new segment in that range.
    pub open spec fn tickable(self) -> bool {
        self.state is Playing ==> {
            &&& self.steppable()
            &&& self.outcome() is Grow ==> self.grown_body().last().fits()
        }
    }

    /// The invariant of a game in play: at least three segments, the food on
    /// the grid, the head within the grid's edges (both inclusive), and the
    /// segment at index `i` at most `i` cells outside them.
    pub open spec fn valid(self) -> bool {
        &&& 3 <= self.body.len() <= length_limit()
        &&& in_grid(self.food)
        &&& forall|i: int|
            0 <= i < self.body.len() ==> {
                &&& -i <= (#[trigger] self.body[i]).x <= GRID_X_SIZE + i
                &&& -i <= self.body[i].y <= GRID_Y_SIZE + i
            }
    }
}

} // verus!
