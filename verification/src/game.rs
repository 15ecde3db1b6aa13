//! The game itself: its state and the operations that change it.

use vstd::prelude::*;
use crate::food::random_food;
use crate::laws::lemma_tick_keeps_valid;
use crate::point::{Cell, Point};
use crate::rules::{
    direction_vector, in_grid, initial_body, length_limit, next_head, wrap, GameState,
    PlayerDirection, Snapshot, TickOutcome, GRID_X_SIZE, GRID_Y_SIZE,
};

verus! {

/// The cells that a sequence of points stands for.
pub open spec fn cells_of(points: Seq<Point>) -> Seq<Cell> {
    points.map_values(|p: Point| p@)
}

/// The state of one game.
pub struct GameContext {
    /// The snake's segments, head first.
    pub player_position: Vec<Point>,
    pub player_direction: PlayerDirection,
    pub food: Point,
    pub state: GameState,
}

impl View for GameContext {
    type V = Snapshot;

    open spec fn view(&self) -> Snapshot {
        Snapshot {
            body: cells_of(self.player_position@),
            direction: self.player_direction,
            food: self.food@,
            state: self.state,
        }
    }
}

/// The body with which the snake starts and respawns.
pub fn starting_body() -> (body: Vec<Point>)
    ensures
        cells_of(body@) == initial_body(),
{
    let mut body: Vec<Point> = Vec::new();
    body.push(Point(3, 1));
    body.push(Point(2, 1));
    body.push(Point(1, 1));
    assert(cells_of(body@) =~= initial_body());
    body
}

/// The unit step of `direction`.
pub fn step_of(direction: PlayerDirection) -> (step: Point)
    ensures
        step@ == direction_vector(direction),
{
    match direction {
        PlayerDirection::Up => Point(0, -1),
        PlayerDirection::Down => Point(0, 1),
        PlayerDirection::Right => Point(1, 0),
        PlayerDirection::Left => Point(-1, 0),
    }
}

/// The unit step against `direction`.
pub fn step_against(direction: PlayerDirection) -> (step: Point)
    ensures
        step@ == direction_vector(direction).negated(),
{
    match direction {
        PlayerDirection::Up => Point(0, 1),
        PlayerDirection::Down => Point(0, -1),
        PlayerDirection::Right => Point(-1, 0),
        PlayerDirection::Left => Point(1, 0),
    }
}

/// `coordinate` wrapped on an axis of `size` cells.
fn wrapped(coordinate: i32, size: u32) -> (w: i32)
    requires
        size <= i32::MAX,
    ensures
        w == wrap(coordinate as int, size as int),
{
    if coordinate < 0 {
        size as i32
    } else if coordinate >= size as i32 {
        0
    } else {
        coordinate
    }
}

impl GameContext {
    /// A new game with the food at `food`: the initial body, heading right,
    /// paused.
    pub fn with_food(food: Point) -> (game: GameContext)
        ensures
            game@ == Snapshot::initial(food@),
            in_grid(food@) ==> game@.valid(),
    {
        GameContext {
            player_position: starting_body(),
            player_direction: PlayerDirection::Right,
            food,
            state: GameState::Paused,
        }
    }

    /// A new game with the food at a random place on the grid.
    pub fn new() -> (game: GameContext)
        ensures
            game@ == Snapshot::initial(game@.food),
            in_grid(game@.food),
            game@.valid(),
    {
        let food = random_food();
        GameContext::with_food(food)
    }

    /// Whether a tick can be computed: always while paused; while playing,
    /// when there is a segment behind the head and neither the head's step
    /// nor a new last segment leaves the range of `i32`.
    pub fn can_tick(&self) -> (ok: bool)
        ensures
            ok == self@.tickable(),
    {
        match self.state {
            GameState::Paused => true,
            GameState::Playing => {
                let len = self.player_position.len();
                if len < 2 || !self.player_position[0].can_add(&step_of(self.player_direction)) {
                    return false;
                }
                match self.outcome() {
                    TickOutcome::Grow => {
                        assert(self@.moved_body().last() == self@.body[len - 2]);
                        self.player_position[len - 2].can_add(&step_against(self.player_direction))
                    },
                    _ => true,
                }
            },
        }
    }

    /// The position that the head would move to.
    pub fn next_head_position(&self) -> (target: Point)
        requires
            self@.body.len() >= 1,
            self@.body[0].plus(direction_vector(self@.direction)).fits(),
        ensures
            target@ == self@.target(),
            target@ == next_head(self@.body[0], self@.direction),
    {
        let stepped = self.player_position[0] + step_of(self.player_direction);
        match self.player_direction {
            PlayerDirection::Up | PlayerDirection::Down => {
                Point(stepped.0, wrapped(stepped.1, GRID_Y_SIZE))
            },
            PlayerDirection::Right | PlayerDirection::Left => {
                Point(wrapped(stepped.0, GRID_X_SIZE), stepped.1)
            },
        }
    }

    /// Whether a segment of the snake lies at `position`.
    pub fn occupies(&self, position: Point) -> (found: bool)
        ensures
            found == self@.body.contains(position@),
    {
        let mut i: usize = 0;
        while i < self.player_position.len()
            invariant
                i <= self.player_position.len(),
                forall|j: int| 0 <= j < i ==> cells_of(self.player_position@)[j] != position@,
            decreases self.player_position.len() - i,
        {
            if self.player_position[i] == position {
                assert(cells_of(self.player_position@)[i as int] == position@);
                return true;
            }
            i += 1;
        }
        false
    }

    /// What the next tick will do.
    pub fn outcome(&self) -> (outcome: TickOutcome)
        requires
            self.state is Playing ==> self@.steppable(),
        ensures
            outcome == self@.outcome(),
    {
        match self.state {
            GameState::Paused => {
                return TickOutcome::Idle;
            },
            GameState::Playing => {},
        }
        let target = self.next_head_position();
        if target == self.player_position[1] {
            TickOutcome::Blocked
        } else if self.occupies(target) {
            TickOutcome::Reset
        } else if self.food == target {
            TickOutcome::Grow
        } else {
            TickOutcome::Advance
        }
    }

    /// Advances the game by one tick; if the tick eats the food, the next
    /// food is placed at `fresh_food`.
    pub fn tick_with(&mut self, fresh_food: Point)
        requires
            old(self)@.tickable(),
        ensures
            final(self)@ == old(self)@.tick(fresh_food@),
            old(self).state is Paused ==> final(self)@ == old(self)@,
            old(self)@.valid() && old(self)@.body.len() < length_limit() && in_grid(fresh_food@)
                ==> final(self)@.valid(),
    {
        let outcome = self.outcome();
        self.carry_out(outcome, fresh_food);
    }

    /// Advances the game by one tick. Food that is eaten reappears at a
    /// random place on the grid, which may lie under the snake.
    pub fn next_tick(&mut self)
        requires
            old(self)@.tickable(),
        ensures
            final(self)@ == old(self)@.tick(final(self)@.food),
            old(self)@.outcome() is Grow ==> in_grid(final(self)@.food),
            !(old(self)@.outcome() is Grow) ==> final(self)@.food == old(self)@.food,
            old(self).state is Paused ==> final(self)@ == old(self)@,
            old(self)@.valid() && old(self)@.body.len() < length_limit() ==> final(self)@.valid(),
    {
        let outcome = self.outcome();
        let fresh_food = match outcome {
            TickOutcome::Grow => random_food(),
            _ => self.food,
        };
        self.carry_out(outcome, fresh_food);
    }

    /// Changes the game as `outcome`, the outcome of its next tick, says.
    fn carry_out(&mut self, outcome: TickOutcome, fresh_food: Point)
        requires
            old(self)@.tickable(),
            outcome == old(self)@.outcome(),
        ensures
            final(self)@ == old(self)@.tick(fresh_food@),
            old(self)@.valid() && old(self)@.body.len() < length_limit() && in_grid(fresh_food@)
                ==> final(self)@.valid(),
    {
        proof {
            if old(self)@.valid() && old(self)@.body.len() < length_limit()
                && in_grid(fresh_food@) {
                lemma_tick_keeps_valid(old(self)@, fresh_food@);
            }
        }
        match outcome {
            TickOutcome::Idle | TickOutcome::Blocked => {},
            TickOutcome::Reset => {
                self.player_position = starting_body();
            },
            TickOutcome::Advance => {
                self.step_forward();
            },
            TickOutcome::Grow => {
                self.step_forward();
                let tail = self.player_position[self.player_position.len() - 1];
                assert(tail@ == old(self)@.moved_body().last());
                let behind = tail + step_against(self.player_direction);
                self.food = fresh_food;
                self.player_position.push(behind);
                assert(self@.body =~= old(self)@.grown_body());
            },
        }
    }

    /// Moves the snake one cell: the target becomes the head, the last
    /// segment is dropped.
    fn step_forward(&mut self)
        requires
            old(self)@.body.len() >= 1,
            old(self)@.body[0].plus(direction_vector(old(self)@.direction)).fits(),
        ensures
            final(self)@ == (Snapshot { body: old(self)@.moved_body(), ..old(self)@ }),
    {
        let target = self.next_head_position();
        self.player_position.pop();
        self.player_position.insert(0, target);
        assert(self@.body =~= old(self)@.moved_body());
    }

    /// Heads up from the next tick on.
    pub fn move_up(&mut self)
        ensures
            final(self)@ == old(self)@.turned(PlayerDirection::Up),
            old(self)@.valid() ==> final(self)@.valid(),
    {
        self.player_direction = PlayerDirection::Up;
    }

    /// Heads down from the next tick on.
    pub fn move_down(&mut self)
        ensures
            final(self)@ == old(self)@.turned(PlayerDirection::Down),
            old(self)@.valid() ==> final(self)@.valid(),
    {
        self.player_direction = PlayerDirection::Down;
    }

    /// Heads right from the next tick on.
    pub fn move_right(&mut self)
        ensures
            final(self)@ == old(self)@.turned(PlayerDirection::Right),
            old(self)@.valid() ==> final(self)@.valid(),
    {
        self.player_direction = PlayerDirection::Right;
    }

    /// Heads left from the next tick on.
    pub fn move_left(&mut self)
        ensures
            final(self)@ == old(self)@.turned(PlayerDirection::Left),
            old(self)@.valid() ==> final(self)@.valid(),
    {
        self.player_direction = PlayerDirection::Left;
    }

    /// Pauses a running game and resumes a paused one.
    pub fn toggle_pause(&mut self)
        ensures
            final(self)@ == old(self)@.toggled(),
            old(self)@.valid() ==> final(self)@.valid(),
    {
        self.state = match self.state {
            GameState::Playing => GameState::Paused,
            GameState::Paused => GameState::Playing,
        }
    }
}

} // verus!
