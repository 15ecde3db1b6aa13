//! General properties of the rules, each proved from their definitions.

use vstd::prelude::*;
use crate::point::Cell;
use crate::rules::{
    in_grid, initial_body, length_limit, next_head, PlayerDirection, Snapshot, GRID_X_SIZE,
    GRID_Y_SIZE,
};

verus! {

/// A head that steps over an edge of the grid comes back in at the opposite
/// edge of the same axis, and a step never changes the other coordinate.
/// Upwards and to the left the opposite edge is the grid's size, downwards
/// and to the right it is zero.
pub proof fn lemma_wrap_around(head: Cell)
    ensures
        head.y <= 0 ==> next_head(head, PlayerDirection::Up).y == GRID_Y_SIZE,
        head.y >= GRID_Y_SIZE - 1 ==> next_head(head, PlayerDirection::Down).y == 0,
        head.x >= GRID_X_SIZE - 1 ==> next_head(head, PlayerDirection::Right).x == 0,
        head.x <= 0 ==> next_head(head, PlayerDirection::Left).x == GRID_X_SIZE,
        next_head(head, PlayerDirection::Up).x == head.x,
        next_head(head, PlayerDirection::Down).x == head.x,
        next_head(head, PlayerDirection::Right).y == head.y,
        next_head(head, PlayerDirection::Left).y == head.y,
{
}

/// Away from the edges a step moves the head by one cell.
pub proof fn lemma_step_inside(head: Cell)
    ensures
        0 < head.y <= GRID_Y_SIZE ==> next_head(head, PlayerDirection::Up).y == head.y - 1,
        -1 <= head.y < GRID_Y_SIZE - 1 ==> next_head(head, PlayerDirection::Down).y == head.y + 1,
        -1 <= head.x < GRID_X_SIZE - 1 ==> next_head(head, PlayerDirection::Right).x == head.x + 1,
        0 < head.x <= GRID_X_SIZE ==> next_head(head, PlayerDirection::Left).x == head.x - 1,
{
}

/// However often a paused game is ticked, and whatever food is offered,
/// nothing changes.
pub proof fn lemma_paused_ticks_change_nothing(s: Snapshot, foods: Seq<Cell>)
    requires
        s.state is Paused,
    ensures
        s.after_ticks(foods) == s,
    decreases foods.len(),
{
    if foods.len() > 0 {
        lemma_paused_ticks_change_nothing(s, foods.drop_last());
    }
}

/// A tick whose target is the segment right behind the head changes nothing.
pub proof fn lemma_reversal_is_blocked(s: Snapshot, fresh_food: Cell)
    requires
        s.body.len() >= 2,
        s.target() == s.body[1],
    ensures
        s.tick(fresh_food) == s,
{
}

/// When the head of a running game would step onto a segment of the snake,
/// and the segment right behind the head is not at that place, the snake
/// respawns with the initial body and everything else stays as it was.
pub proof fn lemma_collision_resets(s: Snapshot, fresh_food: Cell, i: int)
    requires
        s.state is Playing,
        0 <= i < s.body.len(),
        s.body[i] == s.target(),
        s.body.len() >= 2,
        s.body[1] != s.target(),
    ensures
        s.tick(fresh_food) == (Snapshot { body: initial_body(), ..s }),
        s.tick(fresh_food).food == s.food,
{
}

/// A tick that advances keeps the body's length. One that grows adds one
/// segment, one that resets leaves three, and the others keep the body.
pub proof fn lemma_length_after_tick(s: Snapshot, fresh_food: Cell)
    requires
        s.body.len() >= 1,
    ensures
        s.outcome() is Advance ==> s.tick(fresh_food).body.len() == s.body.len(),
        s.outcome() is Grow ==> s.tick(fresh_food).body.len() == s.body.len() + 1,
        s.outcome() is Reset ==> s.tick(fresh_food).body.len() == 3,
        s.outcome() is Idle || s.outcome() is Blocked ==> s.tick(fresh_food).body == s.body,
{
}

/// After a tick that advances or grows, the head is at the target and the
/// segments that stay follow in their old order.
pub proof fn lemma_body_after_move(s: Snapshot, fresh_food: Cell)
    requires
        s.body.len() >= 1,
        s.outcome() is Advance || s.outcome() is Grow,
    ensures
        s.tick(fresh_food).body[0] == s.target(),
        forall|i: int|
            1 <= i < s.body.len() ==> #[trigger] s.tick(fresh_food).body[i] == s.body[i - 1],
{
}

/// Of several direction commands in a row only the last one counts: the
/// state they leave, and so the tick that follows, is that of the last
/// command alone.
pub proof fn lemma_last_direction_wins(
    s: Snapshot,
    directions: Seq<PlayerDirection>,
    fresh_food: Cell,
)
    requires
        directions.len() >= 1,
    ensures
        s.steered(directions) == s.turned(directions.last()),
        s.steered(directions).tick(fresh_food) == s.turned(directions.last()).tick(fresh_food),
    decreases directions.len(),
{
    if directions.len() > 1 {
        lemma_last_direction_wins(s, directions.drop_last(), fresh_food);
    } else {
        assert(directions.drop_last().len() == 0);
        assert(s.steered(directions.drop_last()) == s);
    }
}

/// A new game satisfies the invariant, wherever on the grid its food lies.
pub proof fn lemma_initial_valid(food: Cell)
    requires
        in_grid(food),
    ensures
        Snapshot::initial(food).valid(),
{
}

/// A game that satisfies the invariant can be ticked.
pub proof fn lemma_valid_is_tickable(s: Snapshot)
    requires
        s.valid(),
    ensures
        s.tickable(),
{
    let len = s.body.len() as int;
    assert(s.moved_body().last() == s.body[len - 2]);
}

/// A tick that advances a snake without two segments in one cell leaves it
/// without two segments in one cell.
pub proof fn lemma_advance_keeps_distinct(s: Snapshot, fresh_food: Cell)
    requires
        s.body.len() >= 1,
        s.body.no_duplicates(),
        s.outcome() is Advance,
    ensures
        s.tick(fresh_food).body.no_duplicates(),
{
    let t = s.tick(fresh_food).body;
    assert forall|i: int, j: int| 0 <= i < t.len() && 0 <= j < t.len() && i != j implies t[i]
        != t[j] by {
        if i >= 1 {
            assert(t[i] == s.body[i - 1]);
        }
        if j >= 1 {
            assert(t[j] == s.body[j - 1]);
        }
    }
}

/// Commands keep the invariant.
pub proof fn lemma_commands_keep_valid(s: Snapshot, direction: PlayerDirection)
    requires
        s.valid(),
    ensures
        s.turned(direction).valid(),
        s.toggled().valid(),
{
}

/// A tick keeps the invariant, as long as the body can still grow and new
/// food lies on the grid.
pub proof fn lemma_tick_keeps_valid(s: Snapshot, fresh_food: Cell)
    requires
        s.valid(),
        s.body.len() < length_limit(),
        in_grid(fresh_food),
    ensures
        s.tick(fresh_food).valid(),
{
    let t = s.tick(fresh_food);
    assert(s.body[0].x >= 0);
    assert forall|i: int| 0 <= i < t.body.len() implies {
        &&& -i <= (#[trigger] t.body[i]).x <= GRID_X_SIZE + i
        &&& -i <= t.body[i].y <= GRID_Y_SIZE + i
    } by {
        if s.outcome() is Advance || s.outcome() is Grow {
            if 1 <= i < s.body.len() {
                assert(t.body[i] == s.body[i - 1]);
            } else if i == s.body.len() {
                assert(t.body[i - 1] == s.body[i - 2]);
            }
        }
    }
}

/// A run of ticks keeps the invariant, as long as the body could take a new
/// segment at every tick and all food offered lies on the grid. The body
/// gains at most one segment per tick.
pub proof fn lemma_ticks_keep_valid(s: Snapshot, foods: Seq<Cell>)
    requires
        s.valid(),
        s.body.len() + foods.len() <= length_limit(),
        forall|i: int| 0 <= i < foods.len() ==> in_grid(#[trigger] foods[i]),
    ensures
        s.after_ticks(foods).valid(),
        s.after_ticks(foods).body.len() <= s.body.len() + foods.len(),
    decreases foods.len(),
{
    if foods.len() > 0 {
        let earlier = foods.drop_last();
        assert forall|i: int| 0 <= i < earlier.len() implies in_grid(#[trigger] earlier[i]) by {
            assert(earlier[i] == foods[i]);
        }
        lemma_ticks_keep_valid(s, earlier);
        let before = s.after_ticks(earlier);
        lemma_tick_keeps_valid(before, foods.last());
        lemma_length_after_tick(before, foods.last());
    }
}

} // verus!
