//! The pace of the game and the player's commands.

use vstd::prelude::*;
use crate::game::GameContext;
use crate::rules::{PlayerDirection, Snapshot};

verus! {

/// Frames shown per second.
pub const FRAMES_PER_SECOND: u32 = 60;

/// The game ticks once in this many frames.
pub const FRAMES_PER_TICK: u32 = 10;

/// What the player can ask for.
#[derive(Copy, Clone, Debug, PartialEq, Eq, Structural)]
pub enum Command {
    Up,
    Down,
    Right,
    Left,
    TogglePause,
}

/// The state after `command`.
pub open spec fn commanded(s: Snapshot, command: Command) -> Snapshot {
    match command {
        Command::Up => s.turned(PlayerDirection::Up),
        Command::Down => s.turned(PlayerDirection::Down),
        Command::Right => s.turned(PlayerDirection::Right),
        Command::Left => s.turned(PlayerDirection::Left),
        Command::TogglePause => s.toggled(),
    }
}

/// Carries out `command` at once.
pub fn apply_command(context: &mut GameContext, command: Command)
    ensures
        final(context)@ == commanded(old(context)@, command),
        old(context)@.valid() ==> final(context)@.valid(),
{
    match command {
        Command::Up => context.move_up(),
        Command::Down => context.move_down(),
        Command::Right => context.move_right(),
        Command::Left => context.move_left(),
        Command::TogglePause => context.toggle_pause(),
    }
}

/// How long one frame lasts, in nanoseconds.
pub fn frame_nanos() -> (nanos: u32)
    ensures
        nanos == 1_000_000_000int / (FRAMES_PER_SECOND as int),
        nanos == 16_666_666,
{
    1_000_000_000u32 / FRAMES_PER_SECOND
}

/// Counts frames and says when a tick is due.
pub struct FrameClock {
    /// Frames since the last tick.
    pub frame_counter: u32,
}

impl FrameClock {
    /// The counter is in the range that it keeps from a new clock on.
    pub open spec fn wf(&self) -> bool {
        self.frame_counter < FRAMES_PER_TICK
    }

    /// A clock that has seen no frame yet.
    pub fn new() -> (clock: FrameClock)
        ensures
            clock.frame_counter == 0,
            clock.wf(),
    {
        FrameClock { frame_counter: 0 }
    }

    /// Counts one frame. When the count reaches a multiple of
    /// `FRAMES_PER_TICK` a tick is due and the count starts again.
    pub fn frame(&mut self) -> (due: bool)
        requires
            old(self).frame_counter < u32::MAX,
        ensures
            due == ((old(self).frame_counter + 1) % (FRAMES_PER_TICK as int) == 0),
            final(self).frame_counter == (if due {
                0
            } else {
                old(self).frame_counter + 1
            }),
            old(self).wf() ==> final(self).wf(),
    {
        self.frame_counter += 1;
        if self.frame_counter % FRAMES_PER_TICK == 0 {
            self.frame_counter = 0;
            true
        } else {
            false
        }
    }
}

} // verus!
