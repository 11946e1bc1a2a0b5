//! The fixed-timestep loop's state machine and frame pacing.
//!
//! The loop has two states, running and terminating. Each iteration
//! samples input, then either exits (on quit), renders a frame (when a
//! full frame period has elapsed), or sleeps for the remainder of the
//! period. Input is sampled more often than frames are rendered; a
//! late frame is simply rendered on the next check, with no catch-up.

use vstd::prelude::*;

verus! {

/// Target frame period in microseconds: one sixtieth of a second.
pub const FRAME_PERIOD_MICROS: u64 = 16_666;

/// The loop's state.
#[derive(Clone, Copy, PartialEq, Eq, Structural, Debug)]
pub enum LoopState {
    Running,
    Terminating,
}

/// What one loop iteration does after sampling input.
#[derive(Clone, Copy, PartialEq, Eq, Structural, Debug)]
pub enum StepAction {
    /// Tear the sink down and leave the loop.
    Exit,
    /// A full period has elapsed: update, render, reset the timestamp.
    RenderFrame,
    /// Sleep this many microseconds, then sample input again.
    Sleep(u64),
}

/// The next state and action of one iteration.
pub open spec fn step_spec(state: LoopState, quit: bool, elapsed: int, period: int) -> (
    LoopState,
    StepAction,
) {
    if state is Terminating || quit {
        (LoopState::Terminating, StepAction::Exit)
    } else if elapsed >= period {
        (LoopState::Running, StepAction::RenderFrame)
    } else {
        (LoopState::Running, StepAction::Sleep((period - elapsed) as u64))
    }
}

/// Decide one loop iteration: exit on quit (or once terminating),
/// render when the elapsed time reaches the frame period, and
/// otherwise sleep out the exact remainder of the period.
pub fn loop_step(state: LoopState, quit: bool, elapsed_micros: u64, period_micros: u64) -> (r: (
    LoopState,
    StepAction,
))
    ensures
        r == step_spec(state, quit, elapsed_micros as int, period_micros as int),
{
    match state {
        LoopState::Terminating => (LoopState::Terminating, StepAction::Exit),
        LoopState::Running => {
            if quit {
                (LoopState::Terminating, StepAction::Exit)
            } else if elapsed_micros >= period_micros {
                (LoopState::Running, StepAction::RenderFrame)
            } else {
                (LoopState::Running, StepAction::Sleep(period_micros - elapsed_micros))
            }
        },
    }
}

} // verus!
