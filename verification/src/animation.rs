//! The animation/facing mapper: a repeating integer timer advances a frame
//! index through the frame range dedicated to the current animation state,
//! and the horizontal-flip flag follows the sign of the horizontal velocity,
//! holding its previous value on zero.

use vstd::prelude::*;

use crate::body::SpriteState;
use crate::geometry::{ConfigError, COORD_BOUND, DT_BOUND};

verus! {

/// Number of frames in the sprite sheet; each animation state cycles a
/// dedicated range of it.
pub const FRAME_COUNT: usize = 4;

/// A repeating timer: it accumulates elapsed time and fires each time the
/// accumulated time reaches the period, keeping the leftover phase.
#[derive(Clone, Copy, PartialEq, Eq, Structural, Debug)]
pub struct FrameTimer {
    pub acc: i64,
    pub period: i64,
}

/// The sprite selection exposed to the renderer: a frame index and a
/// horizontal-flip flag.
#[derive(Clone, Copy, PartialEq, Eq, Structural, Debug)]
pub struct SpriteAnim {
    pub frame: usize,
    pub flip_x: bool,
}

impl FrameTimer {
    /// A well-formed timer has a positive in-range period and a phase
    /// strictly inside it.
    pub open spec fn wf(self) -> bool {
        &&& 0 < self.period <= COORD_BOUND
        &&& 0 <= self.acc < self.period
    }

    /// Builds a repeating timer of the given period, rejecting periods
    /// outside `(0, COORD_BOUND]`.
    pub fn new(period: i64) -> (r: Result<FrameTimer, ConfigError>)
        ensures
            r matches Ok(t) ==> t == (FrameTimer { acc: 0, period }) && t.wf(),
            r is Ok <==> 0 < period <= COORD_BOUND,
            r is Err ==> r == Err::<FrameTimer, ConfigError>(ConfigError::InvalidTimerPeriod),
    {
        if period <= 0 || period > COORD_BOUND {
            return Err(ConfigError::InvalidTimerPeriod);
        }
        Ok(FrameTimer { acc: 0, period })
    }
}

/// Whether a timer with phase `acc` and period `period` fires when `dt`
/// more time elapses.
pub open spec fn timer_fires(acc: int, period: int, dt: int) -> bool {
    acc + dt >= period
}

/// The timer phase after `dt` more time elapses: the leftover modulo the
/// period if the timer fires, the plain sum otherwise.
pub open spec fn timer_next_acc(acc: int, period: int, dt: int) -> int {
    if timer_fires(acc, period, dt) {
        (acc + dt) % period
    } else {
        acc + dt
    }
}

/// Advances the repeating timer by `dt` and reports whether it fired.
pub fn tick_timer(timer: &mut FrameTimer, dt: i64) -> (fired: bool)
    requires
        old(timer).wf(),
        0 <= dt <= DT_BOUND,
    ensures
        fired == timer_fires(old(timer).acc as int, old(timer).period as int, dt as int),
        final(timer).acc == timer_next_acc(
            old(timer).acc as int,
            old(timer).period as int,
            dt as int,
        ),
        final(timer).period == old(timer).period,
        final(timer).wf(),
{
    let sum = timer.acc + dt;
    if sum >= timer.period {
        timer.acc = sum % timer.period;
        true
    } else {
        timer.acc = sum;
        false
    }
}

/// The next frame index: unchanged unless the timer fired; on a fired tick,
/// `Neutral` shows frame 0, `Walking` cycles frames 0 and 1, and `InAir`
/// cycles frames 2 and 3.
pub open spec fn next_frame(state: SpriteState, frame: int, fired: bool) -> int {
    if !fired {
        frame
    } else {
        match state {
            SpriteState::Neutral => 0,
            SpriteState::Walking => (frame + 1) % 2,
            SpriteState::InAir => (frame + 1) % 2 + 2,
        }
    }
}

/// The next horizontal-flip flag: facing flips left on negative horizontal
/// velocity, right on positive, and holds its previous value on zero.
pub open spec fn next_flip(vel_x: int, flip: bool) -> bool {
    if vel_x < 0 {
        true
    } else if vel_x > 0 {
        false
    } else {
        flip
    }
}

impl SpriteAnim {
    /// A well-formed sprite selection indexes into the sprite sheet.
    pub open spec fn wf(self) -> bool {
        self.frame < FRAME_COUNT
    }

    /// The initial sprite selection: frame 0, facing right.
    pub fn new() -> (r: SpriteAnim)
        ensures
            r == (SpriteAnim { frame: 0usize, flip_x: false }),
            r.wf(),
    {
        SpriteAnim { frame: 0, flip_x: false }
    }
}

/// Advances the frame index by one through the current animation state's
/// frame range each time the timer fires; a state transition changes which
/// range is cycled but never the timer's phase.
pub fn advance_frame(anim: &mut SpriteAnim, state: SpriteState, fired: bool)
    ensures
        final(anim).frame == next_frame(state, old(anim).frame as int, fired),
        final(anim).flip_x == old(anim).flip_x,
        fired || old(anim).wf() ==> final(anim).wf(),
{
    if fired {
        match state {
            SpriteState::Neutral => {
                anim.frame = 0;
            },
            SpriteState::Walking => {
                anim.frame = if anim.frame % 2 == 0 {
                    1
                } else {
                    0
                };
            },
            SpriteState::InAir => {
                anim.frame = if anim.frame % 2 == 0 {
                    3
                } else {
                    2
                };
            },
        }
    }
}

/// Updates the facing flag from the horizontal velocity, holding the
/// previous facing when the velocity is exactly zero.
pub fn update_facing(anim: &mut SpriteAnim, vel_x: i64)
    ensures
        final(anim).flip_x == next_flip(vel_x as int, old(anim).flip_x),
        final(anim).frame == old(anim).frame,
{
    if vel_x < 0 {
        anim.flip_x = true;
    } else if vel_x > 0 {
        anim.flip_x = false;
    }
}

} // verus!
