//! The control gate: directional input is applied to the actor according to
//! the previous resolution's vertical contact normal — direct velocity
//! control on the ground, weak horizontal acceleration in the air — and the
//! animation state is derived alongside.

use vstd::prelude::*;

use crate::body::{Body, CollisionNormalY, GBody, SpriteState};

verus! {

/// Horizontal speed set directly while grounded.
pub const MOVE_SPEED: i64 = 50;

/// Vertical speed set by a jump.
pub const JUMP_SPEED: i64 = 200;

/// Small downward nudge applied by a grounded "down" press (fast fall).
pub const FAST_FALL_SPEED: i64 = 20;

/// Weak horizontal acceleration applied while airborne.
pub const AIR_CONTROL_ACCEL: i64 = 25;

/// Constant downward gravity used by a standard world setup.
pub const GRAVITY: i64 = 400;

/// The four directional input signals, sampled once per tick.
#[derive(Clone, Copy, PartialEq, Eq, Structural, Debug)]
pub struct InputState {
    pub up: bool,
    pub down: bool,
    pub left: bool,
    pub right: bool,
}

impl InputState {
    /// No direction pressed.
    pub fn released() -> (r: InputState)
        ensures
            r == (InputState { up: false, down: false, left: false, right: false }),
    {
        InputState { up: false, down: false, left: false, right: false }
    }
}

/// Horizontal velocity set by grounded control: left and right presses
/// contribute `-MOVE_SPEED` and `+MOVE_SPEED`, no press gives exactly zero.
pub open spec fn grounded_vel_x(inp: InputState) -> int {
    (if inp.right {
        MOVE_SPEED as int
    } else {
        0
    }) - (if inp.left {
        MOVE_SPEED as int
    } else {
        0
    })
}

/// Vertical velocity set by grounded control: a jump if "up" is pressed
/// (overriding everything else), a fast-fall nudge if only "down" is
/// pressed, exactly zero otherwise.
pub open spec fn grounded_vel_y(inp: InputState) -> int {
    if inp.up {
        JUMP_SPEED as int
    } else if inp.down {
        -FAST_FALL_SPEED as int
    } else {
        0
    }
}

/// Horizontal acceleration applied by airborne control, "left" taking
/// precedence when both directions are pressed.
pub open spec fn airborne_acc_x(inp: InputState) -> int {
    if inp.left {
        -AIR_CONTROL_ACCEL as int
    } else if inp.right {
        AIR_CONTROL_ACCEL as int
    } else {
        0
    }
}

/// The control gate. Grounded (vertical contact normal `Down`): velocity is
/// set directly from the input on both axes and the animation state becomes
/// `Walking` or `Neutral`. Airborne: the animation state becomes `InAir`,
/// horizontal acceleration is set from the input, and velocity is left to
/// gravity integration.
pub open spec fn g_control(g: GBody, inp: InputState) -> GBody {
    if g.cy == CollisionNormalY::Down {
        GBody {
            vx: grounded_vel_x(inp),
            vy: grounded_vel_y(inp),
            state: if grounded_vel_x(inp) != 0 {
                SpriteState::Walking
            } else {
                SpriteState::Neutral
            },
            ..g
        }
    } else {
        GBody { ax: airborne_acc_x(inp), state: SpriteState::InAir, ..g }
    }
}

/// A grounded jump is exact: whenever the vertical contact normal of the
/// previous resolution is `Down` and "up" is pressed, the control gate sets
/// the vertical velocity to exactly the jump-speed constant, whatever value
/// gravity or earlier corrections had left there.
pub proof fn lemma_grounded_jump_is_exact(g: GBody, inp: InputState)
    requires
        g.cy == CollisionNormalY::Down,
        inp.up,
    ensures
        g_control(g, inp).vy == JUMP_SPEED,
{
}

/// Applies one tick of directional input, gated on the vertical contact
/// normal of the most recent resolution. While grounded and with "up"
/// pressed the vertical velocity is set to exactly `JUMP_SPEED`, regardless
/// of any accumulated gravity contribution.
pub fn apply_controls(body: &mut Body, input: InputState)
    ensures
        final(body)@ == g_control(old(body)@, input),
        old(body)@.wf() ==> final(body)@.wf(),
        old(body).contact_y == CollisionNormalY::Down && input.up ==> final(body).vel.y
            == JUMP_SPEED,
{
    if body.contact_y == CollisionNormalY::Down {
        let mut x_change: i64 = 0;
        if input.right {
            x_change = x_change + MOVE_SPEED;
        }
        if input.left {
            x_change = x_change - MOVE_SPEED;
        }
        body.vel.x = x_change;
        body.vel.y = if input.up {
            JUMP_SPEED
        } else if input.down {
            -FAST_FALL_SPEED
        } else {
            0
        };
        body.sprite_state = if x_change != 0 {
            SpriteState::Walking
        } else {
            SpriteState::Neutral
        };
    } else {
        body.sprite_state = SpriteState::InAir;
        body.acc.x = if input.left {
            -AIR_CONTROL_ACCEL
        } else if input.right {
            AIR_CONTROL_ACCEL
        } else {
            0
        };
    }
}

} // verus!
