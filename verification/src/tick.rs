//! One simulation tick in its load-bearing order: integrate, resolve,
//! apply controls, then map the animation frame and facing.

use vstd::prelude::*;

use crate::animation::{
    advance_frame, next_flip, next_frame, tick_timer, timer_fires, timer_next_acc, update_facing,
    FrameTimer, SpriteAnim,
};
use crate::body::{integrate, g_integrate, Body, CollisionNormalY, GBody};
use crate::control::{apply_controls, g_control, InputState};
use crate::geometry::{in_range, Aabb, GBox, DT_BOUND};
use crate::resolver::{g_resolve, g_resolve_in_range, resolve, views_of, MAX_OBSTACLES};

verus! {

/// The actor state after one full tick: integration, then resolution
/// against the obstacle list, then the control gate reading the freshly
/// resolved vertical contact normal.
pub open spec fn g_tick(g: GBody, obs: Seq<GBox>, inp: InputState, dt: int) -> GBody {
    g_control(g_resolve(g_integrate(g, dt), obs), inp)
}

/// The landing transition happens without a one-tick lag: a body whose
/// integration first overlaps the ground within a tick leaves that tick's
/// resolution with its vertical velocity forced to exactly zero alongside
/// the recorded vertical contact; and if the control gate then sees the
/// `Down` contact with neither "up" nor "down" pressed, the vertical
/// velocity of the whole tick is still exactly zero.
pub proof fn lemma_landing_has_no_lag(g: GBody, obs: Seq<GBox>, inp: InputState, dt: int)
    ensures
        ({
            let r = g_resolve(g_integrate(g, dt), obs);
            r.cy != CollisionNormalY::Neutral ==> r.vy == 0
        }),
        ({
            let r = g_tick(g, obs, inp, dt);
            r.cy == CollisionNormalY::Down && !inp.up && !inp.down ==> r.vy == 0
        }),
{
    crate::resolver::lemma_resolve_contact_zeroes_velocity(g_integrate(g, dt), obs);
}

/// Advances the whole simulation by one tick, in the fixed order that the
/// cross-tick invariants rely on: the integrator fully completes before the
/// resolver runs, the control gate reads the contact normals the resolver
/// just produced, and the animation mapper reads the controlled state and
/// velocity. The obstacle list is read-only throughout.
pub fn tick(
    body: &mut Body,
    anim: &mut SpriteAnim,
    timer: &mut FrameTimer,
    obstacles: &Vec<Aabb>,
    input: InputState,
    dt: i64,
)
    requires
        old(body)@.wf(),
        old(anim).wf(),
        old(timer).wf(),
        0 <= dt <= DT_BOUND,
        in_range(old(body)@.vx + old(body)@.ax * dt),
        in_range(old(body)@.vy + old(body)@.ay * dt),
        in_range(old(body)@.px + (old(body)@.vx + old(body)@.ax * dt) * dt - old(body)@.hw),
        in_range(old(body)@.px + (old(body)@.vx + old(body)@.ax * dt) * dt + old(body)@.hw),
        in_range(old(body)@.py + (old(body)@.vy + old(body)@.ay * dt) * dt - old(body)@.hh),
        in_range(old(body)@.py + (old(body)@.vy + old(body)@.ay * dt) * dt + old(body)@.hh),
        obstacles@.len() <= MAX_OBSTACLES,
        forall|i: int| 0 <= i < obstacles@.len() ==> (#[trigger] obstacles@[i])@.wf(),
    ensures
        final(body)@ == g_tick(old(body)@, views_of(obstacles@), input, dt as int),
        g_resolve_in_range(g_integrate(old(body)@, dt as int), views_of(obstacles@))
            ==> final(body)@.wf(),
        final(timer).acc == timer_next_acc(
            old(timer).acc as int,
            old(timer).period as int,
            dt as int,
        ),
        final(timer).period == old(timer).period,
        final(timer).wf(),
        final(anim).frame == next_frame(
            g_tick(old(body)@, views_of(obstacles@), input, dt as int).state,
            old(anim).frame as int,
            timer_fires(old(timer).acc as int, old(timer).period as int, dt as int),
        ),
        final(anim).flip_x == next_flip(
            g_tick(old(body)@, views_of(obstacles@), input, dt as int).vx,
            old(anim).flip_x,
        ),
        final(anim).wf(),
{
    integrate(body, dt);
    resolve(body, obstacles);
    apply_controls(body, input);
    let fired = tick_timer(timer, dt);
    advance_frame(anim, body.sprite_state, fired);
    update_facing(anim, body.vel.x);
}

} // verus!
