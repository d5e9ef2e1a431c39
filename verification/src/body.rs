//! The dynamic actor: kinematic state, per-axis contact normals, the derived
//! bounding box, and the integrator that advances it each tick.

use vstd::prelude::*;

use crate::geometry::{in_range, Aabb, ConfigError, GBox, Vec2, COORD_BOUND, DT_BOUND};
use crate::geometry::lemma_mul_range;

verus! {

/// Direction, from the obstacle toward the actor, of the most recent
/// resolved penetration on the horizontal axis.
#[derive(Clone, Copy, PartialEq, Eq, Structural, Debug)]
pub enum CollisionNormalX {
    Neutral,
    Left,
    Right,
}

/// Direction, from the obstacle toward the actor, of the most recent
/// resolved penetration on the vertical axis.
#[derive(Clone, Copy, PartialEq, Eq, Structural, Debug)]
pub enum CollisionNormalY {
    Neutral,
    Up,
    Down,
}

/// The discrete animation state derived from the control mode and the
/// horizontal input.
#[derive(Clone, Copy, PartialEq, Eq, Structural, Debug)]
pub enum SpriteState {
    Neutral,
    Walking,
    InAir,
}

/// Mathematical model of the actor: kinematics and box corners as unbounded
/// integers, plus the per-axis contact normals and the animation state.
pub ghost struct GBody {
    pub px: int,
    pub py: int,
    pub vx: int,
    pub vy: int,
    pub ax: int,
    pub ay: int,
    pub hw: int,
    pub hh: int,
    pub bbox: GBox,
    pub cx: CollisionNormalX,
    pub cy: CollisionNormalY,
    pub state: SpriteState,
}

impl GBody {
    /// Well-formed actor state: positive half-extents, all kinematic values
    /// in the coordinate range, and the bounding box derived from the
    /// position and half-extents.
    pub open spec fn wf(self) -> bool {
        &&& self.hw > 0
        &&& self.hh > 0
        &&& in_range(self.px)
        &&& in_range(self.py)
        &&& in_range(self.vx)
        &&& in_range(self.vy)
        &&& in_range(self.ax)
        &&& in_range(self.ay)
        &&& self.bbox.wf()
        &&& self.bbox.min_x == self.px - self.hw
        &&& self.bbox.min_y == self.py - self.hh
        &&& self.bbox.max_x == self.px + self.hw
        &&& self.bbox.max_y == self.py + self.hh
    }
}

/// The dynamic actor.
#[derive(Clone, Copy, PartialEq, Eq, Structural, Debug)]
pub struct Body {
    pub pos: Vec2,
    pub vel: Vec2,
    pub acc: Vec2,
    pub half_w: i64,
    pub half_h: i64,
    pub bbox: Aabb,
    pub contact_x: CollisionNormalX,
    pub contact_y: CollisionNormalY,
    pub sprite_state: SpriteState,
}

impl View for Body {
    type V = GBody;

    open spec fn view(&self) -> GBody {
        GBody {
            px: self.pos.x as int,
            py: self.pos.y as int,
            vx: self.vel.x as int,
            vy: self.vel.y as int,
            ax: self.acc.x as int,
            ay: self.acc.y as int,
            hw: self.half_w as int,
            hh: self.half_h as int,
            bbox: self.bbox@,
            cx: self.contact_x,
            cy: self.contact_y,
            state: self.sprite_state,
        }
    }
}

/// The bounding box recomputed from the current position and half-extents;
/// every other component of the state is kept.
pub open spec fn g_refresh_box(g: GBody) -> GBody {
    GBody {
        bbox: GBox {
            min_x: g.px - g.hw,
            min_y: g.py - g.hh,
            max_x: g.px + g.hw,
            max_y: g.py + g.hh,
        },
        ..g
    }
}

/// One integration step: velocity advances by `acc * dt`, position by the
/// new velocity times `dt`, and the bounding box is recomputed.
pub open spec fn g_integrate(g: GBody, dt: int) -> GBody {
    let vx = g.vx + g.ax * dt;
    let vy = g.vy + g.ay * dt;
    g_refresh_box(GBody { px: g.px + vx * dt, py: g.py + vy * dt, vx: vx, vy: vy, ..g })
}

impl Body {
    /// Builds an actor from its kinematic values and half-extents, rejecting
    /// zero or negative extents and out-of-range values. The bounding box is
    /// derived from the position; contact normals start `Neutral` and the
    /// animation state starts `Neutral`.
    pub fn new(pos: Vec2, vel: Vec2, acc: Vec2, half_w: i64, half_h: i64) -> (r: Result<
        Body,
        ConfigError,
    >)
        ensures
            r matches Ok(b) ==> {
                &&& b@.wf()
                &&& b.pos == pos
                &&& b.vel == vel
                &&& b.acc == acc
                &&& b.half_w == half_w
                &&& b.half_h == half_h
                &&& b.contact_x == CollisionNormalX::Neutral
                &&& b.contact_y == CollisionNormalY::Neutral
                &&& b.sprite_state == SpriteState::Neutral
            },
            r == Err::<Body, ConfigError>(ConfigError::NonPositiveExtent) <==> (half_w <= 0
                || half_h <= 0),
            r is Ok <==> {
                &&& half_w > 0
                &&& half_h > 0
                &&& in_range(pos.x - half_w)
                &&& in_range(pos.x + half_w)
                &&& in_range(pos.y - half_h)
                &&& in_range(pos.y + half_h)
                &&& in_range(vel.x as int)
                &&& in_range(vel.y as int)
                &&& in_range(acc.x as int)
                &&& in_range(acc.y as int)
            },
    {
        if vel.x < -COORD_BOUND || vel.x > COORD_BOUND || vel.y < -COORD_BOUND || vel.y
            > COORD_BOUND || acc.x < -COORD_BOUND || acc.x > COORD_BOUND || acc.y < -COORD_BOUND
            || acc.y > COORD_BOUND {
            if half_w <= 0 || half_h <= 0 {
                return Err(ConfigError::NonPositiveExtent);
            }
            return Err(ConfigError::OutOfRange);
        }
        let bbox = match Aabb::new(pos, half_w, half_h) {
            Ok(b) => b,
            Err(e) => {
                return Err(e);
            },
        };
        Ok(
            Body {
                pos,
                vel,
                acc,
                half_w,
                half_h,
                bbox,
                contact_x: CollisionNormalX::Neutral,
                contact_y: CollisionNormalY::Neutral,
                sprite_state: SpriteState::Neutral,
            },
        )
    }
}

/// Recomputes the actor's bounding box from its current position and
/// half-extents, leaving everything else unchanged.
pub fn update_bounding_box(body: &mut Body)
    requires
        i64::MIN <= old(body).pos.x - old(body).half_w <= i64::MAX,
        i64::MIN <= old(body).pos.x + old(body).half_w <= i64::MAX,
        i64::MIN <= old(body).pos.y - old(body).half_h <= i64::MAX,
        i64::MIN <= old(body).pos.y + old(body).half_h <= i64::MAX,
    ensures
        final(body)@ == g_refresh_box(old(body)@),
{
    body.bbox.min.x = body.pos.x - body.half_w;
    body.bbox.min.y = body.pos.y - body.half_h;
    body.bbox.max.x = body.pos.x + body.half_w;
    body.bbox.max.y = body.pos.y + body.half_h;
}

/// Advances the actor by one timestep: `velocity += acceleration * dt`,
/// then `position += velocity * dt`, then the bounding box is recomputed
/// from the new position, strictly before any collision test may use it.
pub fn integrate(body: &mut Body, dt: i64)
    requires
        old(body)@.wf(),
        0 <= dt <= DT_BOUND,
        in_range(old(body)@.vx + old(body)@.ax * dt),
        in_range(old(body)@.vy + old(body)@.ay * dt),
        in_range(old(body)@.px + (old(body)@.vx + old(body)@.ax * dt) * dt - old(body)@.hw),
        in_range(old(body)@.px + (old(body)@.vx + old(body)@.ax * dt) * dt + old(body)@.hw),
        in_range(old(body)@.py + (old(body)@.vy + old(body)@.ay * dt) * dt - old(body)@.hh),
        in_range(old(body)@.py + (old(body)@.vy + old(body)@.ay * dt) * dt + old(body)@.hh),
    ensures
        final(body)@ == g_integrate(old(body)@, dt as int),
        final(body)@.wf(),
{
    proof {
        lemma_mul_range(
            old(body)@.ax,
            dt as int,
            COORD_BOUND as int,
            DT_BOUND as int,
        );
        lemma_mul_range(
            old(body)@.ay,
            dt as int,
            COORD_BOUND as int,
            DT_BOUND as int,
        );
    }
    body.vel.x = body.vel.x + body.acc.x * dt;
    body.vel.y = body.vel.y + body.acc.y * dt;
    proof {
        lemma_mul_range(body@.vx, dt as int, COORD_BOUND as int, DT_BOUND as int);
        lemma_mul_range(body@.vy, dt as int, COORD_BOUND as int, DT_BOUND as int);
    }
    body.pos.x = body.pos.x + body.vel.x * dt;
    body.pos.y = body.pos.y + body.vel.y * dt;
    update_bounding_box(body);
}

} // verus!
