//! Collision resolution: the integrated actor is tested against every
//! obstacle; each overlap contributes a shallowest-axis position correction,
//! zeroes the affected velocity axis, and records the contact normal for
//! that axis, with the last overlapping obstacle in scan order winning.

use vstd::prelude::*;

use crate::body::{g_refresh_box, Body, CollisionNormalX, CollisionNormalY, GBody};
use crate::geometry::{
    in_range, lemma_penetration_bounded, overlaps, penetration_vector, spec_overlaps,
    spec_penetration, Aabb, GBox,
};

verus! {

/// Largest admissible number of obstacles in a world.
pub const MAX_OBSTACLES: usize = 0x10_0000;

/// The models of a list of obstacle boxes.
pub open spec fn views_of(obs: Seq<Aabb>) -> Seq<GBox> {
    obs.map_values(|o: Aabb| o@)
}

/// Both contact normals reset to `Neutral`, as at the start of a scan.
pub open spec fn g_reset_contacts(g: GBody) -> GBody {
    GBody { cx: CollisionNormalX::Neutral, cy: CollisionNormalY::Neutral, ..g }
}

/// The effect of one obstacle on the scan state. The overlap test and the
/// penetration vector use the actor's bounding box as it was when the scan
/// started; only the position, velocity and contact normals change.
pub open spec fn g_scan_step(g: GBody, ob: GBox) -> GBody {
    if spec_overlaps(g.bbox, ob) {
        let pv = spec_penetration(g.bbox, ob);
        let gx = if pv.x != 0 {
            GBody {
                px: g.px - pv.x,
                vx: 0,
                cx: if pv.x < 0 {
                    CollisionNormalX::Left
                } else {
                    CollisionNormalX::Right
                },
                ..g
            }
        } else {
            g
        };
        if pv.y != 0 {
            GBody {
                py: gx.py - pv.y,
                vy: 0,
                cy: if pv.y < 0 {
                    CollisionNormalY::Down
                } else {
                    CollisionNormalY::Up
                },
                ..gx
            }
        } else {
            gx
        }
    } else {
        g
    }
}

/// The scan over the whole obstacle list, in order, left to right.
pub open spec fn g_scan(g: GBody, obs: Seq<GBox>) -> GBody
    decreases obs.len(),
{
    if obs.len() == 0 {
        g
    } else {
        g_scan(g_scan_step(g, obs.first()), obs.drop_first())
    }
}

/// One full resolution: contacts reset, every obstacle scanned, and the
/// bounding box recomputed from the corrected position.
pub open spec fn g_resolve(g: GBody, obs: Seq<GBox>) -> GBody {
    g_refresh_box(g_scan(g_reset_contacts(g), obs))
}

/// Whether the corrected position leaves the recomputed box corners inside
/// the coordinate range, so that the resolved actor is well-formed again.
pub open spec fn g_resolve_in_range(g: GBody, obs: Seq<GBox>) -> bool {
    let r = g_scan(g_reset_contacts(g), obs);
    &&& in_range(r.px - g.hw)
    &&& in_range(r.px + g.hw)
    &&& in_range(r.py - g.hh)
    &&& in_range(r.py + g.hh)
}

/// A scan leaves the bounding box, the half-extents, the acceleration and
/// the animation state untouched, and only ever writes `0` to a velocity
/// axis.
proof fn lemma_scan_frame(g: GBody, obs: Seq<GBox>)
    ensures
        g_scan(g, obs).bbox == g.bbox,
        g_scan(g, obs).hw == g.hw,
        g_scan(g, obs).hh == g.hh,
        g_scan(g, obs).ax == g.ax,
        g_scan(g, obs).ay == g.ay,
        g_scan(g, obs).state == g.state,
        g_scan(g, obs).vx == g.vx || g_scan(g, obs).vx == 0,
        g_scan(g, obs).vy == g.vy || g_scan(g, obs).vy == 0,
    decreases obs.len(),
{
    if obs.len() > 0 {
        lemma_scan_frame(g_scan_step(g, obs.first()), obs.drop_first());
    }
}

/// Resolution's side effects are confined to position, velocity and the
/// contact normals: half-extents, acceleration and the animation state are
/// never touched, and a velocity axis is only ever forced to zero, never
/// set to anything else.
pub proof fn lemma_resolve_touches_only_kinematics(g: GBody, obs: Seq<GBox>)
    ensures
        g_resolve(g, obs).hw == g.hw,
        g_resolve(g, obs).hh == g.hh,
        g_resolve(g, obs).ax == g.ax,
        g_resolve(g, obs).ay == g.ay,
        g_resolve(g, obs).state == g.state,
        g_resolve(g, obs).vx == g.vx || g_resolve(g, obs).vx == 0,
        g_resolve(g, obs).vy == g.vy || g_resolve(g, obs).vy == 0,
{
    lemma_scan_frame(g_reset_contacts(g), obs);
}

/// An actor separated from every obstacle is left exactly as it was, apart
/// from both contact normals resetting to `Neutral`: resolution is a no-op
/// on position and velocity.
pub proof fn lemma_resolve_separated_is_noop(g: GBody, obs: Seq<GBox>)
    requires
        g.wf(),
        forall|i: int| 0 <= i < obs.len() ==> !spec_overlaps(g.bbox, #[trigger] obs[i]),
    ensures
        g_resolve(g, obs) == g_reset_contacts(g),
{
    lemma_scan_separated(g_reset_contacts(g), obs);
    assert(g_resolve(g, obs) =~= g_reset_contacts(g));
}

proof fn lemma_scan_separated(g: GBody, obs: Seq<GBox>)
    requires
        forall|i: int| 0 <= i < obs.len() ==> !spec_overlaps(g.bbox, #[trigger] obs[i]),
    ensures
        g_scan(g, obs) == g,
    decreases obs.len(),
{
    if obs.len() > 0 {
        assert(!spec_overlaps(g.bbox, obs[0]));
        assert(g_scan_step(g, obs.first()) == g);
        assert(forall|i: int|
            0 <= i < obs.drop_first().len() ==> obs.drop_first()[i] == obs[i + 1]);
        lemma_scan_separated(g, obs.drop_first());
    }
}

/// A contact normal recorded by a scan comes with the matching velocity
/// axis already forced to zero, within the same scan: an actor that lands
/// in a tick has its vertical velocity zeroed in that tick.
pub proof fn lemma_resolve_contact_zeroes_velocity(g: GBody, obs: Seq<GBox>)
    ensures
        g_resolve(g, obs).cx != CollisionNormalX::Neutral ==> g_resolve(g, obs).vx == 0,
        g_resolve(g, obs).cy != CollisionNormalY::Neutral ==> g_resolve(g, obs).vy == 0,
{
    lemma_scan_contact_zeroes_velocity(g_reset_contacts(g), obs);
}

proof fn lemma_scan_contact_zeroes_velocity(g: GBody, obs: Seq<GBox>)
    requires
        g.cx == CollisionNormalX::Neutral || g.vx == 0,
        g.cy == CollisionNormalY::Neutral || g.vy == 0,
    ensures
        g_scan(g, obs).cx == CollisionNormalX::Neutral || g_scan(g, obs).vx == 0,
        g_scan(g, obs).cy == CollisionNormalY::Neutral || g_scan(g, obs).vy == 0,
    decreases obs.len(),
{
    if obs.len() > 0 {
        lemma_scan_contact_zeroes_velocity(g_scan_step(g, obs.first()), obs.drop_first());
    }
}

/// Resolves the actor against every obstacle, in list order: overlapping
/// obstacles correct the position along the shallowest axis, zero the
/// affected velocity axis and set the contact normal for that axis, the
/// last one in order winning; the bounding box is recomputed from the
/// corrected position before returning. Obstacle boxes are compared
/// against the actor's box as it was after integration.
pub fn resolve(body: &mut Body, obstacles: &Vec<Aabb>)
    requires
        old(body)@.wf(),
        obstacles@.len() <= MAX_OBSTACLES,
        forall|i: int| 0 <= i < obstacles@.len() ==> (#[trigger] obstacles@[i])@.wf(),
    ensures
        final(body)@ == g_resolve(old(body)@, views_of(obstacles@)),
        g_resolve_in_range(old(body)@, views_of(obstacles@)) ==> final(body)@.wf(),
{
    body.contact_x = CollisionNormalX::Neutral;
    body.contact_y = CollisionNormalY::Neutral;
    let ghost obs_v = views_of(obstacles@);
    let ghost g0 = body@;
    proof {
        assert(g0 == g_reset_contacts(old(body)@));
        assert(obs_v.skip(0) =~= obs_v);
    }
    let n = obstacles.len();
    let mut i: usize = 0;
    while i < n
        invariant
            0 <= i <= n,
            n == obstacles@.len(),
            n <= MAX_OBSTACLES,
            forall|j: int| 0 <= j < obstacles@.len() ==> (#[trigger] obstacles@[j])@.wf(),
            obs_v == views_of(obstacles@),
            g0.wf(),
            body.half_w == g0.hw,
            body.half_h == g0.hh,
            body.acc.x == g0.ax,
            body.acc.y == g0.ay,
            body.bbox@ == g0.bbox,
            body.sprite_state == g0.state,
            in_range(body.vel.x as int),
            in_range(body.vel.y as int),
            // Each correction moves the position by at most twice the
            // coordinate bound (0x4000_0000), so after `i` obstacles the
            // position has drifted by at most `i` times 0x8000_0000.
            -(0x4000_0000 + 0x8000_0000 * (i as int)) <= body.pos.x as int <= 0x4000_0000
                + 0x8000_0000 * (i as int),
            -(0x4000_0000 + 0x8000_0000 * (i as int)) <= body.pos.y as int <= 0x4000_0000
                + 0x8000_0000 * (i as int),
            g_scan(body@, obs_v.skip(i as int)) == g_scan(g0, obs_v),
        decreases n - i,
    {
        let ghost g_pre = body@;
        proof {
            assert(obs_v[i as int] == obstacles@[i as int]@);
            assert(obs_v.skip(i as int).first() == obs_v[i as int]);
            assert(obs_v.skip(i as int).drop_first() =~= obs_v.skip(i as int + 1));
        }
        let ob = obstacles[i];
        if overlaps(&body.bbox, &ob) {
            let pv = penetration_vector(&body.bbox, &ob);
            proof {
                lemma_penetration_bounded(body.bbox@, ob@);
            }
            if pv.x != 0 {
                body.pos.x = body.pos.x - pv.x;
                body.vel.x = 0;
                body.contact_x = if pv.x < 0 {
                    CollisionNormalX::Left
                } else {
                    CollisionNormalX::Right
                };
            }
            if pv.y != 0 {
                body.pos.y = body.pos.y - pv.y;
                body.vel.y = 0;
                body.contact_y = if pv.y < 0 {
                    CollisionNormalY::Down
                } else {
                    CollisionNormalY::Up
                };
            }
        }
        proof {
            assert(body@ == g_scan_step(g_pre, obs_v[i as int]));
        }
        i = i + 1;
    }
    proof {
        assert(obs_v.skip(n as int) =~= Seq::<GBox>::empty());
        assert(body@ == g_scan(g0, obs_v));
        lemma_scan_frame(g0, obs_v);
    }
    crate::body::update_bounding_box(body);
}

} // verus!
