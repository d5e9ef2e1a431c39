//! Axis-aligned bounding boxes: the overlap test and the shallowest-axis
//! penetration vector, with their mathematical models.

use vstd::prelude::*;

verus! {

/// Every coordinate handled by the engine (positions, velocities,
/// accelerations, box corners) is kept within `[-COORD_BOUND, COORD_BOUND]`,
/// so that differences, per-tick products and resolution corrections all fit
/// comfortably in an `i64`.
pub const COORD_BOUND: i64 = 0x4000_0000;

/// Largest admissible per-tick elapsed time.
pub const DT_BOUND: i64 = 0x1_0000;

pub open spec fn in_range(x: int) -> bool {
    -(COORD_BOUND as int) <= x <= COORD_BOUND as int
}

pub open spec fn abs_int(x: int) -> int {
    if x < 0 {
        -x
    } else {
        x
    }
}

/// A rejected world configuration (fail-fast validation at construction).
#[derive(Clone, Copy, PartialEq, Eq, Structural, Debug)]
pub enum ConfigError {
    /// A bounding box was given a zero or negative half-extent.
    NonPositiveExtent,
    /// A coordinate (or a derived box corner) falls outside the supported
    /// coordinate range.
    OutOfRange,
    /// An animation timer was given a period outside `(0, COORD_BOUND]`.
    InvalidTimerPeriod,
}

/// A 2D integer vector.
#[derive(Clone, Copy, PartialEq, Eq, Structural, Debug)]
pub struct Vec2 {
    pub x: i64,
    pub y: i64,
}

/// Mathematical model of a box: its corner coordinates as unbounded integers.
pub ghost struct GBox {
    pub min_x: int,
    pub min_y: int,
    pub max_x: int,
    pub max_y: int,
}

impl GBox {
    /// A well-formed box has strictly positive extent on both axes and
    /// corners within the supported coordinate range.
    pub open spec fn wf(self) -> bool {
        &&& in_range(self.min_x)
        &&& in_range(self.min_y)
        &&& in_range(self.max_x)
        &&& in_range(self.max_y)
        &&& self.min_x < self.max_x
        &&& self.min_y < self.max_y
    }
}

/// An axis-aligned bounding box, stored by its min and max corners.
#[derive(Clone, Copy, PartialEq, Eq, Structural, Debug)]
pub struct Aabb {
    pub min: Vec2,
    pub max: Vec2,
}

impl View for Aabb {
    type V = GBox;

    open spec fn view(&self) -> GBox {
        GBox {
            min_x: self.min.x as int,
            min_y: self.min.y as int,
            max_x: self.max.x as int,
            max_y: self.max.y as int,
        }
    }
}

impl Aabb {
    /// Builds a box from its center and half-extents, rejecting zero or
    /// negative extents and out-of-range corners.
    pub fn new(center: Vec2, half_w: i64, half_h: i64) -> (r: Result<Aabb, ConfigError>)
        ensures
            r matches Ok(b) ==> {
                &&& b.min.x == center.x - half_w
                &&& b.min.y == center.y - half_h
                &&& b.max.x == center.x + half_w
                &&& b.max.y == center.y + half_h
                &&& b@.wf()
            },
            r is Ok <==> {
                &&& half_w > 0
                &&& half_h > 0
                &&& in_range(center.x - half_w)
                &&& in_range(center.x + half_w)
                &&& in_range(center.y - half_h)
                &&& in_range(center.y + half_h)
            },
            r == Err::<Aabb, ConfigError>(ConfigError::NonPositiveExtent) <==> (half_w <= 0
                || half_h <= 0),
            r == Err::<Aabb, ConfigError>(ConfigError::OutOfRange) <==> {
                &&& half_w > 0
                &&& half_h > 0
                &&& !(in_range(center.x - half_w) && in_range(center.x + half_w) && in_range(
                    center.y - half_h,
                ) && in_range(center.y + half_h))
            },
    {
        if half_w <= 0 || half_h <= 0 {
            return Err(ConfigError::NonPositiveExtent);
        }
        if center.x < -COORD_BOUND || center.x > COORD_BOUND || center.y < -COORD_BOUND || center.y
            > COORD_BOUND || half_w > COORD_BOUND || half_h > COORD_BOUND {
            return Err(ConfigError::OutOfRange);
        }
        let min_x = center.x - half_w;
        let min_y = center.y - half_h;
        let max_x = center.x + half_w;
        let max_y = center.y + half_h;
        if min_x < -COORD_BOUND || max_x > COORD_BOUND || min_y < -COORD_BOUND || max_y
            > COORD_BOUND {
            return Err(ConfigError::OutOfRange);
        }
        Ok(Aabb { min: Vec2 { x: min_x, y: min_y }, max: Vec2 { x: max_x, y: max_y } })
    }
}

/// Two boxes overlap iff they are strictly inside each other on both axes;
/// edges that exactly touch do not count, and a box never overlaps itself.
pub open spec fn spec_overlaps(a: GBox, b: GBox) -> bool {
    &&& a != b
    &&& a.max_x > b.min_x
    &&& b.max_x > a.min_x
    &&& a.max_y > b.min_y
    &&& b.max_y > a.min_y
}

/// The overlap test: separation is decided per axis, exactly touching edges
/// are treated as separated, and a box is never considered to overlap itself.
pub fn overlaps(a: &Aabb, b: &Aabb) -> (r: bool)
    ensures
        r == spec_overlaps(a@, b@),
{
    if a == b {
        return false;
    }
    if a.max.x <= b.min.x || a.min.x >= b.max.x {
        return false;
    }
    if a.max.y <= b.min.y || a.min.y >= b.max.y {
        return false;
    }
    true
}

/// The overlap test is symmetric: the order of the two boxes never matters.
pub proof fn lemma_overlaps_symmetric(a: GBox, b: GBox)
    ensures
        spec_overlaps(a, b) == spec_overlaps(b, a),
{
}

/// A box never overlaps itself: the identity exclusion holds for every box.
pub proof fn lemma_overlaps_irreflexive(a: GBox)
    ensures
        !spec_overlaps(a, a),
{
}

/// Boxes that share an exact edge on either axis do not overlap: the
/// separation comparison is strict at the boundary.
pub proof fn lemma_touching_edges_do_not_overlap(a: GBox, b: GBox)
    requires
        a.max_x == b.min_x || b.max_x == a.min_x || a.max_y == b.min_y || b.max_y == a.min_y,
    ensures
        !spec_overlaps(a, b),
{
}

/// Mathematical model of a penetration vector.
pub ghost struct GPen {
    pub x: int,
    pub y: int,
}

/// The shallowest-axis penetration vector of `a` into `b`: of the four axial
/// separations, the one of smallest absolute magnitude wins, ties broken in
/// the order right, up, down, left.
pub open spec fn spec_penetration(a: GBox, b: GBox) -> GPen {
    let d_right = abs_int(a.max_x - b.min_x);
    let d_up = abs_int(a.max_y - b.min_y);
    let d_down = abs_int(a.min_y - b.max_y);
    let d_left = abs_int(a.min_x - b.max_x);
    if d_left < d_right && d_left < d_up && d_left < d_down {
        GPen { x: -d_left, y: 0 }
    } else if d_down < d_right && d_down < d_up {
        GPen { x: 0, y: -d_down }
    } else if d_up < d_right {
        GPen { x: 0, y: d_up }
    } else {
        GPen { x: d_right, y: 0 }
    }
}

fn abs_diff(a: i64, b: i64) -> (r: i64)
    requires
        in_range(a as int),
        in_range(b as int),
    ensures
        r == abs_int(a - b),
{
    let d = a - b;
    if d < 0 {
        -d
    } else {
        d
    }
}

/// Computes the shallowest axial separation of two boxes, evaluating the
/// four candidates in order (right, up, down, left) and keeping the first
/// one of strictly smallest absolute magnitude.
pub fn penetration_vector(a: &Aabb, b: &Aabb) -> (v: Vec2)
    requires
        a@.wf(),
        b@.wf(),
    ensures
        v.x == spec_penetration(a@, b@).x,
        v.y == spec_penetration(a@, b@).y,
{
    let mut min_dist = abs_diff(a.max.x, b.min.x);
    let mut vx: i64 = min_dist;
    let mut vy: i64 = 0;

    let d_up = abs_diff(a.max.y, b.min.y);
    if d_up < min_dist {
        min_dist = d_up;
        vx = 0;
        vy = d_up;
    }
    let d_down = abs_diff(a.min.y, b.max.y);
    if d_down < min_dist {
        min_dist = d_down;
        vx = 0;
        vy = -d_down;
    }
    let d_left = abs_diff(a.min.x, b.max.x);
    if d_left < min_dist {
        vx = -d_left;
        vy = 0;
    }
    Vec2 { x: vx, y: vy }
}

/// On overlapping boxes the penetration vector is nonzero on exactly one
/// axis: no diagonal correction is ever produced.
pub proof fn lemma_penetration_single_axis(a: GBox, b: GBox)
    requires
        spec_overlaps(a, b),
    ensures
        (spec_penetration(a, b).x == 0) != (spec_penetration(a, b).y == 0),
{
}

/// `a` translated by `(dx, dy)`.
pub open spec fn translated(a: GBox, dx: int, dy: int) -> GBox {
    GBox {
        min_x: a.min_x + dx,
        min_y: a.min_y + dy,
        max_x: a.max_x + dx,
        max_y: a.max_y + dy,
    }
}

/// The penetration vector separates: subtracting it from an overlapping box
/// leaves the two boxes exactly touching on the corrected axis, and no
/// longer overlapping.
pub proof fn lemma_penetration_separates(a: GBox, b: GBox)
    requires
        spec_overlaps(a, b),
    ensures
        !spec_overlaps(
            translated(a, -spec_penetration(a, b).x, -spec_penetration(a, b).y),
            b,
        ),
{
}

/// For well-formed boxes each component of the penetration vector is at most
/// twice the coordinate bound in magnitude.
pub proof fn lemma_penetration_bounded(a: GBox, b: GBox)
    requires
        a.wf(),
        b.wf(),
    ensures
        abs_int(spec_penetration(a, b).x) <= 2 * COORD_BOUND,
        abs_int(spec_penetration(a, b).y) <= 2 * COORD_BOUND,
{
}

/// `-(b*m) <= x*d <= b*m` whenever `-b <= x <= b` and `0 <= d <= m`.
pub proof fn lemma_mul_range(x: int, d: int, b: int, m: int)
    by (nonlinear_arith)
    requires
        -b <= x <= b,
        0 <= d <= m,
        0 <= b,
    ensures
        -(b * m) <= x * d <= b * m,
{
}

} // verus!
