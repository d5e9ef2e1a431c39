use platformer_core::geometry::{
    overlaps, penetration_vector, Aabb, ConfigError, Vec2, COORD_BOUND,
};

fn boxed(cx: i64, cy: i64, hw: i64, hh: i64) -> Aabb {
    Aabb::new(Vec2 { x: cx, y: cy }, hw, hh).unwrap()
}

#[test]
fn overlap_is_symmetric() {
    let a = boxed(0, 0, 5, 5);
    let b = boxed(3, 4, 5, 5);
    assert_eq!(overlaps(&a, &b), overlaps(&b, &a));
    assert!(overlaps(&a, &b));
    let c = boxed(100, 100, 5, 5);
    assert_eq!(overlaps(&a, &c), overlaps(&c, &a));
    assert!(!overlaps(&a, &c));
}

#[test]
fn no_self_overlap() {
    let a = boxed(0, 0, 5, 5);
    assert!(!overlaps(&a, &a));
    // A distinct value with identical corners is the same box structurally.
    let b = boxed(0, 0, 5, 5);
    assert!(!overlaps(&a, &b));
}

#[test]
fn separated_boxes_do_not_overlap() {
    // A = [0,10]x[0,10], B = [20,30]x[0,10].
    let a = boxed(5, 5, 5, 5);
    let b = boxed(25, 5, 5, 5);
    assert_eq!(a.min.x, 0);
    assert_eq!(a.max.x, 10);
    assert_eq!(b.min.x, 20);
    assert_eq!(b.max.x, 30);
    assert!(!overlaps(&a, &b));
    assert!(!overlaps(&b, &a));
}

#[test]
fn touching_edges_do_not_overlap() {
    // A.max.x == B.min.x == 10: strict inequality at the boundary.
    let a = boxed(5, 5, 5, 5);
    let b = boxed(15, 5, 5, 5);
    assert_eq!(a.max.x, 10);
    assert_eq!(b.min.x, 10);
    assert!(!overlaps(&a, &b));
    assert!(!overlaps(&b, &a));
    // Touching along the top edge as well.
    let c = boxed(5, 15, 5, 5);
    assert_eq!(a.max.y, c.min.y);
    assert!(!overlaps(&a, &c));
}

#[test]
fn overlapping_boxes_overlap() {
    let a = boxed(5, 5, 5, 5);
    let b = boxed(14, 5, 5, 5);
    assert!(overlaps(&a, &b));
}

#[test]
fn penetration_prefers_shallowest_axis() {
    // Body [-5,5]x[-5,5] over ground [-5,5]x[-14,-4]: 1 unit of vertical
    // overlap against 10 of horizontal; the downward candidate wins.
    let a = boxed(0, 0, 5, 5);
    let b = boxed(0, -9, 5, 5);
    let v = penetration_vector(&a, &b);
    assert_eq!(v.x, 0);
    assert_eq!(v.y, -1);
}

#[test]
fn penetration_upward() {
    // Obstacle above: the up candidate is shallowest.
    let a = boxed(0, 0, 5, 5);
    let b = boxed(0, 9, 5, 5);
    let v = penetration_vector(&a, &b);
    assert_eq!(v.x, 0);
    assert_eq!(v.y, 1);
}

#[test]
fn penetration_left_and_right() {
    let a = boxed(0, 0, 5, 5);
    let right = penetration_vector(&a, &boxed(9, 0, 5, 5));
    assert_eq!((right.x, right.y), (1, 0));
    let left = penetration_vector(&a, &boxed(-9, 0, 5, 5));
    assert_eq!((left.x, left.y), (-1, 0));
}

#[test]
fn penetration_tie_breaks_by_evaluation_order() {
    // Two identical boxes stacked exactly on each other give all four
    // candidates the same magnitude: the first candidate (right) stands.
    let a = boxed(0, 0, 5, 5);
    let b = boxed(0, 0, 5, 5);
    let v = penetration_vector(&a, &b);
    assert_eq!((v.x, v.y), (10, 0));
    // Up ties with right: the earlier candidate (right) is kept because
    // later candidates must be strictly smaller.
    let c = boxed(0, 0, 5, 5);
    let d = boxed(4, 4, 5, 5);
    let v2 = penetration_vector(&c, &d);
    assert_eq!((v2.x, v2.y), (6, 0));
}

#[test]
fn box_construction_rejects_non_positive_extents() {
    let r = Aabb::new(Vec2 { x: 0, y: 0 }, 0, 5);
    assert_eq!(r, Err(ConfigError::NonPositiveExtent));
    let r = Aabb::new(Vec2 { x: 0, y: 0 }, 5, -3);
    assert_eq!(r, Err(ConfigError::NonPositiveExtent));
}

#[test]
fn box_construction_rejects_out_of_range_corners() {
    let r = Aabb::new(Vec2 { x: COORD_BOUND, y: 0 }, 1, 1);
    assert_eq!(r, Err(ConfigError::OutOfRange));
    let r = Aabb::new(Vec2 { x: 0, y: -COORD_BOUND }, 1, 1);
    assert_eq!(r, Err(ConfigError::OutOfRange));
}

#[test]
fn box_construction_derives_corners() {
    let b = boxed(3, -2, 4, 7);
    assert_eq!(b.min, Vec2 { x: -1, y: -9 });
    assert_eq!(b.max, Vec2 { x: 7, y: 5 });
}
