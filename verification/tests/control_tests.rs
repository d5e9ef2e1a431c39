use platformer_core::body::{Body, CollisionNormalY, SpriteState};
use platformer_core::control::{
    apply_controls, InputState, AIR_CONTROL_ACCEL, FAST_FALL_SPEED, JUMP_SPEED, MOVE_SPEED,
};
use platformer_core::geometry::Vec2;

fn grounded_actor() -> Body {
    let mut b = Body::new(
        Vec2 { x: 0, y: 0 },
        Vec2 { x: 0, y: -37 },
        Vec2 { x: 0, y: -400 },
        5,
        5,
    )
    .unwrap();
    b.contact_y = CollisionNormalY::Down;
    b
}

fn airborne_actor() -> Body {
    Body::new(
        Vec2 { x: 0, y: 0 },
        Vec2 { x: 11, y: -37 },
        Vec2 { x: 0, y: -400 },
        5,
        5,
    )
    .unwrap()
}

fn pressed(up: bool, down: bool, left: bool, right: bool) -> InputState {
    InputState { up, down, left, right }
}

#[test]
fn grounded_jump_sets_exact_jump_speed() {
    // With the Down contact from the previous tick and "up" pressed, the
    // vertical velocity becomes exactly the jump-speed constant, whatever
    // gravity had accumulated.
    let mut body = grounded_actor();
    assert_eq!(body.vel.y, -37);
    apply_controls(&mut body, pressed(true, false, false, false));
    assert_eq!(body.vel.y, JUMP_SPEED);
}

#[test]
fn grounded_jump_overrides_fast_fall() {
    let mut body = grounded_actor();
    apply_controls(&mut body, pressed(true, true, false, false));
    assert_eq!(body.vel.y, JUMP_SPEED);
}

#[test]
fn grounded_fast_fall_nudges_down() {
    let mut body = grounded_actor();
    apply_controls(&mut body, pressed(false, true, false, false));
    assert_eq!(body.vel.y, -FAST_FALL_SPEED);
}

#[test]
fn grounded_horizontal_control_is_direct() {
    let mut body = grounded_actor();
    apply_controls(&mut body, pressed(false, false, false, true));
    assert_eq!(body.vel.x, MOVE_SPEED);
    assert_eq!(body.sprite_state, SpriteState::Walking);

    let mut body = grounded_actor();
    apply_controls(&mut body, pressed(false, false, true, false));
    assert_eq!(body.vel.x, -MOVE_SPEED);
    assert_eq!(body.sprite_state, SpriteState::Walking);
}

#[test]
fn grounded_idle_zeroes_velocity() {
    let mut body = grounded_actor();
    body.vel.x = 42;
    apply_controls(&mut body, InputState::released());
    assert_eq!(body.vel.x, 0);
    assert_eq!(body.vel.y, 0);
    assert_eq!(body.sprite_state, SpriteState::Neutral);
}

#[test]
fn grounded_opposite_presses_cancel() {
    let mut body = grounded_actor();
    apply_controls(&mut body, pressed(false, false, true, true));
    assert_eq!(body.vel.x, 0);
    assert_eq!(body.sprite_state, SpriteState::Neutral);
}

#[test]
fn airborne_control_is_acceleration_only() {
    let mut body = airborne_actor();
    apply_controls(&mut body, pressed(false, false, false, true));
    // Velocity drifts: it is not written directly in the air.
    assert_eq!(body.vel, Vec2 { x: 11, y: -37 });
    assert_eq!(body.acc.x, AIR_CONTROL_ACCEL);
    assert_eq!(body.acc.y, -400);
    assert_eq!(body.sprite_state, SpriteState::InAir);
}

#[test]
fn airborne_left_takes_precedence() {
    let mut body = airborne_actor();
    apply_controls(&mut body, pressed(false, false, true, true));
    assert_eq!(body.acc.x, -AIR_CONTROL_ACCEL);
}

#[test]
fn airborne_idle_clears_horizontal_acceleration() {
    let mut body = airborne_actor();
    body.acc.x = 25;
    apply_controls(&mut body, InputState::released());
    assert_eq!(body.acc.x, 0);
    assert_eq!(body.sprite_state, SpriteState::InAir);
}

#[test]
fn airborne_up_press_does_not_jump() {
    let mut body = airborne_actor();
    apply_controls(&mut body, pressed(true, false, false, false));
    assert_eq!(body.vel.y, -37);
}
