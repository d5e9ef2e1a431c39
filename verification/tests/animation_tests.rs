use platformer_core::animation::{
    advance_frame, tick_timer, update_facing, FrameTimer, SpriteAnim,
};
use platformer_core::body::SpriteState;
use platformer_core::geometry::ConfigError;

#[test]
fn timer_rejects_bad_periods() {
    assert_eq!(FrameTimer::new(0), Err(ConfigError::InvalidTimerPeriod));
    assert_eq!(FrameTimer::new(-5), Err(ConfigError::InvalidTimerPeriod));
}

#[test]
fn timer_fires_on_elapse_and_keeps_phase() {
    let mut t = FrameTimer::new(100).unwrap();
    assert!(!tick_timer(&mut t, 60));
    assert_eq!(t.acc, 60);
    assert!(tick_timer(&mut t, 60));
    assert_eq!(t.acc, 20);
    assert!(!tick_timer(&mut t, 0));
    assert_eq!(t.acc, 20);
}

#[test]
fn timer_fires_exactly_at_period() {
    let mut t = FrameTimer::new(100).unwrap();
    assert!(tick_timer(&mut t, 100));
    assert_eq!(t.acc, 0);
}

#[test]
fn frame_holds_until_timer_fires() {
    let mut anim = SpriteAnim::new();
    advance_frame(&mut anim, SpriteState::Walking, false);
    assert_eq!(anim.frame, 0);
}

#[test]
fn neutral_shows_frame_zero() {
    let mut anim = SpriteAnim { frame: 3, flip_x: false };
    advance_frame(&mut anim, SpriteState::Neutral, true);
    assert_eq!(anim.frame, 0);
}

#[test]
fn walking_cycles_first_two_frames() {
    let mut anim = SpriteAnim::new();
    advance_frame(&mut anim, SpriteState::Walking, true);
    assert_eq!(anim.frame, 1);
    advance_frame(&mut anim, SpriteState::Walking, true);
    assert_eq!(anim.frame, 0);
    advance_frame(&mut anim, SpriteState::Walking, true);
    assert_eq!(anim.frame, 1);
}

#[test]
fn in_air_cycles_last_two_frames() {
    let mut anim = SpriteAnim::new();
    advance_frame(&mut anim, SpriteState::InAir, true);
    assert_eq!(anim.frame, 3);
    advance_frame(&mut anim, SpriteState::InAir, true);
    assert_eq!(anim.frame, 2);
    advance_frame(&mut anim, SpriteState::InAir, true);
    assert_eq!(anim.frame, 3);
}

#[test]
fn state_transition_changes_range_not_phase() {
    let mut t = FrameTimer::new(100).unwrap();
    tick_timer(&mut t, 70);
    // A state change leaves the timer's phase alone; only the range that
    // the next fired tick cycles is different.
    let mut anim = SpriteAnim { frame: 1, flip_x: false };
    advance_frame(&mut anim, SpriteState::InAir, false);
    assert_eq!(t.acc, 70);
    assert_eq!(anim.frame, 1);
    assert!(tick_timer(&mut t, 40));
    advance_frame(&mut anim, SpriteState::InAir, true);
    assert_eq!(anim.frame, 2);
}

#[test]
fn facing_follows_velocity_sign() {
    let mut anim = SpriteAnim::new();
    update_facing(&mut anim, -3);
    assert!(anim.flip_x);
    update_facing(&mut anim, 5);
    assert!(!anim.flip_x);
}

#[test]
fn facing_holds_on_zero_velocity() {
    let mut anim = SpriteAnim::new();
    update_facing(&mut anim, -3);
    assert!(anim.flip_x);
    update_facing(&mut anim, 0);
    assert!(anim.flip_x);
    update_facing(&mut anim, 2);
    update_facing(&mut anim, 0);
    assert!(!anim.flip_x);
}
