use bevy_third_person_camera::controller::{movement, movement_condition, MoveIntent, ThirdPersonController};
use bevy_third_person_camera::fixed::{clamp_wide, div_toward_zero, wrap_signed, wrap_turn, FULL_TURN, HALF_TURN, ONE};
use bevy_third_person_camera::input::{FrameInput, GamepadButton, GamepadState, KeyCode};
use bevy_third_person_camera::offset::Offset;
use bevy_third_person_camera::orbit::Orientation;
use bevy_third_person_camera::zoom::Zoom;

#[test]
fn zoom_new_starts_halfway() {
    let z = Zoom::new(1_500_000, 3_000_000);
    assert_eq!(z.radius(), 2_250_000);
    assert_eq!(z.radius_copy(), None);
    let z = Zoom::new(2 * ONE, 2 * ONE);
    assert_eq!(z.radius(), 2 * ONE);
}

#[test]
fn apply_zoom_clamps() {
    let mut z = Zoom::new(ONE, 4 * ONE);
    z.apply_zoom(ONE / 2);
    // 2.5 - 0.5 * 2.5
    assert_eq!(z.radius(), 1_250_000);
    z.apply_zoom(ONE);
    assert_eq!(z.radius(), ONE);
    z.apply_zoom(-10 * ONE);
    assert_eq!(z.radius(), 4 * ONE);
    z.apply_zoom(0);
    assert_eq!(z.radius(), 4 * ONE);
}

#[test]
fn aim_steps_without_overshoot() {
    let mut z = Zoom::new(1_500_000, 3_000_000);
    // step: 2.25 / 0.7 * 3 * 0.1 = 0.964285...
    z.aim(true, 700_000, 3 * ONE, ONE / 10);
    assert_eq!(z.radius_copy(), Some(2_250_000));
    assert_eq!(z.radius(), 2_250_000 - 964_285);
    z.aim(true, 700_000, 3 * ONE, ONE / 10);
    assert_eq!(z.radius(), 1_050_000);
    z.aim(false, 700_000, 3 * ONE, ONE / 10);
    assert_eq!(z.radius(), 1_050_000 + 964_285);
    assert_eq!(z.radius_copy(), Some(2_250_000));
    z.aim(false, 700_000, 3 * ONE, ONE / 10);
    assert_eq!(z.radius(), 2_250_000);
    assert_eq!(z.radius_copy(), None);
    z.aim(false, 700_000, 3 * ONE, ONE / 10);
    assert_eq!(z.radius(), 2_250_000);
}

#[test]
fn offset_converges_and_stays_bounded() {
    let mut o = Offset::new(ONE, ONE / 4);
    o.toggle_x_offset(true, 2 * ONE, ONE / 10);
    assert!(o.is_transitioning);
    assert_eq!(o.offset.0, 800_000);
    for _ in 0..9 {
        o.toggle_x_offset(false, 2 * ONE, ONE / 10);
    }
    assert_eq!(o.offset.0, -ONE);
    o.toggle_x_offset(false, 2 * ONE, ONE / 10);
    assert_eq!(o.offset.0, -ONE);
    assert_eq!(o.offset.1, ONE / 4);
}

#[test]
fn offset_negative_configuration_mirrors() {
    let mut o = Offset::new(-ONE / 2, 0);
    o.toggle_x_offset(false, ONE, ONE);
    assert_eq!(o.offset.0, ONE / 2);
    o.toggle_x_offset(true, ONE, ONE);
    assert_eq!(o.offset.0, -ONE / 2);
}

#[test]
fn orbit_wraps_yaw_and_rejects_pole() {
    let mut o = Orientation::level();
    o.orbit(10_000_000, 0);
    assert_eq!(o.yaw, 350_000_000);
    o.orbit(-20_000_000, 0);
    assert_eq!(o.yaw, 10_000_000);
    o.orbit(0, -89_000_000);
    assert_eq!(o.pitch, 89_000_000);
    o.orbit(0, -1_000_000);
    assert_eq!(o.pitch, 89_000_000);
    // a full turn of pitch is no change at all
    o.orbit(0, 360_000_000);
    assert_eq!(o.pitch, 89_000_000);
    // exactly at the pole is rejected too
    o.orbit(0, 179_000_000);
    assert_eq!(o.pitch, 89_000_000);
    o.orbit(0, 178_000_000);
    assert_eq!(o.pitch, -89_000_000);
}

#[test]
fn fixed_helpers_round_toward_zero() {
    assert_eq!(div_toward_zero(7, 2), 3);
    assert_eq!(div_toward_zero(-7, 2), -3);
    assert_eq!(clamp_wide(5, 0, 3), 3);
    assert_eq!(clamp_wide(-5, 0, 3), 0);
    assert_eq!(clamp_wide(2, 0, 3), 2);
    assert_eq!(wrap_turn(-1), FULL_TURN - 1);
    assert_eq!(wrap_turn(FULL_TURN as i128 * 3 + 5), 5);
    assert_eq!(wrap_signed(HALF_TURN as i128), -HALF_TURN);
    assert_eq!(wrap_signed(-HALF_TURN as i128 - 1), HALF_TURN - 1);
}

#[test]
fn keyboard_movement_intent() {
    let c = ThirdPersonController::default();
    let mut input = FrameInput::idle(ONE / 60, None);
    assert!(movement_condition(&input));
    input.keys_pressed = vec![KeyCode::KeyW, KeyCode::KeyA];
    assert_eq!(movement(&c, &input), MoveIntent { forward: ONE, right: -ONE, speed: 2_500_000 });
    input.keys_pressed = vec![KeyCode::KeyW, KeyCode::KeyS, KeyCode::ShiftLeft];
    assert_eq!(movement(&c, &input), MoveIntent { forward: 0, right: 0, speed: 5 * ONE });
}

#[test]
fn gamepad_movement_intent() {
    let c = ThirdPersonController::default();
    let mut input = FrameInput::idle(ONE / 60, None);
    input.keys_pressed = vec![KeyCode::KeyW];
    input.gamepad = Some(GamepadState {
        left_stick: (300_000, 300_000),
        right_stick: (0, 0),
        pressed: vec![GamepadButton::LeftTrigger],
        just_pressed: Vec::new(),
    });
    assert!(!movement_condition(&input));
    assert_eq!(movement(&c, &input), MoveIntent { forward: 0, right: 0, speed: 5 * ONE });
    if let Some(g) = input.gamepad.as_mut() {
        g.left_stick = (-600_000, 200_000);
        g.pressed = Vec::new();
    }
    assert_eq!(
        movement(&c, &input),
        MoveIntent { forward: 200_000, right: -600_000, speed: 2_500_000 }
    );
}
