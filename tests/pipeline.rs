use bevy_third_person_camera::camera::{
    sync_player_camera, zoom_condition, Basis, CameraTransform, CustomGamepadSettings,
    ThirdPersonCamera, Vec3,
};
use bevy_third_person_camera::fixed::{FULL_TURN, ONE, QUARTER_TURN};
use bevy_third_person_camera::input::{
    compute_look_delta, compute_zoom_delta, orbit_gamepad, orbit_mouse, zoom_gamepad, zoom_mouse,
    FrameInput, GamepadButton, GamepadState, KeyCode, MouseButton,
};
use bevy_third_person_camera::orbit::Orientation;

const WINDOW: Option<(i64, i64)> = Some((1000 * ONE, 500 * ONE));
const FRAME: i64 = ONE / 60;

fn level_transform() -> CameraTransform {
    CameraTransform { translation: Vec3::new(0, 0, 0), rotation: Orientation::level() }
}

fn identity() -> Basis {
    Basis {
        x_axis: Vec3::new(ONE, 0, 0),
        y_axis: Vec3::new(0, ONE, 0),
        z_axis: Vec3::new(0, 0, ONE),
    }
}

fn idle() -> FrameInput {
    FrameInput::idle(FRAME, WINDOW)
}

fn with_gamepad(input: &mut FrameInput, right_stick: (i64, i64), pressed: Vec<GamepadButton>) {
    input.gamepad = Some(GamepadState {
        left_stick: (0, 0),
        right_stick,
        pressed,
        just_pressed: Vec::new(),
    });
}

#[test]
fn default_camera_values() {
    let cam = ThirdPersonCamera::default();
    assert!(!cam.aim_enabled);
    assert_eq!(cam.aim_button, MouseButton::Right);
    assert_eq!(cam.aim_speed, 3 * ONE);
    assert_eq!(cam.aim_zoom, 700_000);
    assert!(cam.cursor_lock_toggle_enabled);
    assert!(cam.cursor_lock_active);
    assert_eq!(cam.cursor_lock_key, KeyCode::Space);
    assert_eq!(cam.sensitivity, (ONE, ONE));
    assert_eq!(cam.offset.offset, (500_000, 400_000));
    assert_eq!(cam.offset_toggle_speed, 5 * ONE);
    assert_eq!(cam.offset_toggle_key, KeyCode::KeyE);
    assert_eq!(cam.zoom.min, 1_500_000);
    assert_eq!(cam.zoom.max, 3_000_000);
    assert_eq!(cam.zoom.radius(), 2_250_000);
    assert_eq!(cam.zoom.radius_copy(), None);
    assert_eq!(cam.zoom_sensitivity, ONE);
    assert!(cam.is_valid());
    let pad = CustomGamepadSettings::default();
    assert_eq!(pad.aim_button, GamepadButton::LeftTrigger2);
    assert_eq!(pad.zoom_in_button, GamepadButton::DPadUp);
    assert_eq!(pad.zoom_out_button, GamepadButton::DPadDown);
    assert_eq!(pad.sensitivity, (7 * ONE, 4 * ONE));
    assert_eq!(pad.dead_zone, ONE / 2);
}

#[test]
fn invalid_configurations_are_rejected() {
    let mut cam = ThirdPersonCamera::default();
    cam.sensitivity = (0, ONE);
    assert!(!cam.is_valid());
    let mut cam = ThirdPersonCamera::default();
    cam.aim_zoom = 0;
    assert!(!cam.is_valid());
    let mut cam = ThirdPersonCamera::default();
    cam.zoom.min = 4 * ONE;
    assert!(!cam.is_valid());
}

#[test]
fn zoom_condition_needs_camera_zoom_and_lock() {
    let mut cam = ThirdPersonCamera::default();
    assert!(zoom_condition(Some(&cam)));
    assert!(!zoom_condition(None));
    cam.cursor_lock_active = false;
    assert!(!zoom_condition(Some(&cam)));
    cam.cursor_lock_active = true;
    cam.zoom_enabled = false;
    assert!(!zoom_condition(Some(&cam)));
}

#[test]
fn wheel_zooms_proportionally() {
    let mut cam = ThirdPersonCamera::default();
    let mut t = level_transform();
    let mut input = idle();
    input.mouse_wheel = ONE;
    cam.update_frame(&mut t, &input, true);
    // 2.25 - 1 * 2.25 * 0.1
    assert_eq!(cam.zoom.radius(), 2_025_000);
    input.mouse_wheel = -ONE;
    cam.update_frame(&mut t, &input, true);
    // 2.025 + 2.025 * 0.1
    assert_eq!(cam.zoom.radius(), 2_227_500);
}

#[test]
fn zoom_stays_within_bounds() {
    let mut cam = ThirdPersonCamera::default();
    let mut t = level_transform();
    let mut input = idle();
    input.mouse_wheel = 50 * ONE;
    cam.update_frame(&mut t, &input, true);
    assert_eq!(cam.zoom.radius(), cam.zoom.min);
    input.mouse_wheel = -50 * ONE;
    cam.update_frame(&mut t, &input, true);
    assert_eq!(cam.zoom.radius(), cam.zoom.max);
    for wheel in [-3 * ONE, ONE / 3, 7 * ONE, -ONE / 7] {
        input.mouse_wheel = wheel;
        cam.update_frame(&mut t, &input, true);
        assert!(cam.zoom.min <= cam.zoom.radius() && cam.zoom.radius() <= cam.zoom.max);
    }
}

#[test]
fn zoom_is_suppressed_while_cursor_free() {
    let mut cam = ThirdPersonCamera::default();
    cam.cursor_lock_active = false;
    let mut t = level_transform();
    let mut input = idle();
    input.mouse_wheel = ONE;
    cam.update_frame(&mut t, &input, true);
    assert_eq!(cam.zoom.radius(), 2_250_000);
}

#[test]
fn gamepad_zoom_buttons_step_by_a_hundredth() {
    let mut cam = ThirdPersonCamera::default();
    let mut t = level_transform();
    let mut input = idle();
    with_gamepad(&mut input, (0, 0), vec![GamepadButton::DPadDown]);
    cam.update_frame(&mut t, &input, true);
    assert_eq!(cam.zoom.radius(), 2_272_500);
    with_gamepad(&mut input, (0, 0), vec![GamepadButton::DPadUp]);
    cam.update_frame(&mut t, &input, true);
    // 2.2725 - 0.022725, rounded toward zero in millionths
    assert_eq!(cam.zoom.radius(), 2_249_775);
}

#[test]
fn aim_scenario_reaches_target_and_restores() {
    let mut cam = ThirdPersonCamera::default();
    cam.aim_enabled = true;
    let mut t = level_transform();
    let mut held = idle();
    held.mouse_pressed = vec![MouseButton::Right];
    for _ in 0..120 {
        let facing = cam.update_frame(&mut t, &held, true);
        assert_eq!(facing, Some(t.rotation));
        assert_eq!(cam.zoom.radius_copy(), Some(2_250_000));
    }
    assert_eq!(cam.zoom.radius(), 1_050_000);
    let released = idle();
    let mut frames = 0;
    while cam.zoom.radius_copy().is_some() {
        let facing = cam.update_frame(&mut t, &released, true);
        assert_eq!(facing, None);
        frames += 1;
        assert!(frames < 1000);
    }
    assert_eq!(cam.zoom.radius(), 2_250_000);
}

#[test]
fn aim_round_trip_with_uneven_frames() {
    let mut cam = ThirdPersonCamera::default();
    cam.aim_enabled = true;
    cam.zoom.radius = 2_700_001;
    let mut t = level_transform();
    let dts = [ONE / 7, ONE / 144, ONE / 30, ONE / 3, 1, ONE];
    let mut input = idle();
    input.gamepad = Some(GamepadState {
        left_stick: (0, 0),
        right_stick: (0, 0),
        pressed: vec![GamepadButton::LeftTrigger2],
        just_pressed: Vec::new(),
    });
    for (i, dt) in dts.iter().enumerate() {
        input.delta_secs = *dt;
        cam.update_frame(&mut t, &input, true);
        assert_eq!(cam.zoom.radius_copy(), Some(2_700_001), "frame {}", i);
    }
    input.gamepad = None;
    let mut i = 0;
    while cam.zoom.radius_copy().is_some() {
        input.delta_secs = dts[i % dts.len()];
        cam.update_frame(&mut t, &input, true);
        i += 1;
        assert!(i < 10_000);
    }
    assert_eq!(cam.zoom.radius(), 2_700_001);
}

#[test]
fn aim_without_enable_does_nothing() {
    let mut cam = ThirdPersonCamera::default();
    let mut t = level_transform();
    let mut input = idle();
    input.mouse_pressed = vec![MouseButton::Right];
    let facing = cam.update_frame(&mut t, &input, true);
    assert_eq!(facing, None);
    assert_eq!(cam.zoom.radius(), 2_250_000);
    assert_eq!(cam.zoom.radius_copy(), None);
}

#[test]
fn mouse_orbit_exact_angles() {
    let mut cam = ThirdPersonCamera::default();
    let mut t = level_transform();
    let mut input = idle();
    // 100 px across a 1000 px window turns by a tenth of half a turn.
    input.mouse_motion = (100 * ONE, 0);
    cam.update_frame(&mut t, &input, true);
    assert_eq!(t.rotation.yaw, FULL_TURN - 18_000_000);
    assert_eq!(t.rotation.pitch, 0);
    // 50 px across a 500 px window pitches down by 18 degrees.
    input.mouse_motion = (0, 50 * ONE);
    cam.update_frame(&mut t, &input, true);
    assert_eq!(t.rotation.pitch, -18_000_000);
}

#[test]
fn orbit_button_gates_mouse() {
    let mut cam = ThirdPersonCamera::default();
    cam.mouse_orbit_button_enabled = true;
    let mut t = level_transform();
    let mut input = idle();
    input.mouse_motion = (100 * ONE, 0);
    cam.update_frame(&mut t, &input, true);
    assert_eq!(t.rotation, Orientation::level());
    input.mouse_pressed = vec![MouseButton::Middle];
    cam.update_frame(&mut t, &input, true);
    assert_eq!(t.rotation.yaw, FULL_TURN - 18_000_000);
}

#[test]
fn pitch_never_reaches_a_pole() {
    let mut cam = ThirdPersonCamera::default();
    let mut t = level_transform();
    let mut input = idle();
    input.mouse_motion = (0, 40 * ONE);
    for _ in 0..200 {
        cam.update_frame(&mut t, &input, true);
        assert!(-QUARTER_TURN < t.rotation.pitch && t.rotation.pitch < QUARTER_TURN);
    }
    // The last accepted step left the pitch 14.4 degrees short of the pole.
    assert_eq!(t.rotation.pitch, -86_400_000);
    input.mouse_motion = (0, -40 * ONE);
    for _ in 0..200 {
        cam.update_frame(&mut t, &input, true);
        assert!(-QUARTER_TURN < t.rotation.pitch && t.rotation.pitch < QUARTER_TURN);
    }
    assert_eq!(t.rotation.pitch, 86_400_000);
}

#[test]
fn stick_inside_dead_zone_does_not_orbit() {
    let mut cam = ThirdPersonCamera::default();
    let mut t = level_transform();
    let mut input = idle();
    // magnitude about 0.42, below 0.5 although the square corner is not
    with_gamepad(&mut input, (300_000, 300_000), Vec::new());
    cam.update_frame(&mut t, &input, true);
    assert_eq!(t.rotation, Orientation::level());
    with_gamepad(&mut input, (499_999, 0), Vec::new());
    cam.update_frame(&mut t, &input, true);
    assert_eq!(t.rotation, Orientation::level());
}

#[test]
fn stick_outside_dead_zone_orbits() {
    let mut cam = ThirdPersonCamera::default();
    let mut t = level_transform();
    let mut input = idle();
    with_gamepad(&mut input, (ONE, 0), Vec::new());
    cam.update_frame(&mut t, &input, true);
    // full stick, sensitivity 7, over 1000 px: 7/1000 of a full turn
    assert_eq!(t.rotation.yaw, FULL_TURN - 2_520_000);
    assert_eq!(t.rotation.pitch, 0);
    with_gamepad(&mut input, (0, ONE), Vec::new());
    cam.update_frame(&mut t, &input, true);
    // pushing up looks up: sensitivity 4 over 500 px of half a turn
    assert_eq!(t.rotation.pitch, 1_440_000);
}

#[test]
fn offset_toggle_slides_between_extremes() {
    let mut cam = ThirdPersonCamera::default();
    cam.offset_toggle_enabled = true;
    let mut t = level_transform();
    let mut input = idle();
    input.keys_just_pressed = vec![KeyCode::KeyE];
    cam.update_frame(&mut t, &input, true);
    assert!(cam.offset.is_transitioning);
    // 0.5 - 5 * 0.016666
    assert_eq!(cam.offset.offset.0, 500_000 - 83_330);
    input.keys_just_pressed = Vec::new();
    for _ in 0..30 {
        cam.update_frame(&mut t, &input, true);
        assert!(-500_000 <= cam.offset.offset.0 && cam.offset.offset.0 <= 500_000);
    }
    assert_eq!(cam.offset.offset.0, -500_000);
    assert_eq!(cam.offset.offset.1, 400_000);
    with_gamepad(&mut input, (0, 0), Vec::new());
    if let Some(g) = input.gamepad.as_mut() {
        g.just_pressed = vec![GamepadButton::DPadRight];
    }
    cam.update_frame(&mut t, &input, true);
    assert!(!cam.offset.is_transitioning);
    input.gamepad = None;
    for _ in 0..30 {
        cam.update_frame(&mut t, &input, true);
    }
    assert_eq!(cam.offset.offset.0, 500_000);
}

#[test]
fn cursor_lock_toggles_on_key() {
    let mut cam = ThirdPersonCamera::default();
    let mut input = idle();
    input.keys_just_pressed = vec![KeyCode::Space];
    cam.toggle_cursor(&input);
    assert!(!cam.cursor_lock_active);
    cam.toggle_cursor(&input);
    assert!(cam.cursor_lock_active);
    cam.cursor_lock_toggle_enabled = false;
    cam.toggle_cursor(&input);
    assert!(cam.cursor_lock_active);
}

#[test]
fn free_cursor_stops_mouse_orbit() {
    let mut cam = ThirdPersonCamera::default();
    cam.cursor_lock_active = false;
    let mut t = level_transform();
    let mut input = idle();
    input.mouse_motion = (100 * ONE, 100 * ONE);
    cam.update_frame(&mut t, &input, true);
    assert_eq!(t.rotation, Orientation::level());
}

#[test]
fn sync_places_camera_behind_target() {
    let mut cam = ThirdPersonCamera::default();
    let mut t = level_transform();
    let target = Vec3::new(ONE, 2 * ONE, 3 * ONE);
    sync_player_camera(&cam, &mut t, Some(target), &identity());
    assert_eq!(t.translation, Vec3::new(ONE, 2 * ONE, 3 * ONE + 2_250_000));
    cam.offset_enabled = true;
    sync_player_camera(&cam, &mut t, Some(target), &identity());
    assert_eq!(t.translation, Vec3::new(1_500_000, 2_400_000, 5_250_000));
}

#[test]
fn sync_follows_target_motion() {
    let mut cam = ThirdPersonCamera::default();
    cam.offset_enabled = true;
    let basis = Basis {
        x_axis: Vec3::new(707_107, 0, -707_107),
        y_axis: Vec3::new(0, ONE, 0),
        z_axis: Vec3::new(707_107, 0, 707_107),
    };
    let mut t = level_transform();
    let before = Vec3::new(-3 * ONE, ONE / 3, 17);
    sync_player_camera(&cam, &mut t, Some(before), &basis);
    let first = t.translation;
    let after = Vec3::new(before.x + 5 * ONE, before.y, before.z);
    sync_player_camera(&cam, &mut t, Some(after), &basis);
    assert_eq!(t.translation.x - first.x, 5 * ONE);
    assert_eq!(t.translation.y - first.y, 0);
    assert_eq!(t.translation.z - first.z, 0);
}

#[test]
fn no_target_leaves_everything_unchanged() {
    let mut cam = ThirdPersonCamera::default();
    cam.aim_enabled = true;
    cam.offset_toggle_enabled = true;
    let mut t = CameraTransform {
        translation: Vec3::new(4, 5, 6),
        rotation: Orientation { yaw: 1_000, pitch: -2_000 },
    };
    let mut input = idle();
    input.mouse_motion = (100 * ONE, 20 * ONE);
    input.mouse_wheel = ONE;
    input.mouse_pressed = vec![MouseButton::Right];
    input.keys_just_pressed = vec![KeyCode::KeyE, KeyCode::Space];
    let facing = cam.update_frame(&mut t, &input, false);
    sync_player_camera(&cam, &mut t, None, &identity());
    assert_eq!(facing, None);
    assert_eq!(t.translation, Vec3::new(4, 5, 6));
    assert_eq!(t.rotation, Orientation { yaw: 1_000, pitch: -2_000 });
    assert_eq!(cam.zoom.radius(), 2_250_000);
    assert_eq!(cam.zoom.radius_copy(), None);
    assert_eq!(cam.offset.offset, (500_000, 400_000));
    assert!(!cam.offset.is_transitioning);
    assert!(cam.cursor_lock_active);
}

#[test]
fn missing_window_means_no_orbit() {
    let mut cam = ThirdPersonCamera::default();
    let mut t = level_transform();
    let mut input = FrameInput::idle(FRAME, None);
    input.mouse_motion = (100 * ONE, 100 * ONE);
    cam.update_frame(&mut t, &input, true);
    assert_eq!(t.rotation, Orientation::level());
    input.window = Some((0, 0));
    cam.update_frame(&mut t, &input, true);
    assert_eq!(t.rotation, Orientation::level());
}

#[test]
fn device_deltas_add_up() {
    let cam = ThirdPersonCamera::default();
    let mut input = idle();
    input.mouse_motion = (100 * ONE, -50 * ONE);
    input.mouse_wheel = 2 * ONE;
    with_gamepad(&mut input, (ONE, 0), vec![GamepadButton::DPadUp]);
    assert_eq!(orbit_mouse(&cam, &input), (18_000_000, -18_000_000));
    assert_eq!(orbit_gamepad(&cam, &input), (2_520_000, 0));
    assert_eq!(compute_look_delta(&cam, &input), (20_520_000, -18_000_000));
    assert_eq!(zoom_mouse(&cam, &input), 200_000);
    assert_eq!(zoom_gamepad(&cam, &input), 10_000);
    assert_eq!(compute_zoom_delta(&cam, &input), 210_000);
    with_gamepad(&mut input, (0, 0), vec![GamepadButton::DPadUp, GamepadButton::DPadDown]);
    assert_eq!(zoom_gamepad(&cam, &input), -10_000);
}
