//! The third-person camera: its configuration and state, the per-frame
//! pipeline that updates them, and the synchronization step that places
//! the camera relative to its target.
use vstd::prelude::*;
use crate::fixed::{ONE, LIMIT, within_limit, fixed_mul, div_toward_zero, lemma_mul_bound};
use crate::input::{
    MouseButton, KeyCode, GamepadButton, FrameInput, gamepad_holds, gamepad_went_down, look_delta,
    zoom_delta, mouse_held, key_listed, gamepad_listed, compute_look_delta, compute_zoom_delta,
};
use crate::offset::{Offset, toggle_next};
use crate::orbit::{Orientation, orbit_next};
use crate::zoom::{Zoom, aim_next, zoomed_radius};

verus! {

/// Gamepad bindings and tunables of the camera.
#[derive(Clone, Copy, Debug)]
pub struct CustomGamepadSettings {
    /// The aim button.
    pub aim_button: GamepadButton,
    /// The button that must be held for the stick to orbit, where orbiting
    /// needs a button.
    pub mouse_orbit_button: GamepadButton,
    /// The offset toggle button.
    pub offset_toggle_button: GamepadButton,
    /// Horizontal and vertical stick sensitivity.
    pub sensitivity: (i64, i64),
    /// The zoom-in button.
    pub zoom_in_button: GamepadButton,
    /// The zoom-out button.
    pub zoom_out_button: GamepadButton,
    /// Radius of the right stick's circular dead zone.
    pub dead_zone: i64,
}

/// The camera's configuration and state.
#[derive(Clone, Copy, Debug)]
pub struct ThirdPersonCamera {
    /// Is aiming turned on?
    pub aim_enabled: bool,
    /// The mouse aim button.
    pub aim_button: MouseButton,
    /// How fast aiming zooms.
    pub aim_speed: i64,
    /// The aim factor: aiming zooms to the lower zoom bound times this.
    pub aim_zoom: i64,
    /// May the cursor lock be toggled?
    pub cursor_lock_toggle_enabled: bool,
    /// Is the cursor locked, so that pointer motion orbits the camera?
    pub cursor_lock_active: bool,
    /// The cursor lock toggle key.
    pub cursor_lock_key: KeyCode,
    /// Gamepad bindings and tunables.
    pub gamepad_settings: CustomGamepadSettings,
    /// Horizontal and vertical mouse sensitivity.
    pub sensitivity: (i64, i64),
    /// Does the mouse orbit only while a button is held?
    pub mouse_orbit_button_enabled: bool,
    /// The button that must be held for the mouse to orbit.
    pub mouse_orbit_button: MouseButton,
    /// Is the offset applied?
    pub offset_enabled: bool,
    /// The camera offset relative to its target.
    pub offset: Offset,
    /// Is the offset toggle turned on?
    pub offset_toggle_enabled: bool,
    /// The offset toggle key.
    pub offset_toggle_key: KeyCode,
    /// How fast the side offset slides.
    pub offset_toggle_speed: i64,
    /// Is zooming turned on?
    pub zoom_enabled: bool,
    /// Zoom bounds and current distance.
    pub zoom: Zoom,
    /// How fast the wheel zooms.
    pub zoom_sensitivity: i64,
}

/// A point or direction in world space.
#[derive(Clone, Copy, Debug, PartialEq, Eq, Structural)]
pub struct Vec3 {
    pub x: i64,
    pub y: i64,
    pub z: i64,
}

/// The columns of the camera's rotation matrix, in world space: its right,
/// up and backward directions. The host derives them from the camera's
/// orientation.
#[derive(Clone, Copy, Debug)]
pub struct Basis {
    pub x_axis: Vec3,
    pub y_axis: Vec3,
    pub z_axis: Vec3,
}

/// The camera's place in the world.
#[derive(Clone, Copy, Debug)]
pub struct CameraTransform {
    pub translation: Vec3,
    pub rotation: Orientation,
}

impl CustomGamepadSettings {
    pub open spec fn wf(&self) -> bool {
        &&& 0 < self.sensitivity.0 <= LIMIT
        &&& 0 < self.sensitivity.1 <= LIMIT
        &&& 0 <= self.dead_zone <= LIMIT
    }
}

impl Default for CustomGamepadSettings {
    fn default() -> (r: Self)
        ensures
            r.aim_button == GamepadButton::LeftTrigger2,
            r.mouse_orbit_button == GamepadButton::LeftTrigger,
            r.offset_toggle_button == GamepadButton::DPadRight,
            r.sensitivity.0 == 7 * ONE,
            r.sensitivity.1 == 4 * ONE,
            r.zoom_in_button == GamepadButton::DPadUp,
            r.zoom_out_button == GamepadButton::DPadDown,
            r.dead_zone == ONE / 2,
            r.wf(),
    {
        CustomGamepadSettings {
            aim_button: GamepadButton::LeftTrigger2,
            mouse_orbit_button: GamepadButton::LeftTrigger,
            offset_toggle_button: GamepadButton::DPadRight,
            sensitivity: (7 * ONE, 4 * ONE),
            zoom_in_button: GamepadButton::DPadUp,
            zoom_out_button: GamepadButton::DPadDown,
            dead_zone: ONE / 2,
        }
    }
}

impl Default for ThirdPersonCamera {
    fn default() -> (r: Self)
        ensures
            !r.aim_enabled,
            r.aim_button == MouseButton::Right,
            r.aim_speed == 3 * ONE,
            r.aim_zoom == 7 * ONE / 10,
            r.cursor_lock_toggle_enabled,
            r.cursor_lock_active,
            r.cursor_lock_key == KeyCode::Space,
            r.gamepad_settings.aim_button == GamepadButton::LeftTrigger2,
            r.gamepad_settings.mouse_orbit_button == GamepadButton::LeftTrigger,
            r.gamepad_settings.offset_toggle_button == GamepadButton::DPadRight,
            r.gamepad_settings.zoom_in_button == GamepadButton::DPadUp,
            r.gamepad_settings.zoom_out_button == GamepadButton::DPadDown,
            r.gamepad_settings.sensitivity.0 == 7 * ONE,
            r.gamepad_settings.sensitivity.1 == 4 * ONE,
            r.gamepad_settings.dead_zone == ONE / 2,
            r.sensitivity == (ONE, ONE),
            !r.mouse_orbit_button_enabled,
            r.mouse_orbit_button == MouseButton::Middle,
            !r.offset_enabled,
            r.offset.offset.0 == ONE / 2,
            r.offset.offset.1 == 4 * ONE / 10,
            r.offset.offset_copy.0 == ONE / 2,
            r.offset.offset_copy.1 == 4 * ONE / 10,
            !r.offset.is_transitioning,
            !r.offset_toggle_enabled,
            r.offset_toggle_speed == 5 * ONE,
            r.offset_toggle_key == KeyCode::KeyE,
            r.zoom_enabled,
            r.zoom.min == 3 * ONE / 2,
            r.zoom.max == 3 * ONE,
            r.zoom.radius == 9 * ONE / 4,
            r.zoom.radius_copy is None,
            r.zoom_sensitivity == ONE,
            r.wf(),
    {
        ThirdPersonCamera {
            aim_enabled: false,
            aim_button: MouseButton::Right,
            aim_speed: 3 * ONE,
            aim_zoom: 7 * ONE / 10,
            cursor_lock_key: KeyCode::Space,
            cursor_lock_toggle_enabled: true,
            gamepad_settings: CustomGamepadSettings::default(),
            cursor_lock_active: true,
            sensitivity: (ONE, ONE),
            mouse_orbit_button_enabled: false,
            mouse_orbit_button: MouseButton::Middle,
            offset_enabled: false,
            offset: Offset::new(ONE / 2, 4 * ONE / 10),
            offset_toggle_enabled: false,
            offset_toggle_speed: 5 * ONE,
            offset_toggle_key: KeyCode::KeyE,
            zoom_enabled: true,
            zoom: Zoom::new(3 * ONE / 2, 3 * ONE),
            zoom_sensitivity: ONE,
        }
    }
}

/// Does the zoom run this frame? Only with a camera, with zooming turned
/// on, and while the cursor is locked.
pub open spec fn zoom_allowed(cam: Option<ThirdPersonCamera>) -> bool {
    match cam {
        Some(c) => c.zoom_enabled && c.cursor_lock_active,
        None => false,
    }
}

/// Is the aim control held, on the mouse or on the gamepad?
pub open spec fn aim_held(cam: ThirdPersonCamera, input: &FrameInput) -> bool {
    input.mouse_pressed@.contains(cam.aim_button) || gamepad_holds(input, cam.gamepad_settings.aim_button)
}

/// Did the offset toggle go down this frame, on the keyboard or the gamepad?
pub open spec fn offset_toggled(cam: ThirdPersonCamera, input: &FrameInput) -> bool {
    input.keys_just_pressed@.contains(cam.offset_toggle_key) || gamepad_went_down(
        input,
        cam.gamepad_settings.offset_toggle_button,
    )
}

/// The zoom stage: a proportional zoom, unless zooming is off, the cursor
/// is free, aiming owns the distance, or there is nothing to zoom.
pub open spec fn after_zoom(cam: ThirdPersonCamera, input: &FrameInput) -> ThirdPersonCamera {
    if zoom_allowed(Some(cam)) && cam.zoom.radius_copy is None && zoom_delta(cam, input) != 0 {
        ThirdPersonCamera {
            zoom: Zoom { radius: zoomed_radius(cam.zoom, zoom_delta(cam, input)) as i64, ..cam.zoom },
            ..cam
        }
    } else {
        cam
    }
}

/// The aim stage, while aiming is turned on.
pub open spec fn after_aim(cam: ThirdPersonCamera, input: &FrameInput) -> ThirdPersonCamera {
    if cam.aim_enabled {
        ThirdPersonCamera {
            zoom: aim_next(
                cam.zoom,
                aim_held(cam, input),
                cam.aim_zoom as int,
                cam.aim_speed as int,
                input.delta_secs as int,
            ),
            ..cam
        }
    } else {
        cam
    }
}

/// The offset toggle stage, while the toggle is turned on.
pub open spec fn after_offset(cam: ThirdPersonCamera, input: &FrameInput) -> ThirdPersonCamera {
    if cam.offset_toggle_enabled {
        ThirdPersonCamera {
            offset: toggle_next(
                cam.offset,
                offset_toggled(cam, input),
                cam.offset_toggle_speed as int,
                input.delta_secs as int,
            ),
            ..cam
        }
    } else {
        cam
    }
}

/// The cursor lock stage: a press of the lock key flips the lock, where
/// toggling is allowed.
pub open spec fn after_cursor(cam: ThirdPersonCamera, input: &FrameInput) -> ThirdPersonCamera {
    if cam.cursor_lock_toggle_enabled && input.keys_just_pressed@.contains(cam.cursor_lock_key) {
        ThirdPersonCamera { cursor_lock_active: !cam.cursor_lock_active, ..cam }
    } else {
        cam
    }
}

/// The camera state after one frame with a target present.
pub open spec fn frame_next(cam: ThirdPersonCamera, input: &FrameInput) -> ThirdPersonCamera {
    after_cursor(after_offset(after_aim(after_zoom(cam, input), input), input), input)
}

/// The vector from the target to the camera, in world space: the distance
/// along the camera's backward axis, plus the offset along its right and up
/// axes when the offset is applied.
pub open spec fn arm(cam: ThirdPersonCamera, b: Basis) -> (int, int, int) {
    let r = cam.zoom.radius as int;
    let (ox, oy) = if cam.offset_enabled {
        (cam.offset.offset.0 as int, cam.offset.offset.1 as int)
    } else {
        (0, 0)
    };
    (
        fixed_mul(b.z_axis.x as int, r) + fixed_mul(b.x_axis.x as int, ox) + fixed_mul(b.y_axis.x as int, oy),
        fixed_mul(b.z_axis.y as int, r) + fixed_mul(b.x_axis.y as int, ox) + fixed_mul(b.y_axis.y as int, oy),
        fixed_mul(b.z_axis.z as int, r) + fixed_mul(b.x_axis.z as int, ox) + fixed_mul(b.y_axis.z as int, oy),
    )
}

/// Where synchronization places the camera for a target at `t`.
pub open spec fn synced_position(cam: ThirdPersonCamera, b: Basis, t: Vec3) -> (int, int, int) {
    (t.x + arm(cam, b).0, t.y + arm(cam, b).1, t.z + arm(cam, b).2)
}

impl Vec3 {
    /// Coordinates within the library's limits.
    pub open spec fn wf(&self) -> bool {
        within_limit(self.x as int) && within_limit(self.y as int) && within_limit(self.z as int)
    }

    /// The point `(x, y, z)`.
    pub fn new(x: i64, y: i64, z: i64) -> (r: Self)
        ensures
            r.x == x,
            r.y == y,
            r.z == z,
    {
        Vec3 { x, y, z }
    }
}

impl Basis {
    /// Entries of a rotation matrix lie in `[-1, 1]`.
    pub open spec fn wf(&self) -> bool {
        &&& unit_bounded(self.x_axis)
        &&& unit_bounded(self.y_axis)
        &&& unit_bounded(self.z_axis)
    }
}

/// Is each coordinate of `v` within `[-1, 1]`?
pub open spec fn unit_bounded(v: Vec3) -> bool {
    -ONE <= v.x <= ONE && -ONE <= v.y <= ONE && -ONE <= v.z <= ONE
}

impl ThirdPersonCamera {
    /// A configuration the library accepts: well-formed zoom and offset,
    /// positive sensitivities, and an aim factor in `(0, 1]`.
    pub open spec fn wf(&self) -> bool {
        &&& self.zoom.wf()
        &&& self.offset.wf()
        &&& self.gamepad_settings.wf()
        &&& 0 < self.aim_zoom <= ONE
        &&& 0 <= self.aim_speed <= LIMIT
        &&& 0 < self.sensitivity.0 <= LIMIT
        &&& 0 < self.sensitivity.1 <= LIMIT
        &&& 0 <= self.offset_toggle_speed <= LIMIT
        &&& 0 < self.zoom_sensitivity <= LIMIT
    }

    /// Checks the configuration, as a host does at setup.
    pub fn is_valid(&self) -> (r: bool)
        ensures
            r == self.wf(),
    {
        let z = &self.zoom;
        let zoom_ok = 0 <= z.min && z.min <= z.max && z.max <= LIMIT && 0 <= z.radius && z.radius
            <= z.max && match z.radius_copy {
            None => z.min <= z.radius,
            Some(s) => z.min <= s && s <= z.max,
        };
        let o = &self.offset;
        let e: i128 = if o.offset_copy.0 >= 0 {
            o.offset_copy.0 as i128
        } else {
            -(o.offset_copy.0 as i128)
        };
        let offset_ok = -LIMIT <= o.offset.0 && o.offset.0 <= LIMIT && -LIMIT <= o.offset.1
            && o.offset.1 <= LIMIT && -LIMIT <= o.offset_copy.0 && o.offset_copy.0 <= LIMIT
            && -LIMIT <= o.offset_copy.1 && o.offset_copy.1 <= LIMIT && -e <= o.offset.0 as i128
            && o.offset.0 as i128 <= e;
        let g = &self.gamepad_settings;
        let pad_ok = 0 < g.sensitivity.0 && g.sensitivity.0 <= LIMIT && 0 < g.sensitivity.1
            && g.sensitivity.1 <= LIMIT && 0 <= g.dead_zone && g.dead_zone <= LIMIT;
        zoom_ok && offset_ok && pad_ok && 0 < self.aim_zoom && self.aim_zoom <= ONE && 0
            <= self.aim_speed && self.aim_speed <= LIMIT && 0 < self.sensitivity.0
            && self.sensitivity.0 <= LIMIT && 0 < self.sensitivity.1 && self.sensitivity.1 <= LIMIT
            && 0 <= self.offset_toggle_speed && self.offset_toggle_speed <= LIMIT && 0
            < self.zoom_sensitivity && self.zoom_sensitivity <= LIMIT
    }

    /// Flips the cursor lock when its key went down this frame, where
    /// toggling is allowed. The host applies the result to the window.
    pub fn toggle_cursor(&mut self, input: &FrameInput)
        ensures
            *final(self) == after_cursor(*old(self), input),
    {
        if toggle_cursor_condition(self) && key_listed(&input.keys_just_pressed, self.cursor_lock_key) {
            self.cursor_lock_active = !self.cursor_lock_active;
        }
    }

    /// Runs one frame of the pipeline before synchronization: input
    /// arbiter, orbit, zoom, aim, offset toggle and cursor lock, in that
    /// order. Without a target every stage skips its work and nothing
    /// changes. Returns the orientation the target turns to while the
    /// camera aims.
    pub fn update_frame(&mut self, transform: &mut CameraTransform, input: &FrameInput, target_present: bool) -> (facing: Option<Orientation>)
        requires
            old(self).wf(),
            old(transform).rotation.wf(),
            input.wf(),
        ensures
            final(self).wf(),
            final(transform).rotation.wf(),
            final(transform).translation == old(transform).translation,
            !target_present ==> *final(self) == *old(self) && final(transform).rotation
                == old(transform).rotation && facing is None,
            target_present ==> *final(self) == frame_next(*old(self), input),
            target_present ==> final(transform).rotation == orbit_next(
                old(transform).rotation,
                look_delta(*old(self), input).0,
                look_delta(*old(self), input).1,
            ),
            target_present ==> facing == if old(self).aim_enabled && aim_held(*old(self), input) {
                Some(final(transform).rotation)
            } else {
                None
            },
    {
        if !target_present {
            return None;
        }
        let (dx, dy) = compute_look_delta(self, input);
        transform.rotation.orbit(dx, dy);
        if zoom_condition(Some(&*self)) && self.zoom.radius_copy.is_none() {
            let d = compute_zoom_delta(self, input);
            if d != 0 {
                self.zoom.apply_zoom(d);
            }
        }
        let mut facing: Option<Orientation> = None;
        if aim_condition(self) {
            let pressed = mouse_held(&input.mouse_pressed, self.aim_button) || match &input.gamepad {
                Some(g) => gamepad_listed(&g.pressed, self.gamepad_settings.aim_button),
                None => false,
            };
            self.zoom.aim(pressed, self.aim_zoom, self.aim_speed, input.delta_secs);
            if pressed {
                facing = Some(transform.rotation);
            }
        }
        if toggle_x_offset_condition(self) {
            let pressed = key_listed(&input.keys_just_pressed, self.offset_toggle_key) || match &input.gamepad {
                Some(g) => gamepad_listed(&g.just_pressed, self.gamepad_settings.offset_toggle_button),
                None => false,
            };
            self.offset.toggle_x_offset(pressed, self.offset_toggle_speed, input.delta_secs);
        }
        self.toggle_cursor(input);
        facing
    }
}

/// Does the zoom run this frame? Only with a camera, with zooming turned
/// on, and while the cursor is locked.
pub fn zoom_condition(cam: Option<&ThirdPersonCamera>) -> (r: bool)
    ensures
        r == zoom_allowed(match cam {
            Some(c) => Some(*c),
            None => None,
        }),
{
    match cam {
        Some(c) => c.zoom_enabled && c.cursor_lock_active,
        None => false,
    }
}

/// Does the aim stage run?
fn aim_condition(cam: &ThirdPersonCamera) -> (r: bool)
    ensures
        r == cam.aim_enabled,
{
    cam.aim_enabled
}

/// Does the offset toggle stage run?
fn toggle_x_offset_condition(cam: &ThirdPersonCamera) -> (r: bool)
    ensures
        r == cam.offset_toggle_enabled,
{
    cam.offset_toggle_enabled
}

/// May the cursor lock be toggled?
fn toggle_cursor_condition(cam: &ThirdPersonCamera) -> (r: bool)
    ensures
        r == cam.cursor_lock_toggle_enabled,
{
    cam.cursor_lock_toggle_enabled
}

/// `fixed_mul` of a rotation matrix entry and a stored length.
fn scale(e: i64, v: i64) -> (r: i64)
    requires
        -ONE <= e <= ONE,
        within_limit(v as int),
    ensures
        r == fixed_mul(e as int, v as int),
        within_limit(r as int),
{
    proof {
        lemma_mul_bound(e as int, v as int, ONE as int, LIMIT as int);
        assert(-(ONE * LIMIT) / (ONE as int) == -LIMIT);
    }
    let q = div_toward_zero(e as i128 * v as i128, ONE as i128);
    proof {
        vstd::arithmetic::div_mod::lemma_div_is_ordered(if e * v >= 0 { e * v } else { -(e * v) }, ONE * LIMIT, ONE as int);
        assert((ONE * LIMIT) / (ONE as int) == LIMIT);
    }
    q as i64
}

/// Places the camera relative to its target: the target's current
/// position, plus the distance along the camera's backward axis, plus the
/// offset where it is applied. `basis` holds the columns of the camera's
/// rotation matrix. Without a target nothing moves. This is the only
/// writer of the camera's position.
pub fn sync_player_camera(cam: &ThirdPersonCamera, transform: &mut CameraTransform, target: Option<Vec3>, basis: &Basis)
    requires
        cam.wf(),
        basis.wf(),
        target matches Some(t) ==> t.wf(),
    ensures
        final(transform).rotation == old(transform).rotation,
        target is None ==> final(transform).translation == old(transform).translation,
        target matches Some(t) ==> synced_position(*cam, *basis, t) == (
            final(transform).translation.x as int,
            final(transform).translation.y as int,
            final(transform).translation.z as int,
        ),
{
    let t = match target {
        Some(t) => t,
        None => {
            return;
        },
    };
    let r = cam.zoom.radius;
    let (ox, oy) = if cam.offset_enabled {
        cam.offset.offset
    } else {
        (0, 0)
    };
    let b = basis;
    let x = t.x + scale(b.z_axis.x, r) + scale(b.x_axis.x, ox) + scale(b.y_axis.x, oy);
    let y = t.y + scale(b.z_axis.y, r) + scale(b.x_axis.y, ox) + scale(b.y_axis.y, oy);
    let z = t.z + scale(b.z_axis.z, r) + scale(b.x_axis.z, ox) + scale(b.y_axis.z, oy);
    transform.translation = Vec3 { x, y, z };
}

/// Synchronization follows the target exactly: with the camera's state and
/// rotation unchanged, moving the target by a vector moves the camera by
/// that same vector.
pub proof fn lemma_sync_follows_target(cam: ThirdPersonCamera, b: Basis, t1: Vec3, t2: Vec3)
    ensures
        synced_position(cam, b, t2).0 - synced_position(cam, b, t1).0 == t2.x - t1.x,
        synced_position(cam, b, t2).1 - synced_position(cam, b, t1).1 == t2.y - t1.y,
        synced_position(cam, b, t2).2 - synced_position(cam, b, t1).2 == t2.z - t1.z,
{
}

} // verus!
