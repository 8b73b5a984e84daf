//! The decoded input of one frame, and the input arbiter that turns it
//! into a look-delta for the orbit and a zoom-delta for the distance.
use vstd::prelude::*;
use crate::fixed::{ONE, LIMIT, HALF_TURN, within_limit, trunc_div, signed_angle, div_toward_zero, wrap_signed, lemma_mul_bound};
use crate::camera::ThirdPersonCamera;

verus! {

/// A mouse button.
#[derive(Clone, Copy, Debug, PartialEq, Eq, Structural)]
pub enum MouseButton {
    Left,
    Right,
    Middle,
    Back,
    Forward,
    Other(u16),
}

/// A keyboard key. Keys the library binds by default have names of their
/// own; the host maps every other key to `Other` with a code of its choice.
#[derive(Clone, Copy, Debug, PartialEq, Eq, Structural)]
pub enum KeyCode {
    Space,
    KeyA,
    KeyD,
    KeyE,
    KeyS,
    KeyW,
    ShiftLeft,
    Other(u32),
}

/// A gamepad button.
#[derive(Clone, Copy, Debug, PartialEq, Eq, Structural)]
pub enum GamepadButton {
    South,
    East,
    North,
    West,
    C,
    Z,
    LeftTrigger,
    LeftTrigger2,
    RightTrigger,
    RightTrigger2,
    Select,
    Start,
    Mode,
    LeftThumb,
    RightThumb,
    DPadUp,
    DPadDown,
    DPadLeft,
    DPadRight,
    Other(u8),
}

/// The state of the connected gamepad in one frame. Stick axes run from
/// `-ONE` to `ONE`.
pub struct GamepadState {
    pub left_stick: (i64, i64),
    pub right_stick: (i64, i64),
    /// Buttons held down this frame.
    pub pressed: Vec<GamepadButton>,
    /// Buttons that went down this frame.
    pub just_pressed: Vec<GamepadButton>,
}

/// Everything the camera reads in one frame, decoded by the host.
pub struct FrameInput {
    /// Time elapsed since the previous frame, in seconds.
    pub delta_secs: i64,
    /// Mouse motion accumulated this frame, in pixels.
    pub mouse_motion: (i64, i64),
    /// Mouse wheel motion accumulated this frame, in lines.
    pub mouse_wheel: i64,
    /// Mouse buttons held down this frame.
    pub mouse_pressed: Vec<MouseButton>,
    /// Keys held down this frame.
    pub keys_pressed: Vec<KeyCode>,
    /// Keys that went down this frame.
    pub keys_just_pressed: Vec<KeyCode>,
    /// The gamepad, while one is connected.
    pub gamepad: Option<GamepadState>,
    /// Width and height of the primary window in pixels, if there is one.
    pub window: Option<(i64, i64)>,
}

impl GamepadState {
    pub open spec fn wf(&self) -> bool {
        &&& within_limit(self.left_stick.0 as int)
        &&& within_limit(self.left_stick.1 as int)
        &&& within_limit(self.right_stick.0 as int)
        &&& within_limit(self.right_stick.1 as int)
    }
}

impl FrameInput {
    /// Values within the library's limits and a non-negative frame time.
    pub open spec fn wf(&self) -> bool {
        &&& 0 <= self.delta_secs <= LIMIT
        &&& within_limit(self.mouse_motion.0 as int)
        &&& within_limit(self.mouse_motion.1 as int)
        &&& within_limit(self.mouse_wheel as int)
        &&& (self.gamepad matches Some(g) ==> g.wf())
        &&& (self.window matches Some(w) ==> within_limit(w.0 as int) && within_limit(w.1 as int))
    }

    /// A frame with no input at all and the given frame time and window.
    pub fn idle(delta_secs: i64, window: Option<(i64, i64)>) -> (r: Self)
        ensures
            r.delta_secs == delta_secs,
            r.mouse_motion == (0i64, 0i64),
            r.mouse_wheel == 0,
            r.mouse_pressed@.len() == 0,
            r.keys_pressed@.len() == 0,
            r.keys_just_pressed@.len() == 0,
            r.gamepad is None,
            r.window == window,
    {
        FrameInput {
            delta_secs,
            mouse_motion: (0, 0),
            mouse_wheel: 0,
            mouse_pressed: Vec::new(),
            keys_pressed: Vec::new(),
            keys_just_pressed: Vec::new(),
            gamepad: None,
            window,
        }
    }
}

/// Is `b` among `buttons`?
pub fn mouse_held(buttons: &Vec<MouseButton>, b: MouseButton) -> (r: bool)
    ensures
        r == buttons@.contains(b),
{
    let mut i: usize = 0;
    while i < buttons.len()
        invariant
            0 <= i <= buttons.len(),
            forall|j: int| 0 <= j < i ==> buttons@[j] != b,
        decreases buttons.len() - i,
    {
        if buttons[i] == b {
            assert(buttons@[i as int] == b);
            return true;
        }
        i += 1;
    }
    false
}

/// Is `k` among `keys`?
pub fn key_listed(keys: &Vec<KeyCode>, k: KeyCode) -> (r: bool)
    ensures
        r == keys@.contains(k),
{
    let mut i: usize = 0;
    while i < keys.len()
        invariant
            0 <= i <= keys.len(),
            forall|j: int| 0 <= j < i ==> keys@[j] != k,
        decreases keys.len() - i,
    {
        if keys[i] == k {
            assert(keys@[i as int] == k);
            return true;
        }
        i += 1;
    }
    false
}

/// Is `b` among `buttons`?
pub fn gamepad_listed(buttons: &Vec<GamepadButton>, b: GamepadButton) -> (r: bool)
    ensures
        r == buttons@.contains(b),
{
    let mut i: usize = 0;
    while i < buttons.len()
        invariant
            0 <= i <= buttons.len(),
            forall|j: int| 0 <= j < i ==> buttons@[j] != b,
        decreases buttons.len() - i,
    {
        if buttons[i] == b {
            assert(buttons@[i as int] == b);
            return true;
        }
        i += 1;
    }
    false
}

/// Is `b` held on the connected gamepad, if any?
pub open spec fn gamepad_holds(input: &FrameInput, b: GamepadButton) -> bool {
    input.gamepad matches Some(g) && g.pressed@.contains(b)
}

/// Did `b` go down on the connected gamepad, if any, this frame?
pub open spec fn gamepad_went_down(input: &FrameInput, b: GamepadButton) -> bool {
    input.gamepad matches Some(g) && g.just_pressed@.contains(b)
}

/// Is there a primary window with a usable size?
pub open spec fn window_usable(input: &FrameInput) -> bool {
    input.window matches Some(w) && w.0 > 0 && w.1 > 0
}

/// Is a stick at `(x, y)` outside a circular dead zone of radius `dz`?
pub open spec fn outside_dead_zone(x: int, y: int, dz: int) -> bool {
    x * x + y * y > dz * dz
}

/// Motion of `amount` pixels, scaled by `sens`, across a window dimension
/// of `extent` pixels, as an angle: the full extent turns by `degrees`.
pub open spec fn drag_angle(amount: int, sens: int, degrees: int, extent: int) -> int {
    signed_angle(trunc_div(amount * sens * degrees, extent))
}

/// The look-delta contributed by the mouse: its motion scaled by the
/// sensitivity, half a turn per window width or height. The mouse orbits
/// only while the cursor is locked and, where orbiting needs a button,
/// while that button is held.
pub open spec fn mouse_look(cam: ThirdPersonCamera, input: &FrameInput) -> (int, int) {
    if cam.cursor_lock_active && (!cam.mouse_orbit_button_enabled || input.mouse_pressed@.contains(
        cam.mouse_orbit_button,
    )) && window_usable(input) {
        let w = input.window->Some_0;
        (
            drag_angle(input.mouse_motion.0 as int, cam.sensitivity.0 as int, 180, w.0 as int),
            drag_angle(input.mouse_motion.1 as int, cam.sensitivity.1 as int, 180, w.1 as int),
        )
    } else {
        (0, 0)
    }
}

/// The look-delta contributed by the right stick of a connected gamepad:
/// a full turn per window width horizontally, half a turn per window
/// height vertically (pushing up looks up). Nothing while the stick rests
/// inside the dead zone, on both axes at once.
pub open spec fn gamepad_look(cam: ThirdPersonCamera, input: &FrameInput) -> (int, int) {
    let gs = cam.gamepad_settings;
    match input.gamepad {
        Some(g) => {
            let (x, y) = (g.right_stick.0 as int, g.right_stick.1 as int);
            if (!cam.mouse_orbit_button_enabled || g.pressed@.contains(gs.mouse_orbit_button))
                && outside_dead_zone(x, y, gs.dead_zone as int) && window_usable(input) {
                let w = input.window->Some_0;
                (
                    drag_angle(x, gs.sensitivity.0 as int, 360, w.0 as int),
                    drag_angle(-y, gs.sensitivity.1 as int, 180, w.1 as int),
                )
            } else {
                (0, 0)
            }
        },
        None => (0, 0),
    }
}

/// The look-delta of a frame: mouse and gamepad added together.
pub open spec fn look_delta(cam: ThirdPersonCamera, input: &FrameInput) -> (int, int) {
    (mouse_look(cam, input).0 + gamepad_look(cam, input).0, mouse_look(cam, input).1
        + gamepad_look(cam, input).1)
}

/// The part of the zoom-delta that comes from the mouse wheel: a tenth of
/// the distance per line, times the zoom sensitivity.
pub open spec fn wheel_zoom(cam: ThirdPersonCamera, input: &FrameInput) -> int {
    trunc_div(input.mouse_wheel * cam.zoom_sensitivity, 10 * ONE)
}

/// The part of the zoom-delta that comes from the gamepad: a hundredth of
/// the distance per frame while a zoom button is held, zooming out taking
/// precedence.
pub open spec fn gamepad_zoom(cam: ThirdPersonCamera, input: &FrameInput) -> int {
    if gamepad_holds(input, cam.gamepad_settings.zoom_out_button) {
        -(ONE / 100)
    } else if gamepad_holds(input, cam.gamepad_settings.zoom_in_button) {
        ONE / 100
    } else {
        0
    }
}

/// The zoom-delta of a frame, a fraction of the current distance: wheel and
/// gamepad added together.
pub open spec fn zoom_delta(cam: ThirdPersonCamera, input: &FrameInput) -> int {
    wheel_zoom(cam, input) + gamepad_zoom(cam, input)
}

/// `drag_angle` in exact wide arithmetic.
fn drag(amount: i64, sens: i64, degrees: i64, extent: i64) -> (r: i64)
    requires
        within_limit(amount as int),
        within_limit(sens as int),
        0 < degrees <= 360,
        0 < extent,
    ensures
        r == drag_angle(amount as int, sens as int, degrees as int, extent as int),
{
    proof {
        lemma_mul_bound(amount as int, sens as int, LIMIT as int, LIMIT as int);
        lemma_mul_bound(amount * sens, degrees as int, LIMIT * LIMIT, 360);
    }
    let n: i128 = amount as i128 * sens as i128 * degrees as i128;
    let q = div_toward_zero(n, extent as i128);
    wrap_signed(q)
}

/// The mouse's look-delta for this frame.
pub fn orbit_mouse(cam: &ThirdPersonCamera, input: &FrameInput) -> (r: (i64, i64))
    requires
        cam.wf(),
        input.wf(),
    ensures
        r.0 == mouse_look(*cam, input).0,
        r.1 == mouse_look(*cam, input).1,
        -HALF_TURN <= r.0 < HALF_TURN,
        -HALF_TURN <= r.1 < HALF_TURN,
{
    if let Some((w, h)) = input.window {
        if w > 0 && h > 0 && cam.cursor_lock_active && (!cam.mouse_orbit_button_enabled
            || mouse_held(&input.mouse_pressed, cam.mouse_orbit_button)) {
            return (
                drag(input.mouse_motion.0, cam.sensitivity.0, 180, w),
                drag(input.mouse_motion.1, cam.sensitivity.1, 180, h),
            );
        }
    }
    (0, 0)
}

/// The gamepad's look-delta for this frame.
pub fn orbit_gamepad(cam: &ThirdPersonCamera, input: &FrameInput) -> (r: (i64, i64))
    requires
        cam.wf(),
        input.wf(),
    ensures
        r.0 == gamepad_look(*cam, input).0,
        r.1 == gamepad_look(*cam, input).1,
        -HALF_TURN <= r.0 < HALF_TURN,
        -HALF_TURN <= r.1 < HALF_TURN,
{
    if let (Some((w, h)), Some(g)) = (input.window, &input.gamepad) {
        let gs = &cam.gamepad_settings;
        let (x, y) = g.right_stick;
        if w > 0 && h > 0 && (!cam.mouse_orbit_button_enabled || gamepad_listed(
            &g.pressed,
            gs.mouse_orbit_button,
        )) && stick_outside(x, y, gs.dead_zone) {
            return (drag(x, gs.sensitivity.0, 360, w), drag(-y, gs.sensitivity.1, 180, h));
        }
    }
    (0, 0)
}

/// The input arbiter's look-delta for this frame: mouse and gamepad added
/// together.
pub fn compute_look_delta(cam: &ThirdPersonCamera, input: &FrameInput) -> (r: (i64, i64))
    requires
        cam.wf(),
        input.wf(),
    ensures
        r.0 == look_delta(*cam, input).0,
        r.1 == look_delta(*cam, input).1,
{
    let (mx, my) = orbit_mouse(cam, input);
    let (gx, gy) = orbit_gamepad(cam, input);
    (mx + gx, my + gy)
}

/// `outside_dead_zone` in exact wide arithmetic.
pub fn stick_outside(x: i64, y: i64, dz: i64) -> (r: bool)
    requires
        within_limit(x as int),
        within_limit(y as int),
        within_limit(dz as int),
    ensures
        r == outside_dead_zone(x as int, y as int, dz as int),
{
    proof {
        lemma_mul_bound(x as int, x as int, LIMIT as int, LIMIT as int);
        lemma_mul_bound(y as int, y as int, LIMIT as int, LIMIT as int);
        lemma_mul_bound(dz as int, dz as int, LIMIT as int, LIMIT as int);
    }
    let xx: i128 = x as i128 * x as i128;
    let yy: i128 = y as i128 * y as i128;
    let dd: i128 = dz as i128 * dz as i128;
    xx + yy > dd
}

/// The mouse wheel's zoom-delta for this frame.
pub fn zoom_mouse(cam: &ThirdPersonCamera, input: &FrameInput) -> (r: i64)
    requires
        cam.wf(),
        input.wf(),
    ensures
        r == wheel_zoom(*cam, input),
        -(LIMIT * LIMIT / (10 * ONE)) <= r <= LIMIT * LIMIT / (10 * ONE),
{
    proof {
        lemma_mul_bound(input.mouse_wheel as int, cam.zoom_sensitivity as int, LIMIT as int, LIMIT as int);
    }
    let n: i128 = input.mouse_wheel as i128 * cam.zoom_sensitivity as i128;
    let wheel = div_toward_zero(n, 10 * ONE as i128);
    proof {
        assert(-(LIMIT * LIMIT / (10 * ONE)) <= wheel <= LIMIT * LIMIT / (10 * ONE)) by {
            vstd::arithmetic::div_mod::lemma_div_is_ordered(
                if n >= 0 { n as int } else { -n },
                LIMIT * LIMIT,
                10 * ONE,
            );
        }
    }
    wheel as i64
}

/// The gamepad's zoom-delta for this frame.
pub fn zoom_gamepad(cam: &ThirdPersonCamera, input: &FrameInput) -> (r: i64)
    ensures
        r == gamepad_zoom(*cam, input),
{
    let gs = &cam.gamepad_settings;
    if let Some(g) = &input.gamepad {
        if gamepad_listed(&g.pressed, gs.zoom_out_button) {
            return -(ONE / 100);
        } else if gamepad_listed(&g.pressed, gs.zoom_in_button) {
            return ONE / 100;
        }
    }
    0
}

/// The input arbiter's zoom-delta for this frame: wheel and gamepad added
/// together.
pub fn compute_zoom_delta(cam: &ThirdPersonCamera, input: &FrameInput) -> (r: i64)
    requires
        cam.wf(),
        input.wf(),
    ensures
        r == zoom_delta(*cam, input),
        -LIMIT * ONE <= r <= LIMIT * ONE,
{
    zoom_mouse(cam, input) + zoom_gamepad(cam, input)
}

/// Inside the dead zone the gamepad contributes nothing to the look-delta,
/// on either axis: a right stick whose distance from rest is below the
/// threshold leaves both axes of the gamepad's look-delta at zero.
pub proof fn lemma_dead_zone(cam: ThirdPersonCamera, input: &FrameInput)
    requires
        input.gamepad matches Some(g) && g.right_stick.0 * g.right_stick.0 + g.right_stick.1
            * g.right_stick.1 < cam.gamepad_settings.dead_zone * cam.gamepad_settings.dead_zone,
    ensures
        gamepad_look(cam, input) == (0int, 0int),
{
}

} // verus!
