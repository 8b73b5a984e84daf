//! The character controller's movement intent: a camera-relative direction
//! and a speed, composed from the keyboard or the connected gamepad's left
//! stick and handed to the host's character movement as it is.
use vstd::prelude::*;
use crate::fixed::{ONE, LIMIT, fixed_mul, div_toward_zero, lemma_mul_bound};
use crate::input::{KeyCode, GamepadButton, FrameInput, gamepad_holds, outside_dead_zone, stick_outside, key_listed, gamepad_listed};

verus! {

/// Radius of the left stick's circular dead zone for movement.
pub const MOVE_DEAD_ZONE: i64 = 500_000;

/// Gamepad bindings of the controller.
#[derive(Clone, Copy, Debug)]
pub struct ControllerGamepadSettings {
    pub sprint: GamepadButton,
}

/// Key bindings and speeds of the controlled character.
#[derive(Clone, Copy, Debug)]
pub struct ThirdPersonController {
    pub move_left: KeyCode,
    pub move_right: KeyCode,
    pub move_forward: KeyCode,
    pub move_back: KeyCode,
    pub sprint_enabled: bool,
    pub sprint: KeyCode,
    /// Speed factor while sprinting.
    pub sprint_speed: i64,
    /// Walking speed.
    pub speed: i64,
    pub gamepad_settings: ControllerGamepadSettings,
}

/// Where the character wants to go this frame, relative to the camera:
/// `forward` along the camera's horizontal forward direction, `right` along
/// its right direction, at `speed` once the host normalizes the direction.
#[derive(Clone, Copy, Debug, PartialEq, Eq, Structural)]
pub struct MoveIntent {
    pub forward: i64,
    pub right: i64,
    pub speed: i64,
}

impl Default for ControllerGamepadSettings {
    fn default() -> (r: Self)
        ensures
            r.sprint == GamepadButton::LeftTrigger,
    {
        ControllerGamepadSettings { sprint: GamepadButton::LeftTrigger }
    }
}

impl Default for ThirdPersonController {
    fn default() -> (r: Self)
        ensures
            r.move_left == KeyCode::KeyA,
            r.move_right == KeyCode::KeyD,
            r.move_forward == KeyCode::KeyW,
            r.move_back == KeyCode::KeyS,
            r.sprint_enabled,
            r.sprint == KeyCode::ShiftLeft,
            r.sprint_speed == 2 * ONE,
            r.speed == 5 * ONE / 2,
            r.gamepad_settings.sprint == GamepadButton::LeftTrigger,
            r.wf(),
    {
        ThirdPersonController {
            move_left: KeyCode::KeyA,
            move_right: KeyCode::KeyD,
            move_forward: KeyCode::KeyW,
            move_back: KeyCode::KeyS,
            sprint_enabled: true,
            sprint: KeyCode::ShiftLeft,
            sprint_speed: 2 * ONE,
            speed: 5 * ONE / 2,
            gamepad_settings: ControllerGamepadSettings::default(),
        }
    }
}

impl ThirdPersonController {
    pub open spec fn wf(&self) -> bool {
        0 <= self.speed <= LIMIT && 0 <= self.sprint_speed <= LIMIT
    }
}

/// `ONE` when `on`, else zero.
pub open spec fn unit_if(on: bool) -> int {
    if on {
        ONE as int
    } else {
        0
    }
}

/// Does the keyboard drive the character? Only while no gamepad is connected.
pub open spec fn keyboard_drives(input: &FrameInput) -> bool {
    input.gamepad is None
}

/// The speed of the character: walking speed, times the sprint factor while
/// sprinting is turned on and its control is held.
pub open spec fn move_speed(c: ThirdPersonController, sprinting: bool) -> int {
    if sprinting && c.sprint_enabled {
        fixed_mul(c.speed as int, c.sprint_speed as int)
    } else {
        c.speed as int
    }
}

/// The movement intent of a frame. With a gamepad connected it follows the
/// left stick, and nothing while the stick rests within the dead zone;
/// otherwise each held movement key adds one unit along its direction.
pub open spec fn intent(c: ThirdPersonController, input: &FrameInput) -> MoveIntent {
    match input.gamepad {
        Some(g) => {
            let (x, y) = g.left_stick;
            let moving = outside_dead_zone(x as int, y as int, MOVE_DEAD_ZONE as int);
            MoveIntent {
                forward: if moving { y } else { 0 },
                right: if moving { x } else { 0 },
                speed: move_speed(c, gamepad_holds(input, c.gamepad_settings.sprint)) as i64,
            }
        },
        None => {
            let keys = input.keys_pressed@;
            MoveIntent {
                forward: (unit_if(keys.contains(c.move_forward)) - unit_if(keys.contains(c.move_back))) as i64,
                right: (unit_if(keys.contains(c.move_right)) - unit_if(keys.contains(c.move_left))) as i64,
                speed: move_speed(c, keys.contains(c.sprint)) as i64,
            }
        },
    }
}

/// Is keyboard movement in charge? Only while no gamepad is connected.
pub fn movement_condition(input: &FrameInput) -> (r: bool)
    ensures
        r == keyboard_drives(input),
{
    input.gamepad.is_none()
}

/// `move_speed` in exact wide arithmetic.
fn speed_of(c: &ThirdPersonController, sprinting: bool) -> (r: i64)
    requires
        c.wf(),
    ensures
        r == move_speed(*c, sprinting),
        0 <= r,
{
    if sprinting && c.sprint_enabled {
        proof {
            lemma_mul_bound(c.speed as int, c.sprint_speed as int, LIMIT as int, LIMIT as int);
            assert(c.speed * c.sprint_speed >= 0) by (nonlinear_arith)
                requires
                    c.speed >= 0,
                    c.sprint_speed >= 0,
            ;
        }
        let q = div_toward_zero(c.speed as i128 * c.sprint_speed as i128, ONE as i128);
        proof {
            vstd::arithmetic::div_mod::lemma_div_is_ordered(c.speed * c.sprint_speed, LIMIT * LIMIT, ONE as int);
            assert((LIMIT * LIMIT) / (ONE as int) == LIMIT * ONE);
        }
        q as i64
    } else {
        c.speed
    }
}

/// `ONE` when `on`, else zero.
fn unit(on: bool) -> (r: i64)
    ensures
        r == unit_if(on),
{
    if on {
        ONE
    } else {
        0
    }
}

/// The movement intent of this frame.
pub fn movement(c: &ThirdPersonController, input: &FrameInput) -> (r: MoveIntent)
    requires
        c.wf(),
        input.wf(),
    ensures
        r == intent(*c, input),
{
    match &input.gamepad {
        Some(g) => {
            let (x, y) = g.left_stick;
            let moving = stick_outside(x, y, MOVE_DEAD_ZONE);
            let sprinting = gamepad_listed(&g.pressed, c.gamepad_settings.sprint);
            MoveIntent {
                forward: if moving { y } else { 0 },
                right: if moving { x } else { 0 },
                speed: speed_of(c, sprinting),
            }
        },
        None => {
            let keys = &input.keys_pressed;
            let forward = unit(key_listed(keys, c.move_forward)) - unit(key_listed(keys, c.move_back));
            let right = unit(key_listed(keys, c.move_right)) - unit(key_listed(keys, c.move_left));
            let sprinting = key_listed(keys, c.sprint);
            MoveIntent { forward, right, speed: speed_of(c, sprinting) }
        },
    }
}

} // verus!
