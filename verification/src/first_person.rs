//! The first-person camera: how far it turns and moves in one frame.

use vstd::prelude::*;

use bevy::input::keyboard::KeyCode;
use bevy::input::ButtonInput;

use crate::fixed::{negated, product, tenths, Fixed};
use crate::input::{
    move_keys_of, pressed_keys, read_move_keys, sum_motion, total_motion, Key, MoveKeys,
    PointerDelta,
};

verus! {

/// The settings of a first-person camera, fixed when the camera is made.
#[derive(Clone, Copy, Debug, PartialEq, Eq, Structural)]
pub struct FirstPersonCamera {
    /// Length units moved per second while a movement key is held.
    pub speed: Fixed,
    /// Radians turned per unit of pointer motion and second.
    pub sensitivity: Fixed,
}

/// The settings that the scene gives its camera: speed 5.0, sensitivity 0.1.
pub open spec fn scene_controller() -> FirstPersonCamera {
    FirstPersonCamera { speed: tenths(50), sensitivity: tenths(1) }
}

/// The pitch stays strictly between minus and plus this many billionths of
/// a radian: 1.5 rad, a little short of straight up or down.
pub const PITCH_LIMIT: i64 = 1_500_000_000;

/// The angle to turn by for a pointer motion of `delta`: against the
/// motion, `sensitivity` radians per unit and second, over `dt` seconds.
pub open spec fn turn_angle(delta: int, sensitivity: int, dt: int) -> int {
    product(product(negated(delta), sensitivity), dt)
}

/// Whether a pitch of `pitch` billionths of a radian is one that the camera
/// may have.
pub open spec fn within_pitch_limit(pitch: int) -> bool {
    -PITCH_LIMIT < pitch < PITCH_LIMIT
}

/// The pitch after a frame that asks for `change`: the change is made if it
/// keeps the pitch within the limit, and dropped otherwise.
pub open spec fn pitch_after(pitch: int, change: int) -> int {
    if within_pitch_limit(pitch + change) {
        pitch + change
    } else {
        pitch
    }
}

/// The pitch after a run of frames that ask for `changes`, in that order.
pub open spec fn pitch_after_all(pitch: int, changes: Seq<int>) -> int
    decreases changes.len(),
{
    if changes.len() == 0 {
        pitch
    } else {
        pitch_after(pitch_after_all(pitch, changes.drop_last()), changes.last())
    }
}

/// What a pair of opposite keys asks for: 1 for the first alone, -1 for the
/// second alone, 0 for both or neither.
pub open spec fn axis(toward: bool, away: bool) -> int {
    (if toward {
        1int
    } else {
        0int
    }) - (if away {
        1int
    } else {
        0int
    })
}

/// One frame's movement. The camera goes `distance` along the direction of
/// `forward` times its forward axis plus `right` times its right axis; the
/// two counts are -1, 0 or 1 and not both 0.
#[derive(Clone, Copy, Debug, PartialEq, Eq, Structural)]
pub struct Movement {
    pub forward: i8,
    pub right: i8,
    pub distance: Fixed,
}

impl Movement {
    /// Each count is -1, 0 or 1, and they are not both 0.
    pub open spec fn is_valid(self) -> bool {
        &&& -1 <= self.forward <= 1
        &&& -1 <= self.right <= 1
        &&& (self.forward != 0 || self.right != 0)
    }
}

/// The movement that the held keys ask for over `dt` seconds, if any: keys
/// that cancel each other ask for none.
pub open spec fn movement_of(camera: FirstPersonCamera, keys: MoveKeys, dt: int) -> Option<
    Movement,
> {
    if axis(keys.forward, keys.back) == 0 && axis(keys.right, keys.left) == 0 {
        None
    } else {
        Some(
            Movement {
                forward: axis(keys.forward, keys.back) as i8,
                right: axis(keys.right, keys.left) as i8,
                distance: Fixed { nanos: product(camera.speed@, dt) as i64 },
            },
        )
    }
}

/// What the camera is to do in one frame.
#[derive(Clone, Copy, Debug, PartialEq, Eq)]
pub struct CameraPlan {
    /// The angle to turn by about the world's up axis.
    pub yaw: Fixed,
    /// The angle to turn by about the camera's own X axis, if
    /// [`pitch_allowed`] agrees.
    pub pitch: Fixed,
    /// Where to go after turning; `None` leaves the camera where it is.
    pub movement: Option<Movement>,
}

/// The plan for a frame of `dt` seconds in which the pointer reported
/// `motions` and `keys` were held.
pub open spec fn plan_of(
    camera: FirstPersonCamera,
    dt: int,
    motions: Seq<PointerDelta>,
    keys: MoveKeys,
) -> CameraPlan {
    CameraPlan {
        yaw: Fixed { nanos: turn_angle(total_motion(motions).x@, camera.sensitivity@, dt) as i64 },
        pitch: Fixed {
            nanos: turn_angle(total_motion(motions).y@, camera.sensitivity@, dt) as i64,
        },
        movement: movement_of(camera, keys, dt),
    }
}

/// Why a camera system could not run.
#[derive(Clone, Copy, Debug, PartialEq, Eq, Structural)]
pub enum CameraError {
    /// No entity carries the camera's settings.
    NoCamera,
    /// More than one entity carries them.
    MultipleCameras,
}

impl CameraError {
    /// The error in words.
    pub fn message(&self) -> (text: &'static str)
        ensures
            text@ == match *self {
                CameraError::NoCamera => "no first-person camera in the scene"@,
                CameraError::MultipleCameras => "more than one first-person camera in the scene"@,
            },
    {
        match self {
            CameraError::NoCamera => "no first-person camera in the scene",
            CameraError::MultipleCameras => "more than one first-person camera in the scene",
        }
    }
}

/// The first-person system works on the one entity that carries the
/// camera's settings. Given how many entities carry them, this says whether
/// the system may run: with exactly one it may; with none or several it may
/// not, and the error says which.
pub fn single_camera(matches: usize) -> (r: Result<(), CameraError>)
    ensures
        r is Ok <==> matches == 1,
        r == Err::<(), CameraError>(CameraError::NoCamera) <==> matches == 0,
        r == Err::<(), CameraError>(CameraError::MultipleCameras) <==> matches > 1,
{
    if matches == 1 {
        Ok(())
    } else if matches == 0 {
        Err(CameraError::NoCamera)
    } else {
        Err(CameraError::MultipleCameras)
    }
}

/// The angle to turn by for a pointer motion of `delta` over `dt` seconds.
pub fn turn(delta: Fixed, sensitivity: Fixed, dt: Fixed) -> (angle: Fixed)
    ensures
        angle@ == turn_angle(delta@, sensitivity@, dt@),
{
    delta.neg().times(sensitivity).times(dt)
}

/// Decides whether the pitch change of a frame is made. `current` is the
/// camera's pitch after the frame's yaw, `change` the pitch of the turn that
/// is asked for; the turn is made only if their sum lies strictly within the
/// limit.
pub fn pitch_allowed(current: Fixed, change: Fixed) -> (allowed: bool)
    ensures
        allowed == within_pitch_limit(current@ + change@),
        pitch_after(current@, change@) == if allowed {
            current@ + change@
        } else {
            current@
        },
{
    let sum: i128 = current.nanos as i128 + change.nanos as i128;
    -(PITCH_LIMIT as i128) < sum && sum < PITCH_LIMIT as i128
}

/// The movement that the held keys ask for over `dt` seconds. Without a key
/// there is none, and neither when the keys that are held cancel out.
pub fn movement(camera: &FirstPersonCamera, keys: MoveKeys, dt: Fixed) -> (step: Option<Movement>)
    ensures
        step == movement_of(*camera, keys, dt@),
        !keys.forward && !keys.back && !keys.left && !keys.right ==> step is None,
        step is None <==> keys.forward == keys.back && keys.left == keys.right,
        step matches Some(m) ==> m.is_valid(),
        keys.forward && keys.right && !keys.back && !keys.left ==> step == Some(
            Movement {
                forward: 1,
                right: 1,
                distance: Fixed { nanos: product(camera.speed@, dt@) as i64 },
            },
        ),
{
    let forward: i8 = if keys.forward == keys.back {
        0
    } else if keys.forward {
        1
    } else {
        -1
    };
    let right: i8 = if keys.right == keys.left {
        0
    } else if keys.right {
        1
    } else {
        -1
    };
    if forward == 0 && right == 0 {
        None
    } else {
        Some(Movement { forward, right, distance: camera.speed.times(dt) })
    }
}

/// Plans one frame of the first-person camera from plain values: the turn
/// that the summed pointer motion asks for, and the movement that the held
/// keys ask for.
pub fn plan_frame(
    camera: &FirstPersonCamera,
    dt: Fixed,
    motions: &Vec<PointerDelta>,
    keys: MoveKeys,
) -> (plan: CameraPlan)
    ensures
        plan == plan_of(*camera, dt@, motions@, keys),
        !keys.forward && !keys.back && !keys.left && !keys.right ==> plan.movement is None,
        plan.movement matches Some(m) ==> m.is_valid(),
{
    let total = sum_motion(motions);
    CameraPlan {
        yaw: turn(total.x, camera.sensitivity, dt),
        pitch: turn(total.y, camera.sensitivity, dt),
        movement: movement(camera, keys, dt),
    }
}

/// Plans one frame of the first-person camera: reads the movement keys out
/// of the engine's key table and plans as [`plan_frame`] does.
pub fn first_person_camera_system(
    camera: &FirstPersonCamera,
    dt: Fixed,
    motions: &Vec<PointerDelta>,
    input: &ButtonInput<KeyCode>,
) -> (plan: CameraPlan)
    ensures
        plan == plan_of(*camera, dt@, motions@, move_keys_of(pressed_keys(input))),
        !pressed_keys(input).contains(Key::W) && !pressed_keys(input).contains(Key::S)
            && !pressed_keys(input).contains(Key::A) && !pressed_keys(input).contains(Key::D)
            ==> plan.movement is None,
        plan.movement matches Some(m) ==> m.is_valid(),
{
    plan_frame(camera, dt, motions, read_move_keys(input))
}

/// A pitch that starts within the limit stays within it, whatever changes
/// the frames ask for.
pub proof fn pitch_stays_within_limit(pitch: int, changes: Seq<int>)
    requires
        within_pitch_limit(pitch),
    ensures
        within_pitch_limit(pitch_after_all(pitch, changes)),
    decreases changes.len(),
{
    if changes.len() > 0 {
        pitch_stays_within_limit(pitch, changes.drop_last());
    }
}

} // verus!
