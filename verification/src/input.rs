//! What the player did since the last frame: keys held and pointer motion.

use bevy::input::keyboard::KeyCode;
use bevy::input::ButtonInput;
use std::hash::Hash;
use vstd::prelude::*;

use crate::fixed::{saturate, Fixed};

verus! {

/// The engine's table of buttons that are down, opaque here.
#[verifier::external_type_specification]
#[verifier::external_body]
#[verifier::reject_recursive_types(T)]
pub struct ExButtonInput<T: Copy + Eq + Hash + Send + Sync + 'static>(ButtonInput<T>);

/// The engine's name for a key on the keyboard, opaque here.
#[verifier::external_type_specification]
#[verifier::external_body]
pub struct ExKeyCode(KeyCode);

/// The four keys that move the camera.
#[derive(Clone, Copy, Debug, PartialEq, Eq, Structural)]
pub enum Key {
    W,
    A,
    S,
    D,
}

/// Which of the four movement keys the table `input` holds as pressed.
pub uninterp spec fn pressed_keys(input: &ButtonInput<KeyCode>) -> Set<Key>;

/// `ButtonInput::pressed` for one of the four movement keys: whether the
/// table holds that key as pressed. The table is only read.
#[verifier::external_body]
fn key_pressed(input: &ButtonInput<KeyCode>, key: Key) -> (down: bool)
    ensures
        down == pressed_keys(input).contains(key),
{
    input.pressed(
        match key {
            Key::W => KeyCode::KeyW,
            Key::A => KeyCode::KeyA,
            Key::S => KeyCode::KeyS,
            Key::D => KeyCode::KeyD,
        },
    )
}

/// The movement keys as the camera reads them: `W` is forward, `S` is back,
/// `A` is left and `D` is right.
#[derive(Clone, Copy, Debug, PartialEq, Eq, Structural)]
pub struct MoveKeys {
    pub forward: bool,
    pub back: bool,
    pub left: bool,
    pub right: bool,
}

/// The movement keys that a set of pressed keys amounts to.
pub open spec fn move_keys_of(pressed: Set<Key>) -> MoveKeys {
    MoveKeys {
        forward: pressed.contains(Key::W),
        back: pressed.contains(Key::S),
        left: pressed.contains(Key::A),
        right: pressed.contains(Key::D),
    }
}

/// Reads the four movement keys out of the engine's key table.
pub fn read_move_keys(input: &ButtonInput<KeyCode>) -> (keys: MoveKeys)
    ensures
        keys == move_keys_of(pressed_keys(input)),
{
    MoveKeys {
        forward: key_pressed(input, Key::W),
        back: key_pressed(input, Key::S),
        left: key_pressed(input, Key::A),
        right: key_pressed(input, Key::D),
    }
}

/// One report of pointer motion: how far the pointer went along each axis
/// of the screen.
#[derive(Clone, Copy, Debug, PartialEq, Eq, Structural)]
pub struct PointerDelta {
    pub x: Fixed,
    pub y: Fixed,
}

/// The exact sum of the motions along the screen's X axis, in billionths.
pub open spec fn sum_x(motions: Seq<PointerDelta>) -> int
    decreases motions.len(),
{
    if motions.len() == 0 {
        0
    } else {
        sum_x(motions.drop_last()) + motions.last().x@
    }
}

/// The exact sum of the motions along the screen's Y axis, in billionths.
pub open spec fn sum_y(motions: Seq<PointerDelta>) -> int
    decreases motions.len(),
{
    if motions.len() == 0 {
        0
    } else {
        sum_y(motions.drop_last()) + motions.last().y@
    }
}

/// All the motions of a frame as one: the sum along each axis, saturated.
pub open spec fn total_motion(motions: Seq<PointerDelta>) -> PointerDelta {
    PointerDelta {
        x: Fixed { nanos: saturate(sum_x(motions)) as i64 },
        y: Fixed { nanos: saturate(sum_y(motions)) as i64 },
    }
}

/// Adds up the pointer motions that were reported since the last frame. The
/// sum is exact unless it leaves the range of a `Fixed`; no motions give
/// zero.
pub fn sum_motion(motions: &Vec<PointerDelta>) -> (total: PointerDelta)
    ensures
        total == total_motion(motions@),
{
    let mut x: i128 = 0;
    let mut y: i128 = 0;
    let mut i: usize = 0;
    while i < motions.len()
        invariant
            i <= motions.len(),
            x == sum_x(motions@.take(i as int)),
            y == sum_y(motions@.take(i as int)),
            -0x8000_0000_0000_0000 * i <= x <= 0x8000_0000_0000_0000 * i,
            -0x8000_0000_0000_0000 * i <= y <= 0x8000_0000_0000_0000 * i,
        decreases motions.len() - i,
    {
        assert(motions@.take(i + 1).drop_last() =~= motions@.take(i as int));
        assert(motions@.take(i + 1).last() == motions@[i as int]);
        x = x + motions[i].x.nanos as i128;
        y = y + motions[i].y.nanos as i128;
        i = i + 1;
    }
    assert(motions@.take(i as int) =~= motions@);
    PointerDelta { x: Fixed::saturating_from(x), y: Fixed::saturating_from(y) }
}

} // verus!
