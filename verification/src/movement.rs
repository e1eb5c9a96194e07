//! Player movement: what the movement keys ask for.

use vstd::prelude::*;

use crate::input::KeyboardInput;

verus! {

/// The push that the movement keys ask for along x and y, each `-1`, `0` or
/// `1`. Up wins over down, and left over right.
pub open spec fn intent(keys: KeyboardInput) -> (int, int) {
    (
        if keys.a {
            -1
        } else if keys.d {
            1
        } else {
            0
        },
        if keys.w {
            1
        } else if keys.s {
            -1
        } else {
            0
        },
    )
}

/// Reads the push along x and y from the movement keys.
pub fn movement_intent(keyboard_input: &KeyboardInput) -> (push: (i8, i8))
    ensures
        push.0 == intent(*keyboard_input).0,
        push.1 == intent(*keyboard_input).1,
{
    let mut x: i8 = 0;
    let mut y: i8 = 0;
    if keyboard_input.w {
        y = 1;
    } else if keyboard_input.s {
        y = -1;
    }
    if keyboard_input.a {
        x = -1;
    } else if keyboard_input.d {
        x = 1;
    }
    (x, y)
}

} // verus!
