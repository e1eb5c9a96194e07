//! The keys that the game reads, as they stand at one tick.

use vstd::prelude::*;

verus! {

/// Which of the game's keys are held down.
#[derive(Debug, Clone, Copy, PartialEq, Eq, Structural)]
pub struct KeyboardInput {
    /// Move up.
    pub w: bool,
    /// Move left.
    pub a: bool,
    /// Move down.
    pub s: bool,
    /// Move right.
    pub d: bool,
    /// Aim up.
    pub up: bool,
    /// Aim down.
    pub down: bool,
    /// Aim left.
    pub left: bool,
    /// Aim right.
    pub right: bool,
    /// Fire.
    pub space: bool,
}

impl KeyboardInput {
    /// No key held.
    pub fn released() -> (keys: KeyboardInput)
        ensures
            keys == (KeyboardInput {
                w: false,
                a: false,
                s: false,
                d: false,
                up: false,
                down: false,
                left: false,
                right: false,
                space: false,
            }),
    {
        KeyboardInput {
            w: false,
            a: false,
            s: false,
            d: false,
            up: false,
            down: false,
            left: false,
            right: false,
            space: false,
        }
    }
}

} // verus!
