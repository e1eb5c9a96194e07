//! Verified game rules for a small top-down arena shooter.
//!
//! The player moves and aims in eight directions, fires bullets while a key
//! is held, and enemies appear at a distance from the player. A bullet that
//! touches an enemy removes both. This crate holds the rules of that game on
//! plain values; the window, the physics engine and the entity store are
//! driven by the program around it.
//!
//! - [`input`]: the keys of one tick.
//! - [`direction`]: the eight headings, the aim, and the vector of a heading.
//! - [`movement`]: what the movement keys ask for.
//! - [`timer`]: cooldowns.
//! - [`bullet`]: the trigger, new bullets, their flight and their lifetime.
//! - [`spawn`]: where and when enemies appear.
//! - [`collision`]: which contacts are hits, and what is removed for them.

pub mod bullet;
pub mod collision;
pub mod direction;
pub mod input;
pub mod movement;
pub mod spawn;
pub mod timer;
