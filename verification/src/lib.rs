//! Core of a small 2D platformer: the player's control and animation state
//! machine, collectible potions and the transformations they trigger, kept
//! apart from the engine that renders and simulates them.
//!
//! The engine hands in plain values each tick (the keys, whether the player
//! stands on the ground, the time that passed, the collisions) and gets plain
//! values back (where to move the player, what to show, what to take out of
//! the world). Lengths are whole pixels, times whole nanoseconds.
//!
//! - [`timer`]: the countdowns that pace the animations.
//! - [`asset_tracker`]: the registry from asset keys to handles.
//! - [`shapes`]: colours, sizes, places and collision shapes.
//! - [`platforms`]: the static frame of the level.
//! - [`collectibles`]: the potions, and how they are picked up.
//! - [`animate`]: the idle, walk and jump animations.
//! - [`player`]: the player and its sprite sheets.
//! - [`control`]: the keyboard controller.
//! - [`transform`]: what the potions make of the player.
//! - [`play`]: the player over time, and what holds through every run of ticks.
//! - [`game`]: the parts put together, and the order of a tick.

pub mod animate;
pub mod asset_tracker;
pub mod collectibles;
pub mod control;
pub mod game;
pub mod platforms;
pub mod play;
pub mod player;
pub mod shapes;
pub mod timer;
pub mod transform;
