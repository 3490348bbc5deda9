//! Plain descriptions of what the renderer and the physics engine are asked
//! to show and simulate. Lengths are whole pixels.

use vstd::prelude::*;

verus! {

/// Colour laid over a sprite.
#[derive(Clone, Copy, Debug, PartialEq, Eq, Structural)]
pub enum Tint {
    /// No tint: the sprite's own colours.
    White,
    Green,
    Red,
}

/// A place in the world. The origin is the centre of the window, `y` grows
/// upwards.
#[derive(Clone, Copy, Debug, PartialEq, Eq, Structural)]
pub struct Position {
    pub x: i32,
    pub y: i32,
}

/// A displacement or a velocity asked of the physics engine.
#[derive(Clone, Copy, Debug, PartialEq, Eq, Structural)]
pub struct Vector {
    pub x: i64,
    pub y: i64,
}

/// Width and height of something drawn.
#[derive(Clone, Copy, Debug, PartialEq, Eq, Structural)]
pub struct Size {
    pub width: u32,
    pub height: u32,
}

/// Collision shape, centred on the entity that carries it.
#[derive(Clone, Copy, Debug, PartialEq, Eq, Structural)]
pub enum Collider {
    /// A box, by its full width and height.
    Cuboid { width: u32, height: u32 },
    /// An upright capsule: a segment of `2 * half_height` capped by two
    /// half-discs of `radius`.
    CapsuleY { half_height: u32, radius: u32 },
}

} // verus!
