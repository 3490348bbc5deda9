//! The static frame of the level: a floor and two walls along the window's
//! edges.

use crate::shapes::{Collider, Size, Tint};
use vstd::prelude::*;

verus! {

/// Thickness of the floor and of the walls.
pub const PLATFORM_THICKNESS: u32 = 50;

/// A static coloured box. The world's origin is the window's centre;
/// `centre_twice` is twice the box's centre, which stays whole where the
/// window's width or height is odd.
#[derive(Clone, Copy, Debug, PartialEq, Eq)]
pub struct Platform {
    pub size: Size,
    pub centre_twice: (i64, i64),
    pub color: Tint,
    pub collider: Collider,
}

/// A red box of the given size that collides over its whole area.
pub open spec fn red_box(size: Size, centre_twice: (int, int)) -> Platform {
    Platform {
        size,
        centre_twice: (centre_twice.0 as i64, centre_twice.1 as i64),
        color: Tint::Red,
        collider: Collider::Cuboid { width: size.width, height: size.height },
    }
}

/// The floor: as wide as the window, resting on its lower edge.
pub open spec fn floor(width: u32, height: u32) -> Platform {
    red_box(Size { width, height: PLATFORM_THICKNESS }, (0, PLATFORM_THICKNESS - height))
}

/// The left wall: as high as the window, against its left edge.
pub open spec fn left_wall(width: u32, height: u32) -> Platform {
    red_box(Size { width: PLATFORM_THICKNESS, height }, (PLATFORM_THICKNESS - width, 0))
}

/// The right wall: as high as the window, against its right edge.
pub open spec fn right_wall(width: u32, height: u32) -> Platform {
    red_box(Size { width: PLATFORM_THICKNESS, height }, (width - PLATFORM_THICKNESS, 0))
}

fn make_red_box(size: Size, centre_twice: (i64, i64)) -> (platform: Platform)
    ensures
        platform == red_box(size, (centre_twice.0 as int, centre_twice.1 as int)),
{
    Platform {
        size,
        centre_twice,
        color: Tint::Red,
        collider: Collider::Cuboid { width: size.width, height: size.height },
    }
}

/// Lays out the level's frame for a window of `width` by `height` pixels:
/// the floor, the left wall and the right wall, in this order.
pub fn spawn_platforms(width: u32, height: u32) -> (platforms: Vec<Platform>)
    ensures
        platforms@ == seq![
            floor(width, height),
            left_wall(width, height),
            right_wall(width, height),
        ],
{
    let thickness: i64 = PLATFORM_THICKNESS as i64;
    let w: i64 = width as i64;
    let h: i64 = height as i64;
    let mut platforms: Vec<Platform> = Vec::new();
    let strip = Size { width, height: PLATFORM_THICKNESS };
    let pillar = Size { width: PLATFORM_THICKNESS, height };
    platforms.push(make_red_box(strip, (0, thickness - h)));
    platforms.push(make_red_box(pillar, (thickness - w, 0)));
    platforms.push(make_red_box(pillar, (w - thickness, 0)));
    assert(platforms@ =~= seq![
        floor(width, height),
        left_wall(width, height),
        right_wall(width, height),
    ]);
    platforms
}

/// The level's part of the game: the platforms that stand in it.
pub struct PlatformsPlugin {
    pub platforms: Vec<Platform>,
}

impl PlatformsPlugin {
    /// The plugin before the level is entered: no platform.
    pub fn build() -> (plugin: PlatformsPlugin)
        ensures
            plugin.platforms@ == Seq::<Platform>::empty(),
    {
        PlatformsPlugin { platforms: Vec::new() }
    }

    /// Puts up the frame of the level for a window of `width` by `height`
    /// pixels, in place of what stood before.
    pub fn enter_game(&mut self, width: u32, height: u32)
        ensures
            final(self).platforms@ == seq![
                floor(width, height),
                left_wall(width, height),
                right_wall(width, height),
            ],
    {
        self.platforms = spawn_platforms(width, height);
    }
}

} // verus!
