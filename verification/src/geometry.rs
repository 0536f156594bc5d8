//! Positions on screen and in the simulated world.

use vstd::prelude::*;
use crate::constants::{GROUND_HEIGHT, HEIGHT, WIDTH};

verus! {

/// A pointer position in window coordinates.
#[derive(Clone, Copy, Debug, PartialEq, Eq, Structural)]
pub struct ScreenPos {
    pub x: i32,
    pub y: i32,
}

/// A position in world coordinates, whose origin is the centre of the window.
#[derive(Clone, Copy, Debug, PartialEq, Eq, Structural)]
pub struct WorldPos {
    pub x: i64,
    pub y: i64,
}

/// Size of the window the world is seen through.
#[derive(Clone, Copy, Debug, PartialEq, Eq, Structural)]
pub struct Viewport {
    pub width: u32,
    pub height: u32,
}

/// The fixed slab everything rests on. It outlives every level.
#[derive(Clone, Copy, Debug, PartialEq, Eq, Structural)]
pub struct GroundSpawn {
    /// Centre of the slab.
    pub position: WorldPos,
    pub half_width: u32,
    pub half_height: u32,
}

impl Viewport {
    /// World position of a pointer position: the same point measured from
    /// the centre of the window.
    pub open spec fn world_of(self, p: ScreenPos) -> WorldPos {
        WorldPos { x: (p.x - self.width / 2) as i64, y: (p.y - self.height / 2) as i64 }
    }

    /// Where the ground slab goes: centred on the bottom edge of the window
    /// and as wide as the window.
    pub open spec fn ground_of(self) -> GroundSpawn {
        GroundSpawn {
            position: WorldPos { x: 0, y: (-(self.height / 2)) as i64 },
            half_width: (self.width / 2) as u32,
            half_height: GROUND_HEIGHT,
        }
    }

    /// The window the game normally runs in.
    pub fn standard() -> (v: Viewport)
        ensures
            v == (Viewport { width: WIDTH, height: HEIGHT }),
    {
        Viewport { width: WIDTH, height: HEIGHT }
    }

    /// Converts a pointer position to world coordinates.
    pub fn to_world(&self, p: ScreenPos) -> (w: WorldPos)
        ensures
            w == self.world_of(p),
            w.x == p.x - self.width / 2,
            w.y == p.y - self.height / 2,
    {
        WorldPos {
            x: p.x as i64 - (self.width / 2) as i64,
            y: p.y as i64 - (self.height / 2) as i64,
        }
    }

    /// Placement of the ground slab.
    pub fn ground(&self) -> (g: GroundSpawn)
        ensures
            g == self.ground_of(),
    {
        GroundSpawn {
            position: WorldPos { x: 0, y: -((self.height / 2) as i64) },
            half_width: self.width / 2,
            half_height: GROUND_HEIGHT,
        }
    }
}

} // verus!
