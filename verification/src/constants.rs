//! Fixed-point scale, tuning constants and the material table.
//!
//! Every length, position, force, power, density and restitution in this
//! crate is a whole number of thousandths of a simulation unit, so the game
//! rules are exact integer arithmetic.

use vstd::prelude::*;

verus! {

/// Thousandths per simulation unit.
pub const UNIT: u32 = 1_000;

/// Width of the play field.
pub const WIDTH: u32 = 900_000;

/// Height of the play field.
pub const HEIGHT: u32 = 600_000;

/// Factor from launch power to impulse magnitude (2.0).
pub const LAUNCH_FACTOR: u32 = 2_000;

/// Contact force a target survives (20.0); anything above destroys it.
pub const TARGET_FORCE_THRESH: u64 = 20_000;

/// Half height of the ground slab.
pub const GROUND_HEIGHT: u32 = 15_000;

/// Power gained per tick while the launch gesture is held (0.75).
pub const CHARGE_RATE: u32 = 750;

/// Largest power a launch can be charged to (70.0).
pub const POWER_CAP: u32 = 70_000;

/// Radius of the ball and of every target.
pub const BODY_RADIUS: u32 = 10_000;

/// Bounciness of the ball and of every target (0.7).
pub const BODY_RESTITUTION: u32 = 700;

/// Density of the ball (1.0).
pub const BALL_DENSITY: u32 = 1_000;

/// Height of the ball's centre above the ground surface.
pub const BALL_LIFT: u32 = 15_000;

/// Height of a target's centre above its stated position.
pub const TARGET_LIFT: u32 = 5_000;

/// A colour with channels in thousandths of full intensity.
#[derive(Clone, Copy, Debug, PartialEq, Eq, Structural)]
pub struct Rgb {
    pub r: u16,
    pub g: u16,
    pub b: u16,
}

/// Density and colours of a building material.
#[derive(Clone, Copy, Debug, PartialEq, Eq, Structural)]
pub struct Material {
    /// Mass per unit area.
    pub density: u32,
    /// Fill colour.
    pub color1: Rgb,
    /// Outline colour.
    pub color2: Rgb,
}

/// The materials a tower block can be made of.
#[derive(Clone, Copy, Debug, PartialEq, Eq, Hash, Structural)]
pub enum MaterialId {
    /// Light wood, written `wood1` in level data.
    WoodLight,
    /// Heavy wood, written `wood2`.
    WoodHeavy,
    /// Light stone, written `stone1`.
    StoneLight,
    /// Heavy stone, written `stone2`.
    StoneHeavy,
}

/// The material that a kind name in level data stands for. Names other than
/// the four known ones fall back to light wood.
pub open spec fn kind_material(name: Seq<char>) -> MaterialId {
    if name == "wood1"@ {
        MaterialId::WoodLight
    } else if name == "wood2"@ {
        MaterialId::WoodHeavy
    } else if name == "stone1"@ {
        MaterialId::StoneLight
    } else if name == "stone2"@ {
        MaterialId::StoneHeavy
    } else {
        MaterialId::WoodLight
    }
}

/// The density and colours of each material.
pub open spec fn material_of(id: MaterialId) -> Material {
    match id {
        MaterialId::WoodLight => Material {
            density: 500,
            color1: Rgb { r: 600, g: 400, b: 200 },
            color2: Rgb { r: 525, g: 349, b: 176 },
        },
        MaterialId::WoodHeavy => Material {
            density: 1_000,
            color1: Rgb { r: 451, g: 302, b: 149 },
            color2: Rgb { r: 376, g: 251, b: 125 },
        },
        MaterialId::StoneLight => Material {
            density: 1_500,
            color1: Rgb { r: 408, g: 408, b: 392 },
            color2: Rgb { r: 357, g: 357, b: 341 },
        },
        MaterialId::StoneHeavy => Material {
            density: 2_000,
            color1: Rgb { r: 306, g: 306, b: 294 },
            color2: Rgb { r: 255, g: 255, b: 243 },
        },
    }
}

impl MaterialId {
    /// Reads a kind name from level data.
    pub fn from_kind(kind: &str) -> (id: MaterialId)
        ensures
            id == kind_material(kind@),
    {
        let name: String = kind.to_owned();
        if name == "wood1".to_owned() {
            MaterialId::WoodLight
        } else if name == "wood2".to_owned() {
            MaterialId::WoodHeavy
        } else if name == "stone1".to_owned() {
            MaterialId::StoneLight
        } else if name == "stone2".to_owned() {
            MaterialId::StoneHeavy
        } else {
            MaterialId::WoodLight
        }
    }

    /// Density and colours of this material.
    pub fn material(self) -> (m: Material)
        ensures
            m == material_of(self),
    {
        match self {
            MaterialId::WoodLight => Material {
                density: 500,
                color1: Rgb { r: 600, g: 400, b: 200 },
                color2: Rgb { r: 525, g: 349, b: 176 },
            },
            MaterialId::WoodHeavy => Material {
                density: 1_000,
                color1: Rgb { r: 451, g: 302, b: 149 },
                color2: Rgb { r: 376, g: 251, b: 125 },
            },
            MaterialId::StoneLight => Material {
                density: 1_500,
                color1: Rgb { r: 408, g: 408, b: 392 },
                color2: Rgb { r: 357, g: 357, b: 341 },
            },
            MaterialId::StoneHeavy => Material {
                density: 2_000,
                color1: Rgb { r: 306, g: 306, b: 294 },
                color2: Rgb { r: 255, g: 255, b: 243 },
            },
        }
    }

    /// Mass per unit area of this material.
    pub fn density(self) -> (d: u32)
        ensures
            d == material_of(self).density,
            500 <= d <= 2_000,
    {
        self.material().density
    }
}

/// Fill and outline colour of a target.
pub fn target_color() -> (c: (Rgb, Rgb))
    ensures
        c == (Rgb { r: 820, g: 160, b: 160 }, Rgb { r: 650, g: 110, b: 110 }),
{
    (Rgb { r: 820, g: 160, b: 160 }, Rgb { r: 650, g: 110, b: 110 })
}

/// Colour of the ground slab.
pub fn ground_color() -> (c: Rgb)
    ensures
        c == (Rgb { r: 0, g: 500, b: 0 }),
{
    Rgb { r: 0, g: 500, b: 0 }
}

} // verus!
