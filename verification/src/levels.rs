//! Level definitions and the catalog that holds them in campaign order.

use vstd::prelude::*;
use crate::constants::{material_of, MaterialId};

verus! {

/// One block of a tower. `x` and `y` locate its bottom-left corner relative
/// to the tower's origin on the ground.
#[derive(Clone, Copy, Debug, PartialEq, Eq, Structural)]
pub struct TowerData {
    pub kind: MaterialId,
    pub x: i32,
    pub y: i32,
    pub h: u32,
    pub w: u32,
}

/// Where one target starts, relative to the tower's origin.
#[derive(Clone, Copy, Debug, PartialEq, Eq, Structural)]
pub struct TargetData {
    pub x: i32,
    pub y: i32,
}

/// One level: the blocks of its tower and its targets, both in file order.
#[derive(Debug)]
pub struct LevelData {
    pub tower: Vec<TowerData>,
    pub targets: Vec<TargetData>,
}

impl TowerData {
    /// Mass of the block: density times area, in units of 10^-9.
    pub open spec fn mass_of(self) -> int {
        material_of(self.kind).density * self.w * self.h
    }

    /// Computes the mass of the block.
    pub fn mass(&self) -> (m: u128)
        ensures
            m == self.mass_of(),
    {
        let d: u128 = self.kind.density() as u128;
        let w: u128 = self.w as u128;
        let h: u128 = self.h as u128;
        assert(d * w <= 2_000 * 0xffff_ffff) by (nonlinear_arith)
            requires
                d <= 2_000,
                w <= 0xffff_ffff,
        ;
        assert(d * w * h <= 2_000 * 0xffff_ffff * 0xffff_ffff) by (nonlinear_arith)
            requires
                d * w <= 2_000 * 0xffff_ffff,
                h <= 0xffff_ffff,
        ;
        d * w * h
    }
}

/// The levels of a campaign, fixed once loaded.
#[derive(Debug)]
pub struct LevelCatalog {
    levels: Vec<LevelData>,
}

impl View for LevelCatalog {
    type V = Seq<LevelData>;

    closed spec fn view(&self) -> Seq<LevelData> {
        self.levels@
    }
}

impl LevelCatalog {
    /// Wraps the levels read from the data source, keeping their order.
    pub fn new(levels: Vec<LevelData>) -> (catalog: LevelCatalog)
        ensures
            catalog@ == levels@,
    {
        LevelCatalog { levels }
    }

    /// Number of levels.
    pub fn count(&self) -> (n: usize)
        ensures
            n == self@.len(),
    {
        self.levels.len()
    }

    /// Index of the last level.
    pub fn max_level_index(&self) -> (max: usize)
        requires
            self@.len() > 0,
        ensures
            max == self@.len() - 1,
    {
        self.levels.len() - 1
    }

    /// The level at `index`.
    pub fn get(&self, index: usize) -> (level: &LevelData)
        requires
            index < self@.len(),
        ensures
            *level == self@[index as int],
    {
        &self.levels[index]
    }
}

} // verus!
