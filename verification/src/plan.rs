//! Level setup: what to create when a level attempt begins, and where.

use vstd::prelude::*;
use crate::constants::{material_of, MaterialId, BALL_LIFT, GROUND_HEIGHT, TARGET_LIFT};
use crate::geometry::{Viewport, WorldPos};
use crate::levels::{LevelData, TargetData, TowerData};
use crate::physics::BodyId;

verus! {

/// The ball to create.
#[derive(Clone, Copy, Debug, PartialEq, Eq, Structural)]
pub struct BallSpawn {
    pub body: BodyId,
    /// Centre of the ball.
    pub position: WorldPos,
}

/// A tower block to create.
#[derive(Clone, Copy, Debug, PartialEq, Eq, Structural)]
pub struct BlockSpawn {
    pub body: BodyId,
    pub material: MaterialId,
    pub width: u32,
    pub height: u32,
    /// Centre of the block.
    pub position: WorldPos,
    /// Mass per unit area.
    pub density: u32,
    /// Density times area, in units of 10^-9.
    pub mass: u128,
}

/// A target to create.
#[derive(Clone, Copy, Debug, PartialEq, Eq, Structural)]
pub struct TargetSpawn {
    pub body: BodyId,
    /// Centre of the target.
    pub position: WorldPos,
    /// Whether the engine reports contact forces on it from the start.
    pub reports_force: bool,
}

/// Everything a level attempt starts with.
#[derive(Debug)]
pub struct LevelPlan {
    /// Number of the attempt; every body of the plan carries it.
    pub attempt: u64,
    /// The level being set up, for the progress label.
    pub level_index: usize,
    /// The last level of the campaign, for the progress label.
    pub max_level_index: usize,
    /// Whether to show the how-to-play text.
    pub show_help: bool,
    pub ball: BallSpawn,
    pub blocks: Vec<BlockSpawn>,
    pub targets: Vec<TargetSpawn>,
}

/// A level plan as plain mathematical data.
pub struct LevelPlanView {
    pub attempt: u64,
    pub level_index: usize,
    pub max_level_index: usize,
    pub show_help: bool,
    pub ball: BallSpawn,
    pub blocks: Seq<BlockSpawn>,
    pub targets: Seq<TargetSpawn>,
}

impl View for LevelPlan {
    type V = LevelPlanView;

    open spec fn view(&self) -> LevelPlanView {
        LevelPlanView {
            attempt: self.attempt,
            level_index: self.level_index,
            max_level_index: self.max_level_index,
            show_help: self.show_help,
            ball: self.ball,
            blocks: self.blocks@,
            targets: self.targets@,
        }
    }
}

/// The ball starts a quarter of the window left of centre, resting on the
/// ground.
pub open spec fn ball_spawn(viewport: Viewport, attempt: u64) -> BallSpawn {
    BallSpawn {
        body: BodyId::Ball { attempt },
        position: WorldPos {
            x: (-(viewport.width / 4)) as i64,
            y: (-(viewport.height / 2) + BALL_LIFT + GROUND_HEIGHT) as i64,
        },
    }
}

/// The tower's origin is a quarter of the window right of centre, on the
/// ground. A block is placed by its centre, half its size up and right of its
/// bottom-left corner.
pub open spec fn block_spawn(
    viewport: Viewport,
    attempt: u64,
    index: int,
    block: TowerData,
) -> BlockSpawn {
    BlockSpawn {
        body: BodyId::Block { attempt, index: index as usize },
        material: block.kind,
        width: block.w,
        height: block.h,
        position: WorldPos {
            x: (viewport.width / 4 + block.x + block.w / 2) as i64,
            y: (-(viewport.height / 2) + block.y + block.h / 2 + GROUND_HEIGHT) as i64,
        },
        density: material_of(block.kind).density,
        mass: block.mass_of() as u128,
    }
}

/// A target is placed relative to the tower's origin, lifted a little, and
/// does not report contact forces until the ball is launched.
pub open spec fn target_spawn(
    viewport: Viewport,
    attempt: u64,
    index: int,
    target: TargetData,
) -> TargetSpawn {
    TargetSpawn {
        body: BodyId::Target { attempt, index: index as usize },
        position: WorldPos {
            x: (viewport.width / 4 + target.x) as i64,
            y: (-(viewport.height / 2) + target.y + TARGET_LIFT + GROUND_HEIGHT) as i64,
        },
        reports_force: false,
    }
}

/// The plan for an attempt at `level`: one ball, one block per tower entry
/// and one target per target entry, in the order of the level definition.
/// The how-to-play text is shown on the first level only.
pub open spec fn plan_of(
    level: LevelData,
    level_index: usize,
    max_level_index: usize,
    attempt: u64,
    viewport: Viewport,
) -> LevelPlanView {
    LevelPlanView {
        attempt,
        level_index,
        max_level_index,
        show_help: level_index == 0,
        ball: ball_spawn(viewport, attempt),
        blocks: Seq::new(
            level.tower@.len(),
            |i: int| block_spawn(viewport, attempt, i, level.tower@[i]),
        ),
        targets: Seq::new(
            level.targets@.len(),
            |i: int| target_spawn(viewport, attempt, i, level.targets@[i]),
        ),
    }
}

/// Lays out an attempt at `level`.
pub fn setup_level(
    level: &LevelData,
    level_index: usize,
    max_level_index: usize,
    attempt: u64,
    viewport: Viewport,
) -> (plan: LevelPlan)
    ensures
        plan@ == plan_of(*level, level_index, max_level_index, attempt, viewport),
        plan@.blocks.len() == level.tower@.len(),
        plan@.targets.len() == level.targets@.len(),
{
    let left: i64 = (viewport.width / 4) as i64;
    let bottom: i64 = -((viewport.height / 2) as i64);
    let ball = BallSpawn {
        body: BodyId::Ball { attempt },
        position: WorldPos { x: -left, y: bottom + BALL_LIFT as i64 + GROUND_HEIGHT as i64 },
    };
    let mut blocks: Vec<BlockSpawn> = Vec::new();
    let mut i: usize = 0;
    while i < level.tower.len()
        invariant
            i <= level.tower@.len(),
            left == viewport.width / 4,
            bottom == -(viewport.height / 2),
            blocks@.len() == i,
            forall|k: int|
                0 <= k < i ==> blocks@[k] == block_spawn(viewport, attempt, k, level.tower@[k]),
        decreases level.tower@.len() - i,
    {
        let block: TowerData = level.tower[i];
        blocks.push(
            BlockSpawn {
                body: BodyId::Block { attempt, index: i },
                material: block.kind,
                width: block.w,
                height: block.h,
                position: WorldPos {
                    x: left + block.x as i64 + (block.w / 2) as i64,
                    y: bottom + block.y as i64 + (block.h / 2) as i64 + GROUND_HEIGHT as i64,
                },
                density: block.kind.density(),
                mass: block.mass(),
            },
        );
        i = i + 1;
    }
    let mut targets: Vec<TargetSpawn> = Vec::new();
    let mut j: usize = 0;
    while j < level.targets.len()
        invariant
            j <= level.targets@.len(),
            left == viewport.width / 4,
            bottom == -(viewport.height / 2),
            targets@.len() == j,
            forall|k: int|
                0 <= k < j ==> targets@[k] == target_spawn(
                    viewport,
                    attempt,
                    k,
                    level.targets@[k],
                ),
        decreases level.targets@.len() - j,
    {
        let target: TargetData = level.targets[j];
        targets.push(
            TargetSpawn {
                body: BodyId::Target { attempt, index: j },
                position: WorldPos {
                    x: left + target.x as i64,
                    y: bottom + target.y as i64 + TARGET_LIFT as i64 + GROUND_HEIGHT as i64,
                },
                reports_force: false,
            },
        );
        j = j + 1;
    }
    let plan = LevelPlan {
        attempt,
        level_index,
        max_level_index,
        show_help: level_index == 0,
        ball,
        blocks,
        targets,
    };
    proof {
        let want = plan_of(*level, level_index, max_level_index, attempt, viewport);
        assert(plan@.blocks =~= want.blocks);
        assert(plan@.targets =~= want.targets);
    }
    plan
}

} // verus!
