//! Level and launch state machine of a tower-toppling physics puzzle.
//!
//! The player aims a ball at a tower of blocks, charges a launch by holding
//! the pointer, and releases it to knock the targets off the tower. This
//! crate holds the rules of that game and nothing of the engine that draws
//! and simulates it: the caller feeds it pointer and key input, the ball's
//! position and the contact forces that the physics engine reports, and is
//! told what to create, push and remove.
//!
//! Every quantity is a whole number of thousandths of a simulation unit, so
//! the rules are exact: a power of 0.75 is `750`, a force of 20.0 is
//! `20_000`. The caller converts at the boundary, and scales the launch
//! direction to unit length, which needs a square root.
//!
//! * [`constants`]: the scale, the tuning constants and the material table.
//! * [`geometry`]: pointer and world positions.
//! * [`levels`]: level definitions and the catalog of a campaign.
//! * [`plan`]: what a level attempt starts with, and where it goes.
//! * [`launch`]: the charge-and-aim gesture.
//! * [`targets`]: the set of targets still standing.
//! * [`physics`]: body names, impulses and contact-force events.
//! * [`model`]: the state machine as mathematics, and what holds of it.
//! * [`game`]: the state machine itself.
//! * [`main_menu`]: the decisions of the main menu.

pub mod constants;
pub mod game;
pub mod geometry;
pub mod launch;
pub mod levels;
pub mod main_menu;
pub mod model;
pub mod physics;
pub mod plan;
pub mod targets;

use vstd::prelude::*;

verus! {

/// The phase a level attempt is in.
#[derive(Clone, Copy, Debug, PartialEq, Eq, Structural)]
pub enum LevelState {
    /// The player is aiming; nothing has been launched yet.
    Prelaunch,
    /// The ball is in flight and targets can be destroyed.
    Launched,
    /// Every target is gone and a further level exists.
    Complete,
    /// Every target of the last level is gone.
    CampaignComplete,
}

impl LevelState {
    /// Whether the player may still aim and charge.
    pub fn is_prelaunch(self) -> (b: bool)
        ensures
            b == (self == LevelState::Prelaunch),
    {
        self == LevelState::Prelaunch
    }

    /// Whether the ball is in flight.
    pub fn is_launched(self) -> (b: bool)
        ensures
            b == (self == LevelState::Launched),
    {
        self == LevelState::Launched
    }
}

} // verus!
