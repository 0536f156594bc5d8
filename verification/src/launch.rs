//! The charge-and-aim gesture: press, hold to build power, release to launch.

use vstd::prelude::*;
use crate::constants::{CHARGE_RATE, POWER_CAP, UNIT};
use crate::geometry::{ScreenPos, Viewport, WorldPos};
use crate::LevelState;

verus! {

/// What the gesture has built up so far.
#[derive(Clone, Copy, Debug, PartialEq, Eq, Structural)]
pub struct ChargeState {
    /// Power accumulated, from zero up to the cap.
    pub power: u32,
    /// Where the pointer was last seen while the gesture was active, in
    /// world coordinates; `None` while no gesture is in progress.
    pub aim: Option<WorldPos>,
}

/// A request to launch the ball, emitted once when the gesture is released.
#[derive(Clone, Copy, Debug, PartialEq, Eq, Structural)]
pub struct LaunchRequest {
    pub power: u32,
    pub aim_point: WorldPos,
}

/// The circle that shows the player how much power has built up.
#[derive(Clone, Copy, Debug, PartialEq, Eq, Structural)]
pub struct Indicator {
    pub position: WorldPos,
    pub radius: u32,
}

impl ChargeState {
    /// No gesture in progress and no power.
    pub open spec fn idle() -> ChargeState {
        ChargeState { power: 0, aim: None }
    }

    /// Power after one more tick of holding.
    pub open spec fn charged(power: u32) -> u32 {
        if power + CHARGE_RATE <= POWER_CAP {
            (power + CHARGE_RATE) as u32
        } else {
            POWER_CAP
        }
    }

    /// Effect of the pointer going down at world position `at`.
    pub open spec fn pressed(self, state: LevelState, at: WorldPos) -> ChargeState {
        if state == LevelState::Prelaunch {
            ChargeState { power: self.power, aim: Some(at) }
        } else {
            self
        }
    }

    /// Effect of one tick with the pointer held at world position `at`.
    pub open spec fn held(self, state: LevelState, at: WorldPos) -> ChargeState {
        if state == LevelState::Prelaunch {
            ChargeState { power: Self::charged(self.power), aim: Some(at) }
        } else {
            self
        }
    }

    /// Effect of the pointer going up.
    pub open spec fn released(self, state: LevelState) -> ChargeState {
        if state == LevelState::Prelaunch {
            Self::idle()
        } else {
            self
        }
    }

    /// The request that a release at world position `at` emits, if any.
    pub open spec fn request(self, state: LevelState, at: WorldPos) -> Option<LaunchRequest> {
        if state == LevelState::Prelaunch {
            Some(LaunchRequest { power: self.power, aim_point: at })
        } else {
            None
        }
    }

    /// The indicator to draw: present exactly while a gesture is in progress,
    /// centred on the aim point, one unit larger than the power.
    pub open spec fn indicator(self) -> Option<Indicator> {
        match self.aim {
            Some(at) => Some(Indicator { position: at, radius: (UNIT + self.power) as u32 }),
            None => None,
        }
    }
}

/// Owns the charge state and turns pointer events into launch requests.
/// It only reacts while the level is in its aiming phase.
#[derive(Clone, Copy, Debug)]
pub struct LaunchController {
    viewport: Viewport,
    charge: ChargeState,
}

impl View for LaunchController {
    type V = ChargeState;

    closed spec fn view(&self) -> ChargeState {
        self.charge
    }
}

impl LaunchController {
    /// The window that pointer positions are measured in.
    pub closed spec fn viewport(&self) -> Viewport {
        self.viewport
    }

    /// The power never exceeds the cap.
    pub open spec fn wf(&self) -> bool {
        self@.power <= POWER_CAP
    }

    /// A controller with no gesture in progress.
    pub fn new(viewport: Viewport) -> (c: LaunchController)
        ensures
            c.wf(),
            c.viewport() == viewport,
            c@ == ChargeState::idle(),
    {
        LaunchController { viewport, charge: ChargeState { power: 0, aim: None } }
    }

    /// The window that pointer positions are measured in.
    pub fn viewport_size(&self) -> (viewport: Viewport)
        ensures
            viewport == self.viewport(),
    {
        self.viewport
    }

    /// Power built up so far.
    pub fn current_power(&self) -> (power: u32)
        ensures
            power == self@.power,
    {
        self.charge.power
    }

    /// Current aim target, if a gesture is in progress.
    pub fn current_aim_point(&self) -> (aim: Option<WorldPos>)
        ensures
            aim == self@.aim,
    {
        self.charge.aim
    }

    /// The power indicator to draw this tick, if any.
    pub fn indicator(&self) -> (shown: Option<Indicator>)
        requires
            self.wf(),
        ensures
            shown == self@.indicator(),
    {
        match self.charge.aim {
            Some(at) => Some(Indicator { position: at, radius: UNIT + self.charge.power }),
            None => None,
        }
    }

    /// Drops any gesture in progress and zeroes the power.
    pub fn reset(&mut self)
        ensures
            final(self).wf(),
            final(self).viewport() == old(self).viewport(),
            final(self)@ == ChargeState::idle(),
    {
        self.charge = ChargeState { power: 0, aim: None };
    }

    /// The pointer went down at `pointer`. Outside the aiming phase nothing
    /// happens; in it the gesture begins, aimed at the pointer.
    pub fn on_press_start(&mut self, state: LevelState, pointer: ScreenPos)
        requires
            old(self).wf(),
        ensures
            final(self).wf(),
            final(self).viewport() == old(self).viewport(),
            final(self)@ == old(self)@.pressed(state, old(self).viewport().world_of(pointer)),
            final(self)@.power == old(self)@.power,
    {
        if state.is_prelaunch() {
            let at: WorldPos = self.viewport.to_world(pointer);
            self.charge.aim = Some(at);
        }
    }

    /// One tick with the pointer held at `pointer`. Outside the aiming phase
    /// nothing happens; in it the power grows by the charge rate, stopping at
    /// the cap, and the aim follows the pointer.
    pub fn on_held(&mut self, state: LevelState, pointer: ScreenPos)
        requires
            old(self).wf(),
        ensures
            final(self).wf(),
            final(self).viewport() == old(self).viewport(),
            final(self)@ == old(self)@.held(state, old(self).viewport().world_of(pointer)),
            state != LevelState::Prelaunch ==> final(self)@ == old(self)@,
            final(self)@.power >= old(self)@.power,
            final(self)@.power - old(self)@.power <= CHARGE_RATE,
    {
        if state.is_prelaunch() {
            let at: WorldPos = self.viewport.to_world(pointer);
            let power: u32 = if self.charge.power <= POWER_CAP - CHARGE_RATE {
                self.charge.power + CHARGE_RATE
            } else {
                POWER_CAP
            };
            self.charge = ChargeState { power, aim: Some(at) };
        }
    }

    /// The pointer went up at `pointer`. Outside the aiming phase nothing
    /// happens and nothing is emitted; in it exactly one request is emitted,
    /// carrying the power built up and aimed at the release point, and the
    /// charge returns to idle.
    pub fn on_release(&mut self, state: LevelState, pointer: ScreenPos) -> (request: Option<
        LaunchRequest,
    >)
        requires
            old(self).wf(),
        ensures
            final(self).wf(),
            final(self).viewport() == old(self).viewport(),
            final(self)@ == old(self)@.released(state),
            request == old(self)@.request(state, old(self).viewport().world_of(pointer)),
            request is Some <==> state == LevelState::Prelaunch,
            final(self)@.power <= old(self)@.power,
    {
        if state.is_prelaunch() {
            let at: WorldPos = self.viewport.to_world(pointer);
            let power: u32 = self.charge.power;
            self.charge = ChargeState { power: 0, aim: None };
            Some(LaunchRequest { power, aim_point: at })
        } else {
            None
        }
    }
}

} // verus!
