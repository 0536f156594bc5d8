//! The level state machine: it owns the session, the launch controller and
//! the live targets, and decides what each input does to them.

use vstd::prelude::*;
use crate::geometry::{ScreenPos, Viewport, WorldPos};
use crate::launch::{Indicator, LaunchController, LaunchRequest};
use crate::levels::LevelCatalog;
use crate::model::{
    first_aimed, impulse_of, lemma_setup, lemma_strike_concat, lemma_strike_live,
    lemma_strike_one,
    next_attempt, Command, GameSession, KeyInput, LevelModel, PointerInput, TickInput,
};
use crate::constants::{LAUNCH_FACTOR, UNIT};
use crate::physics::{
    lemma_first_strike_at, lemma_struck_concat, lemma_struck_one, strike_rank,
    struck, BodyId, ContactForceEvent, Impulse, LaunchOutcome,
};
use crate::plan::{setup_level, LevelPlan};
use crate::targets::TargetSet;
use crate::LevelState;

verus! {

/// What a tick's command keys led to.
#[derive(Debug)]
pub enum KeyOutcome {
    /// Nothing happened.
    Ignored,
    /// The level was restarted: destroy everything of the old attempt and
    /// create what the plan lists.
    Restarted(LevelPlan),
    /// The next level began: destroy everything of the old attempt and
    /// create what the plan lists.
    Advanced(LevelPlan),
    /// The campaign is over: return to the menu.
    QuitToMenu,
}

impl KeyOutcome {
    /// The command that was obeyed.
    pub open spec fn command(self) -> Command {
        match self {
            KeyOutcome::Ignored => Command::Nothing,
            KeyOutcome::Restarted(_) => Command::Restart,
            KeyOutcome::Advanced(_) => Command::Advance,
            KeyOutcome::QuitToMenu => Command::QuitToMenu,
        }
    }
}

/// What to do after the part of a tick that precedes the simulation step.
#[derive(Debug)]
pub struct TickActions {
    /// What the command keys led to.
    pub command: KeyOutcome,
    /// What to do to the ball.
    pub launch: LaunchOutcome,
}

/// What happened in the part of a tick that follows the simulation step.
#[derive(Debug)]
pub struct StepReport {
    /// The targets to remove from the simulation, in the order in which they
    /// were first struck.
    pub removed: Vec<BodyId>,
    /// The phase the level entered, if all its targets are gone.
    pub entered: Option<LevelState>,
}

/// The level state machine.
#[derive(Debug)]
pub struct LevelStateMachine {
    catalog: LevelCatalog,
    session: GameSession,
    launcher: LaunchController,
    attempt: u64,
    targets: TargetSet,
}

impl View for LevelStateMachine {
    type V = LevelModel;

    closed spec fn view(&self) -> LevelModel {
        LevelModel {
            levels: self.catalog@,
            viewport: self.launcher.viewport(),
            session: self.session,
            attempt: self.attempt,
            charge: self.launcher@,
            live: self.targets@,
        }
    }
}

impl LevelStateMachine {
    /// The stored target set matches the level being played.
    pub closed spec fn consistent(&self) -> bool {
        &&& self.targets.wf()
        &&& self.targets.total() == self@.level().targets@.len()
    }

    /// The machine is in a valid state.
    pub open spec fn wf(&self) -> bool {
        self.consistent() && self@.valid()
    }

    /// Starts a campaign: the first level is set up as attempt zero.
    pub fn new(catalog: LevelCatalog, viewport: Viewport) -> (machine: LevelStateMachine)
        requires
            catalog@.len() > 0,
        ensures
            machine.wf(),
            machine@ == LevelModel::fresh(catalog@, viewport, 0, 0),
            machine@.session.state == LevelState::Prelaunch,
            machine@.live.len() == catalog@[0].targets@.len(),
    {
        let max: usize = catalog.max_level_index();
        let count: usize = catalog.get(0).targets.len();
        let targets = TargetSet::full(count);
        let launcher = LaunchController::new(viewport);
        proof {
            lemma_setup(catalog@, viewport, 0, 0);
        }
        LevelStateMachine {
            catalog,
            session: GameSession {
                current_level_index: 0,
                state: LevelState::Prelaunch,
                max_level_index: max,
            },
            launcher,
            attempt: 0,
            targets,
        }
    }

    /// Sets up level `index` as the next attempt.
    fn begin_attempt(&mut self, index: usize)
        requires
            old(self).wf(),
            index <= old(self)@.session.max_level_index,
        ensures
            final(self).wf(),
            final(self)@ == LevelModel::fresh(
                old(self)@.levels,
                old(self)@.viewport,
                index,
                next_attempt(old(self)@.attempt),
            ),
    {
        let count: usize = self.catalog.get(index).targets.len();
        proof {
            lemma_setup(self@.levels, self@.viewport, index, next_attempt(self@.attempt));
        }
        self.targets = TargetSet::full(count);
        self.launcher.reset();
        self.session.current_level_index = index;
        self.session.state = LevelState::Prelaunch;
        self.attempt = if self.attempt == u64::MAX {
            0
        } else {
            self.attempt + 1
        };
    }

    /// Where the campaign stands.
    pub fn session(&self) -> (session: GameSession)
        ensures
            session == self@.session,
    {
        self.session
    }

    /// The phase of the current attempt.
    pub fn state(&self) -> (state: LevelState)
        ensures
            state == self@.session.state,
    {
        self.session.state
    }

    /// Whether the player may aim and charge.
    pub fn is_prelaunch(&self) -> (b: bool)
        ensures
            b == (self@.session.state == LevelState::Prelaunch),
    {
        self.session.state.is_prelaunch()
    }

    /// Whether the ball is in flight.
    pub fn is_launched(&self) -> (b: bool)
        ensures
            b == (self@.session.state == LevelState::Launched),
    {
        self.session.state.is_launched()
    }

    /// Number of the current attempt.
    pub fn attempt(&self) -> (attempt: u64)
        ensures
            attempt == self@.attempt,
    {
        self.attempt
    }

    /// The window the game is seen through.
    pub fn viewport(&self) -> (viewport: Viewport)
        ensures
            viewport == self@.viewport,
    {
        self.launcher.viewport_size()
    }

    /// Power built up by the gesture in progress.
    pub fn current_power(&self) -> (power: u32)
        ensures
            power == self@.charge.power,
    {
        self.launcher.current_power()
    }

    /// Current aim target, if a gesture is in progress.
    pub fn current_aim_point(&self) -> (aim: Option<WorldPos>)
        ensures
            aim == self@.charge.aim,
    {
        self.launcher.current_aim_point()
    }

    /// The power indicator to draw this tick, if any.
    pub fn indicator(&self) -> (shown: Option<Indicator>)
        requires
            self.wf(),
        ensures
            shown == self@.charge.indicator(),
    {
        self.launcher.indicator()
    }

    /// Number of targets still alive.
    pub fn live_target_count(&self) -> (n: usize)
        requires
            self.wf(),
        ensures
            n == self@.live.len(),
    {
        self.targets.len()
    }

    /// Whether `body` is a target that is still alive.
    pub fn is_live_target(&self, body: BodyId) -> (b: bool)
        ensures
            b == self@.is_live_target(body),
    {
        match body {
            BodyId::Target { attempt, index } => attempt == self.attempt && self.targets.contains(
                index,
            ),
            _ => false,
        }
    }

    /// Whether the engine is to report contact forces on the live targets:
    /// not before the ball is launched.
    pub fn targets_report(&self) -> (b: bool)
        ensures
            b == self@.targets_report(),
    {
        !self.session.state.is_prelaunch()
    }

    /// Whether `body` belongs to the current attempt and still exists.
    pub fn owns(&self, body: BodyId) -> (b: bool)
        requires
            self.wf(),
        ensures
            b == self@.owns(body),
    {
        match body {
            BodyId::Ground => false,
            BodyId::Ball { attempt } => attempt == self.attempt,
            BodyId::Block { attempt, index } => attempt == self.attempt && index
                < self.catalog.get(self.session.current_level_index).tower.len(),
            BodyId::Target { attempt, index } => attempt == self.attempt && self.targets.contains(
                index,
            ),
        }
    }

    /// The targets still alive, by ascending index.
    pub fn live_targets(&self) -> (bodies: Vec<BodyId>)
        requires
            self.wf(),
        ensures
            bodies@.len() == self@.live.len(),
            forall|body: BodyId| bodies@.contains(body) <==> self@.is_live_target(body),
            forall|a: int, b: int|
                0 <= a < b < bodies@.len() ==> bodies@[a]->Target_index
                    < bodies@[b]->Target_index,
    {
        let mut bodies: Vec<BodyId> = Vec::new();
        let total: usize = self.targets.capacity();
        let ghost live = self@.live;
        proof {
            assert(Set::new(|x: int| live.contains(x) && x < 0) =~= Set::<int>::empty());
        }
        let mut t: usize = 0;
        while t < total
            invariant
                t <= total,
                total == self.targets.total(),
                self.wf(),
                live == self@.live,
                Set::new(|x: int| live.contains(x) && x < t).finite(),
                bodies@.len() == Set::new(|x: int| live.contains(x) && x < t).len(),
                forall|a: int|
                    0 <= a < bodies@.len() ==> (#[trigger] bodies@[a]) is Target
                        && bodies@[a]->Target_index < t,
                forall|body: BodyId|
                    bodies@.contains(body) <==> self@.is_live_target(body)
                        && body->Target_index < t,
                forall|a: int, b: int|
                    0 <= a < b < bodies@.len() ==> bodies@[a]->Target_index
                        < bodies@[b]->Target_index,
            decreases total - t,
        {
            proof {
                // The live targets below `t + 1` are those below `t`, and `t`
                // itself if it is alive.
                let below = Set::new(|x: int| live.contains(x) && x < t);
                let next = Set::new(|x: int| live.contains(x) && x < t + 1);
                if live.contains(t as int) {
                    assert(next =~= below.insert(t as int));
                } else {
                    assert(next =~= below);
                }
            }
            if self.targets.contains(t) {
                let ghost earlier = bodies@;
                let body = BodyId::Target { attempt: self.attempt, index: t };
                bodies.push(body);
                proof {
                    assert forall|other: BodyId|
                        bodies@.contains(other) <==> earlier.contains(other) || other
                            == body by {
                        vstd::seq_lib::lemma_seq_contains_after_push(earlier, body, other);
                    }
                }
            }
            t = t + 1;
        }
        proof {
            assert(Set::new(|x: int| live.contains(x) && x < t) =~= live);
        }
        bodies
    }

    /// What the current attempt was set up from: the bodies to create when
    /// the attempt begins.
    pub fn plan(&self) -> (plan: LevelPlan)
        requires
            self.wf(),
        ensures
            plan@ == self@.plan(),
            plan@.targets.len() == self@.level().targets@.len(),
    {
        setup_level(
            self.catalog.get(self.session.current_level_index),
            self.session.current_level_index,
            self.session.max_level_index,
            self.attempt,
            self.launcher.viewport_size(),
        )
    }

    /// The pointer went down. Outside the aiming phase nothing happens.
    pub fn on_press_start(&mut self, pointer: ScreenPos)
        requires
            old(self).wf(),
        ensures
            final(self).wf(),
            final(self)@ == old(self)@.press(pointer),
            final(self)@.charge.power == old(self)@.charge.power,
    {
        self.launcher.on_press_start(self.session.state, pointer);
    }

    /// One tick with the pointer held. Outside the aiming phase nothing
    /// happens; in it the power grows by the charge rate up to the cap.
    pub fn on_held(&mut self, pointer: ScreenPos)
        requires
            old(self).wf(),
        ensures
            final(self).wf(),
            final(self)@ == old(self)@.hold(pointer),
            old(self)@.session.state != LevelState::Prelaunch ==> final(self)@ == old(self)@,
    {
        self.launcher.on_held(self.session.state, pointer);
    }

    /// The pointer went up. In the aiming phase exactly one launch request
    /// is emitted and the charge returns to idle; outside it nothing happens.
    pub fn on_release(&mut self, pointer: ScreenPos) -> (request: Option<LaunchRequest>)
        requires
            old(self).wf(),
        ensures
            final(self).wf(),
            final(self)@ == old(self)@.release(),
            request == old(self)@.request(pointer),
            request is Some <==> old(self)@.session.state == LevelState::Prelaunch,
    {
        self.launcher.on_release(self.session.state, pointer)
    }

    /// The gesture step of a tick: a press begins the gesture, holding
    /// charges it, a release emits the launch request.
    pub fn power_indicator(&mut self, input: PointerInput) -> (request: Option<LaunchRequest>)
        requires
            old(self).wf(),
        ensures
            final(self).wf(),
            final(self)@ == old(self)@.gesture(input),
            request == old(self)@.gesture_request(input),
            request is Some <==> input.just_released && old(self)@.session.state
                == LevelState::Prelaunch,
    {
        if input.just_pressed {
            self.on_press_start(input.position);
        }
        if input.pressed {
            self.on_held(input.position);
        }
        if input.just_released {
            self.on_release(input.position)
        } else {
            None
        }
    }

    /// Consumes one launch request. `ball` is the ball's position, or `None`
    /// if there is no ball. In the aiming phase, with a ball and an aim point
    /// away from it, the level moves to its launched phase and the impulse to
    /// apply is returned. In every other case the request is dropped and
    /// nothing changes.
    pub fn consume_launch(&mut self, request: LaunchRequest, ball: Option<WorldPos>) -> (impulse:
        Option<Impulse>)
        requires
            old(self).wf(),
        ensures
            final(self).wf(),
            final(self)@ == old(self)@.launch(request, ball),
            old(self)@.accepts(request, ball) ==> impulse == Some(
                impulse_of(request, ball.unwrap()),
            ) && final(self)@.session.state == LevelState::Launched,
            !old(self)@.accepts(request, ball) ==> impulse is None && final(self)@ == old(self)@,
            impulse matches Some(i) ==> i.magnitude == 2 * request.power && i.origin != i.toward,
            impulse is Some ==> final(self)@.targets_report(),
    {
        if !self.session.state.is_prelaunch() {
            return None;
        }
        match ball {
            None => None,
            Some(at) => {
                if request.aim_point == at {
                    None
                } else {
                    self.session.state = LevelState::Launched;
                    Some(make_impulse(request, at))
                }
            },
        }
    }

    /// The launch step of a tick. `requests` are the launch requests that
    /// arrived, in order, and `ball` is the ball's position, or `None` if
    /// there is no ball. Outside the aiming phase, or without a ball, nothing
    /// happens. Otherwise the first request that aims away from the ball
    /// launches it and the rest are dropped; if there is no such request the
    /// ball is to be held at rest.
    pub fn launch(&mut self, requests: &Vec<LaunchRequest>, ball: Option<WorldPos>) -> (outcome:
        LaunchOutcome)
        requires
            old(self).wf(),
        ensures
            final(self).wf(),
            final(self)@ == old(self)@.launch_all(requests@, ball),
            outcome == old(self)@.launch_outcome(requests@, ball),
            old(self)@.session.state != LevelState::Prelaunch ==> final(self)@ == old(self)@
                && outcome == LaunchOutcome::Ignored,
    {
        if !self.session.state.is_prelaunch() {
            return LaunchOutcome::Ignored;
        }
        match ball {
            None => LaunchOutcome::Ignored,
            Some(at) => {
                let mut i: usize = 0;
                while i < requests.len()
                    invariant
                        i <= requests@.len(),
                        *self == *old(self),
                        self.wf(),
                        self@.session.state == LevelState::Prelaunch,
                        ball == Some(at),
                        first_aimed(requests@, at, 0) == first_aimed(requests@, at, i as int),
                    decreases requests@.len() - i,
                {
                    let request: LaunchRequest = requests[i];
                    if request.aim_point != at {
                        self.session.state = LevelState::Launched;
                        return LaunchOutcome::Launched(make_impulse(request, at));
                    }
                    i = i + 1;
                }
                LaunchOutcome::Rest
            },
        }
    }

    /// Removes `body` from the live targets if it is one, and says whether
    /// it was.
    fn remove_target(&mut self, body: BodyId) -> (was_live: bool)
        requires
            old(self).wf(),
        ensures
            final(self).wf(),
            final(self)@ == old(self)@.without(body),
            was_live == old(self)@.is_live_target(body),
            final(self)@.live.len() == old(self)@.live.len() - if was_live {
                1int
            } else {
                0int
            },
    {
        match body {
            BodyId::Target { attempt, index } => {
                if attempt == self.attempt {
                    self.targets.remove(index)
                } else {
                    false
                }
            },
            _ => false,
        }
    }

    /// Consumes one contact-force event. In the launched phase, if the force
    /// is above the threshold, each of the two bodies in contact that is a
    /// live target is removed and returned, the first body first. In every
    /// other case nothing happens.
    pub fn on_contact(&mut self, event: ContactForceEvent) -> (removed: Vec<BodyId>)
        requires
            old(self).wf(),
        ensures
            final(self).wf(),
            final(self)@ == old(self)@.strike(seq![event]),
            removed@ == old(self)@.casualties(event),
            final(self)@.live.len() == old(self)@.live.len() - removed@.len(),
            forall|k: int| 0 <= k < removed@.len() ==> !final(self)@.is_live_target(removed@[k]),
    {
        let mut removed: Vec<BodyId> = Vec::new();
        if self.session.state.is_launched() {
            proof {
                lemma_strike_one(self@, event);
            }
            if event.is_forceful() {
                if self.remove_target(event.body_a) {
                    removed.push(event.body_a);
                }
                if self.remove_target(event.body_b) {
                    removed.push(event.body_b);
                }
            }
            proof {
                assert(removed@ =~= old(self)@.casualties(event));
            }
        }
        removed
    }

    /// The contact step of a tick. `events` are the contact-force events of
    /// the last simulation step, in order. In the launched phase every live
    /// target that takes part in a contact with a force above the threshold
    /// is removed, once, however many events name it. The removed targets are
    /// returned in the order in which they were first struck; of two struck
    /// by the same event the first body of the pair comes first. In any other
    /// phase nothing happens.
    pub fn target_collisions(&mut self, events: &Vec<ContactForceEvent>) -> (removed: Vec<BodyId>)
        requires
            old(self).wf(),
        ensures
            final(self).wf(),
            final(self)@ == old(self)@.strike(events@),
            removed@.no_duplicates(),
            forall|body: BodyId|
                removed@.contains(body) <==> old(self)@.session.state == LevelState::Launched
                    && old(self)@.is_live_target(body) && struck(events@, body),
            forall|a: int, b: int|
                0 <= a < b < removed@.len() ==> strike_rank(events@, removed@[a]) < strike_rank(
                    events@,
                    removed@[b],
                ),
            final(self)@.live.len() == old(self)@.live.len() - removed@.len(),
    {
        let mut removed: Vec<BodyId> = Vec::new();
        let ghost before = self@;
        let ghost launched = before.session.state == LevelState::Launched;
        proof {
            assert(before.strike(events@.take(0)).live =~= before.live);
        }
        let mut i: usize = 0;
        while i < events.len()
            invariant
                i <= events@.len(),
                before == old(self)@,
                before.valid(),
                launched == (before.session.state == LevelState::Launched),
                self.wf(),
                self@ == before.strike(events@.take(i as int)),
                self@.live.len() == before.live.len() - removed@.len(),
                removed@.no_duplicates(),
                forall|body: BodyId|
                    #![trigger removed@.contains(body)]
                    #![trigger struck(events@.take(i as int), body)]
                    removed@.contains(body) <==> launched && before.is_live_target(body) && struck(
                        events@.take(i as int),
                        body,
                    ),
                forall|a: int|
                    0 <= a < removed@.len() ==> strike_rank(events@, #[trigger] removed@[a]) < 2
                        * i,
                forall|a: int, b: int|
                    0 <= a < b < removed@.len() ==> strike_rank(events@, removed@[a])
                        < strike_rank(events@, removed@[b]),
            decreases events@.len() - i,
        {
            let event: ContactForceEvent = events[i];
            let ghost seen = events@.take(i as int);
            let ghost next = events@.take(i + 1);
            let ghost earlier = removed@;
            let ghost current = self@;
            proof {
                // One more event: the batch seen so far, then this event alone.
                assert(next =~= seen + seq![event]);
                lemma_strike_concat(before, seen, seq![event]);
                assert forall|body: BodyId|
                    struck(next, body) <==> struck(seen, body) || event.destroys(body) by {
                    lemma_struck_concat(seen, seq![event], body);
                    lemma_struck_one(event, body);
                }
                if launched {
                    lemma_strike_live(before, seen, event.body_a);
                    lemma_strike_live(before, seen, event.body_b);
                }
            }
            let mut hits = self.on_contact(event);
            let ghost fallen = hits@;
            proof {
                // Whatever falls now was alive at the start and is struck here
                // for the first time.
                assert forall|k: int| 0 <= k < fallen.len() implies {
                    &&& launched
                    &&& before.is_live_target(#[trigger] fallen[k])
                    &&& !struck(seen, fallen[k])
                    &&& event.destroys(fallen[k])
                    &&& strike_rank(events@, fallen[k]) == if fallen[k] == event.body_a {
                        2 * i
                    } else {
                        2 * i + 1
                    }
                } by {
                    let body = fallen[k];
                    assert forall|j: int| 0 <= j < i implies !(#[trigger] events@[j]).destroys(
                        body,
                    ) by {
                        assert(seen[j] == events@[j]);
                    }
                    lemma_first_strike_at(events@, body, 0, i as int);
                }
            }
            removed.append(&mut hits);
            proof {
                // The list holds exactly the targets struck so far.
                assert forall|other: BodyId|
                    removed@.contains(other) <==> launched && before.is_live_target(other)
                        && struck(next, other) by {
                    let was = earlier.contains(other);
                    assert(was <==> launched && before.is_live_target(other) && struck(
                        seen,
                        other,
                    ));
                    if removed@.contains(other) && !was {
                        let k = choose|k: int| 0 <= k < removed@.len() && removed@[k] == other;
                        if k < earlier.len() {
                            assert(earlier[k] == other);
                        } else {
                            assert(fallen[k - earlier.len()] == other);
                        }
                    }
                    if was {
                        let k = choose|k: int| 0 <= k < earlier.len() && earlier[k] == other;
                        assert(removed@[k] == other);
                    }
                    if launched && before.is_live_target(other) && !struck(seen, other)
                        && event.destroys(other) {
                        if other == event.body_a {
                            assert(fallen[0] == other);
                            assert(removed@[earlier.len() as int] == other);
                        } else {
                            let last = fallen.len() - 1;
                            assert(fallen[last] == other);
                            assert(removed@[earlier.len() + last] == other);
                        }
                    }
                }
                // The new entries rank after the old ones, the first body first.
                assert forall|a: int|
                    0 <= a < removed@.len() implies strike_rank(events@, #[trigger] removed@[a]) < 2
                    * (i + 1) by {
                    if a >= earlier.len() {
                        assert(removed@[a] == fallen[a - earlier.len()]);
                    }
                }
                assert forall|a: int, b: int| 0 <= a < b < removed@.len() implies strike_rank(
                    events@,
                    removed@[a],
                ) < strike_rank(events@, removed@[b]) by {
                    if a >= earlier.len() {
                        assert(removed@[a] == fallen[a - earlier.len()]);
                    }
                    if b >= earlier.len() {
                        assert(removed@[b] == fallen[b - earlier.len()]);
                    }
                }
            }
            i = i + 1;
        }
        proof {
            assert(events@.take(i as int) =~= events@);
        }
        removed
    }

    /// The completion step of a tick. In the launched phase with no target
    /// left the level becomes complete, or the campaign if this was its last
    /// level, and the new phase is returned. Otherwise nothing happens.
    pub fn level_complete(&mut self) -> (entered: Option<LevelState>)
        requires
            old(self).wf(),
        ensures
            final(self).wf(),
            final(self)@ == old(self)@.complete(),
            entered is Some <==> old(self)@.session.state == LevelState::Launched
                && old(self)@.live.len() == 0,
            entered matches Some(state) ==> state == final(self)@.session.state && state == (
            if old(self)@.session.current_level_index < old(self)@.session.max_level_index {
                LevelState::Complete
            } else {
                LevelState::CampaignComplete
            }),
    {
        if self.session.state.is_launched() && self.targets.is_empty() {
            let state: LevelState = if self.session.current_level_index
                == self.session.max_level_index {
                LevelState::CampaignComplete
            } else {
                LevelState::Complete
            };
            self.session.state = state;
            Some(state)
        } else {
            None
        }
    }

    /// The restart command. In every phase but the end of the campaign the
    /// current level is set up again as a new attempt, with the charge back
    /// at zero and every target alive, and the plan of the new attempt is
    /// returned; everything of the old attempt is to be destroyed. At the end
    /// of the campaign nothing happens.
    pub fn restart(&mut self) -> (plan: Option<LevelPlan>)
        requires
            old(self).wf(),
        ensures
            final(self).wf(),
            final(self)@ == old(self)@.restart(),
            plan is Some <==> old(self)@.can_restart(),
            plan matches Some(p) ==> p@ == final(self)@.plan(),
            !old(self)@.can_restart() ==> final(self)@ == old(self)@,
            old(self)@.can_restart() ==> {
                &&& final(self)@.session.state == LevelState::Prelaunch
                &&& final(self)@.session.current_level_index
                    == old(self)@.session.current_level_index
                &&& final(self)@.charge.power == 0
                &&& final(self)@.live.len() == old(self)@.level().targets@.len()
                &&& final(self)@.attempt != old(self)@.attempt
            },
    {
        if self.session.state == LevelState::CampaignComplete {
            return None;
        }
        proof {
            lemma_setup(
                self@.levels,
                self@.viewport,
                self@.session.current_level_index,
                next_attempt(self@.attempt),
            );
        }
        self.begin_attempt(self.session.current_level_index);
        Some(self.plan())
    }

    /// The advance command. When the level is complete and another follows,
    /// that level is set up as a new attempt and its plan is returned;
    /// everything of the old attempt is to be destroyed. Otherwise nothing
    /// happens.
    pub fn advance(&mut self) -> (plan: Option<LevelPlan>)
        requires
            old(self).wf(),
        ensures
            final(self).wf(),
            final(self)@ == old(self)@.advance(),
            plan is Some <==> old(self)@.can_advance(),
            plan matches Some(p) ==> p@ == final(self)@.plan(),
            !old(self)@.can_advance() ==> final(self)@ == old(self)@,
            old(self)@.can_advance() ==> {
                &&& final(self)@.session.state == LevelState::Prelaunch
                &&& final(self)@.session.current_level_index
                    == old(self)@.session.current_level_index + 1
                &&& final(self)@.charge.power == 0
                &&& final(self)@.live.len() == final(self)@.level().targets@.len()
                &&& final(self)@.attempt != old(self)@.attempt
            },
    {
        if self.session.state == LevelState::Complete && self.session.current_level_index
            < self.session.max_level_index {
            proof {
                lemma_setup(
                    self@.levels,
                    self@.viewport,
                    (self@.session.current_level_index + 1) as usize,
                    next_attempt(self@.attempt),
                );
            }
            self.begin_attempt(self.session.current_level_index + 1);
            Some(self.plan())
        } else {
            None
        }
    }

    /// The command step of a tick: obeys the command that the keys amount to.
    /// Restart is honoured in every phase but the end of the campaign, advance
    /// only when the level is complete and another follows, quit only at the end
    /// of the campaign; restart goes before advance and advance before quit.
    pub fn keyboard_listener(&mut self, keys: KeyInput) -> (outcome: KeyOutcome)
        requires
            old(self).wf(),
        ensures
            final(self).wf(),
            outcome.command() == old(self)@.chosen(keys),
            final(self)@ == old(self)@.obey(old(self)@.chosen(keys)),
            outcome matches KeyOutcome::Restarted(plan) ==> plan@ == final(self)@.plan(),
            outcome matches KeyOutcome::Advanced(plan) ==> plan@ == final(self)@.plan(),
            outcome is Restarted || outcome is Advanced ==> {
                &&& final(self)@.session.state == LevelState::Prelaunch
                &&& final(self)@.charge.power == 0
                &&& final(self)@.live.len() == final(self)@.level().targets@.len()
                &&& final(self)@.attempt != old(self)@.attempt
            },
    {
        if keys.restart && self.state() != LevelState::CampaignComplete {
            match self.restart() {
                Some(plan) => KeyOutcome::Restarted(plan),
                None => KeyOutcome::Ignored,
            }
        } else if keys.advance && self.can_advance() {
            match self.advance() {
                Some(plan) => KeyOutcome::Advanced(plan),
                None => KeyOutcome::Ignored,
            }
        } else if keys.quit && self.quit_to_menu() {
            KeyOutcome::QuitToMenu
        } else {
            KeyOutcome::Ignored
        }
    }

    /// The part of a tick before the simulation step: the command keys are
    /// obeyed, then the gesture is followed, then the launch request that the
    /// gesture emitted, if any, is consumed. After a restart or an advance in
    /// this tick the ball counts as absent, since the new one does not exist
    /// yet.
    pub fn before_physics(&mut self, input: TickInput) -> (actions: TickActions)
        requires
            old(self).wf(),
        ensures
            final(self).wf(),
            final(self)@ == old(self)@.before_physics(input),
            actions.command.command() == old(self)@.chosen(input.keys),
            actions.command matches KeyOutcome::Restarted(plan) ==> plan@ == old(self)@.restart().plan(),
            actions.command matches KeyOutcome::Advanced(plan) ==> plan@ == old(self)@.advance().plan(),
            actions.launch == old(self)@.launch_of(input),
    {
        let command = self.keyboard_listener(input.keys);
        let fresh: bool = match command {
            KeyOutcome::Restarted(_) => true,
            KeyOutcome::Advanced(_) => true,
            _ => false,
        };
        let mut requests: Vec<LaunchRequest> = Vec::new();
        if let Some(pointer) = input.pointer {
            if let Some(request) = self.power_indicator(pointer) {
                requests.push(request);
            }
        }
        proof {
            assert(requests@ =~= old(self)@.emitted(input));
        }
        let ball: Option<WorldPos> = if fresh {
            None
        } else {
            input.ball
        };
        let launch = self.launch(&requests, ball);
        TickActions { command, launch }
    }

    /// The part of a tick after the simulation step: the contact events of
    /// the step are consumed, then completion is checked. When the last live
    /// target of a launched level goes, the level is complete, or the
    /// campaign if this was its last level.
    pub fn after_physics(&mut self, events: &Vec<ContactForceEvent>) -> (report: StepReport)
        requires
            old(self).wf(),
        ensures
            final(self).wf(),
            final(self)@ == old(self)@.after_physics(events@),
            report.removed@.no_duplicates(),
            forall|body: BodyId|
                report.removed@.contains(body) <==> old(self)@.session.state
                    == LevelState::Launched && old(self)@.is_live_target(body) && struck(
                    events@,
                    body,
                ),
            forall|a: int, b: int|
                0 <= a < b < report.removed@.len() ==> strike_rank(events@, report.removed@[a])
                    < strike_rank(events@, report.removed@[b]),
            final(self)@.live.len() == old(self)@.live.len() - report.removed@.len(),
            report.entered is Some <==> old(self)@.session.state == LevelState::Launched
                && old(self)@.live.len() == report.removed@.len(),
            report.entered matches Some(state) ==> state == final(self)@.session.state && state
                == old(self)@.finished_state(),
    {
        let removed = self.target_collisions(events);
        let entered = self.level_complete();
        StepReport { removed, entered }
    }

    /// Whether an advance command is honoured: the level is complete and
    /// another one follows.
    pub fn can_advance(&self) -> (accepted: bool)
        ensures
            accepted == self@.can_advance(),
    {
        self.session.state == LevelState::Complete && self.session.current_level_index
            < self.session.max_level_index
    }

    /// Whether a quit-to-menu command is honoured: only once the campaign is
    /// complete.
    pub fn quit_to_menu(&self) -> (accepted: bool)
        ensures
            accepted == self@.can_quit(),
    {
        self.session.state == LevelState::CampaignComplete
    }
}

/// Builds the impulse for a request aimed away from the ball.
fn make_impulse(request: LaunchRequest, ball: WorldPos) -> (impulse: Impulse)
    ensures
        impulse == impulse_of(request, ball),
        impulse.magnitude == 2 * request.power,
{
    assert(request.power * LAUNCH_FACTOR == 2_000 * request.power) by (nonlinear_arith)
        requires
            LAUNCH_FACTOR == 2_000,
    ;
    let scaled: u64 = request.power as u64 * LAUNCH_FACTOR as u64;
    let magnitude: u64 = scaled / UNIT as u64;
    assert(scaled / (UNIT as u64) == 2 * request.power) by (nonlinear_arith)
        requires
            scaled == 2_000 * request.power,
            UNIT == 1_000,
    ;
    Impulse { origin: ball, toward: request.aim_point, magnitude }
}

} // verus!
