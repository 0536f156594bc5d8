//! The level state machine as mathematics: its state, its transitions, and
//! what holds of them.

use vstd::prelude::*;
use vstd::set_lib::{lemma_int_range, set_int_range};
use crate::constants::{CHARGE_RATE, LAUNCH_FACTOR, POWER_CAP, TARGET_FORCE_THRESH, UNIT};
use crate::geometry::{ScreenPos, Viewport, WorldPos};
use crate::launch::{ChargeState, LaunchRequest};
use crate::levels::LevelData;
use crate::physics::{
    lemma_struck_concat, lemma_struck_one, struck, BodyId, ContactForceEvent, Impulse,
    LaunchOutcome,
};
use crate::plan::{plan_of, LevelPlanView};
use crate::LevelState;

verus! {

/// Where the campaign stands.
#[derive(Clone, Copy, Debug, PartialEq, Eq, Structural)]
pub struct GameSession {
    /// The level being played.
    pub current_level_index: usize,
    /// The phase of the current attempt.
    pub state: LevelState,
    /// The last level of the campaign.
    pub max_level_index: usize,
}

/// The state of the launch gesture in one tick.
#[derive(Clone, Copy, Debug, PartialEq, Eq, Structural)]
pub struct PointerInput {
    /// The button went down this tick.
    pub just_pressed: bool,
    /// The button is down.
    pub pressed: bool,
    /// The button went up this tick.
    pub just_released: bool,
    /// Where the pointer is.
    pub position: ScreenPos,
}

/// The command keys that went down in one tick.
#[derive(Clone, Copy, Debug, PartialEq, Eq, Structural)]
pub struct KeyInput {
    pub restart: bool,
    pub advance: bool,
    pub quit: bool,
}

/// What the core is told before the simulation step of a tick.
#[derive(Clone, Copy, Debug, PartialEq, Eq, Structural)]
pub struct TickInput {
    pub keys: KeyInput,
    /// The launch gesture, if the pointer is over the window.
    pub pointer: Option<PointerInput>,
    /// Where the ball is, if there is one.
    pub ball: Option<WorldPos>,
}

/// The command that a tick's keys amount to.
#[derive(Clone, Copy, Debug, PartialEq, Eq, Structural)]
pub enum Command {
    /// No key was pressed, or none that the current phase honours.
    Nothing,
    Restart,
    Advance,
    QuitToMenu,
}

/// The whole state of the game core.
#[verifier::ext_equal]
pub struct LevelModel {
    /// The campaign's levels, in order.
    pub levels: Seq<LevelData>,
    pub viewport: Viewport,
    pub session: GameSession,
    /// Number of the current attempt.
    pub attempt: u64,
    pub charge: ChargeState,
    /// Indices of the targets still alive.
    pub live: Set<int>,
}

/// The number of the attempt after `attempt`. It differs from `attempt` even
/// when the numbers run out and start over.
pub open spec fn next_attempt(attempt: u64) -> u64 {
    if attempt == u64::MAX {
        0
    } else {
        (attempt + 1) as u64
    }
}

/// The impulse a request gives a ball at `ball`: the power times the launch
/// factor, directed from the ball to the aim point.
pub open spec fn impulse_of(request: LaunchRequest, ball: WorldPos) -> Impulse {
    Impulse {
        origin: ball,
        toward: request.aim_point,
        magnitude: (request.power * LAUNCH_FACTOR / (UNIT as int)) as u64,
    }
}

/// Position, at or after `from`, of the first request that aims somewhere
/// other than at `ball` itself; the number of requests if there is none.
pub open spec fn first_aimed(requests: Seq<LaunchRequest>, ball: WorldPos, from: int) -> int
    decreases requests.len() - from,
{
    if from < 0 || from >= requests.len() {
        requests.len() as int
    } else if requests[from].aim_point != ball {
        from
    } else {
        first_aimed(requests, ball, from + 1)
    }
}

impl LevelModel {
    /// What every reachable state satisfies.
    pub open spec fn valid(self) -> bool {
        &&& self.levels.len() > 0
        &&& self.session.max_level_index + 1 == self.levels.len()
        &&& self.session.current_level_index <= self.session.max_level_index
        &&& self.session.state == LevelState::Complete ==> self.session.current_level_index
            < self.session.max_level_index
        &&& self.session.state == LevelState::CampaignComplete
            ==> self.session.current_level_index == self.session.max_level_index
        &&& (self.session.state == LevelState::Complete || self.session.state
            == LevelState::CampaignComplete) ==> self.live.is_empty()
        &&& self.charge.power <= POWER_CAP
        &&& self.live.finite()
        &&& forall|t: int| self.live.contains(t) ==> 0 <= t < self.level().targets.len()
    }

    /// The definition of the level being played.
    pub open spec fn level(self) -> LevelData {
        self.levels[self.session.current_level_index as int]
    }

    /// The body of target `t` in the current attempt.
    pub open spec fn target_body(self, t: int) -> BodyId {
        BodyId::Target { attempt: self.attempt, index: t as usize }
    }

    /// Whether `body` is a target that is still alive.
    pub open spec fn is_live_target(self, body: BodyId) -> bool {
        body matches BodyId::Target { attempt, index } && attempt == self.attempt
            && self.live.contains(index as int)
    }

    /// Whether the engine is to report contact forces on the live targets.
    /// It is not until the ball is launched, so that a tower settling on its
    /// targets destroys none.
    pub open spec fn targets_report(self) -> bool {
        self.session.state != LevelState::Prelaunch
    }

    /// Whether `body` belongs to the current attempt and still exists: its
    /// ball, its blocks, and its live targets.
    pub open spec fn owns(self, body: BodyId) -> bool {
        match body {
            BodyId::Ground => false,
            BodyId::Ball { attempt } => attempt == self.attempt,
            BodyId::Block { attempt, index } => attempt == self.attempt && index
                < self.level().tower.len(),
            BodyId::Target { attempt, index } => attempt == self.attempt && self.live.contains(
                index as int,
            ),
        }
    }

    /// The state right after level `index` is set up as attempt `attempt`:
    /// aiming phase, no charge, every target alive.
    pub open spec fn fresh(
        levels: Seq<LevelData>,
        viewport: Viewport,
        index: usize,
        attempt: u64,
    ) -> LevelModel {
        LevelModel {
            levels,
            viewport,
            session: GameSession {
                current_level_index: index,
                state: LevelState::Prelaunch,
                max_level_index: (levels.len() - 1) as usize,
            },
            attempt,
            charge: ChargeState::idle(),
            live: set_int_range(0, levels[index as int].targets.len() as int),
        }
    }

    /// What the current attempt was set up from.
    pub open spec fn plan(self) -> LevelPlanView {
        plan_of(
            self.level(),
            self.session.current_level_index,
            self.session.max_level_index,
            self.attempt,
            self.viewport,
        )
    }

    /// The pointer goes down.
    pub open spec fn press(self, pointer: ScreenPos) -> LevelModel {
        LevelModel {
            charge: self.charge.pressed(self.session.state, self.viewport.world_of(pointer)),
            ..self
        }
    }

    /// The pointer is held for a tick.
    pub open spec fn hold(self, pointer: ScreenPos) -> LevelModel {
        LevelModel {
            charge: self.charge.held(self.session.state, self.viewport.world_of(pointer)),
            ..self
        }
    }

    /// The pointer goes up.
    pub open spec fn release(self) -> LevelModel {
        LevelModel { charge: self.charge.released(self.session.state), ..self }
    }

    /// The request that a release at `pointer` emits, if any.
    pub open spec fn request(self, pointer: ScreenPos) -> Option<LaunchRequest> {
        self.charge.request(self.session.state, self.viewport.world_of(pointer))
    }

    /// The state before the release of the gesture step of a tick: a press
    /// first, then a tick of holding.
    pub open spec fn charged(self, input: PointerInput) -> LevelModel {
        let pressed = if input.just_pressed {
            self.press(input.position)
        } else {
            self
        };
        if input.pressed {
            pressed.hold(input.position)
        } else {
            pressed
        }
    }

    /// The gesture step of a tick: press, hold, release, each if the input
    /// says so.
    pub open spec fn gesture(self, input: PointerInput) -> LevelModel {
        if input.just_released {
            self.charged(input).release()
        } else {
            self.charged(input)
        }
    }

    /// The request that the gesture step of a tick emits, if any.
    pub open spec fn gesture_request(self, input: PointerInput) -> Option<LaunchRequest> {
        if input.just_released {
            self.charged(input).request(input.position)
        } else {
            None
        }
    }

    /// Whether a request would launch the ball: the level is in its aiming
    /// phase, there is a ball, and the aim point is not the ball's own
    /// position.
    pub open spec fn accepts(self, request: LaunchRequest, ball: Option<WorldPos>) -> bool {
        &&& self.session.state == LevelState::Prelaunch
        &&& ball matches Some(at)
        &&& request.aim_point != at
    }

    /// The state with the level in its launched phase.
    pub open spec fn launched(self) -> LevelModel {
        LevelModel { session: GameSession { state: LevelState::Launched, ..self.session }, ..self }
    }

    /// A launch request is consumed. An accepted one moves the level to its
    /// launched phase; any other changes nothing.
    pub open spec fn launch(self, request: LaunchRequest, ball: Option<WorldPos>) -> LevelModel {
        if self.accepts(request, ball) {
            self.launched()
        } else {
            self
        }
    }

    /// What the launch step of a tick does to the ball, given the requests
    /// that arrived, in order. Outside the aiming phase, or without a ball,
    /// the ball is left alone. Otherwise the first request that aims away
    /// from the ball launches it; with no such request it is held at rest.
    pub open spec fn launch_outcome(
        self,
        requests: Seq<LaunchRequest>,
        ball: Option<WorldPos>,
    ) -> LaunchOutcome {
        if self.session.state != LevelState::Prelaunch {
            LaunchOutcome::Ignored
        } else {
            match ball {
                None => LaunchOutcome::Ignored,
                Some(at) => {
                    let k = first_aimed(requests, at, 0);
                    if k < requests.len() {
                        LaunchOutcome::Launched(impulse_of(requests[k], at))
                    } else {
                        LaunchOutcome::Rest
                    }
                },
            }
        }
    }

    /// The launch step of a tick: the level moves to its launched phase
    /// exactly if the ball is launched.
    pub open spec fn launch_all(
        self,
        requests: Seq<LaunchRequest>,
        ball: Option<WorldPos>,
    ) -> LevelModel {
        if self.launch_outcome(requests, ball) is Launched {
            self.launched()
        } else {
            self
        }
    }

    /// The live targets that `event` removes, in the order of the pair: none
    /// unless the level is in its launched phase and the force is above the
    /// threshold; else each of the two bodies that is a live target, once.
    pub open spec fn casualties(self, event: ContactForceEvent) -> Seq<BodyId> {
        if self.session.state == LevelState::Launched && event.force > TARGET_FORCE_THRESH {
            let first = if self.is_live_target(event.body_a) {
                seq![event.body_a]
            } else {
                seq![]
            };
            if self.is_live_target(event.body_b) && event.body_b != event.body_a {
                first.push(event.body_b)
            } else {
                first
            }
        } else {
            seq![]
        }
    }

    /// The state with target `body` gone, if it was a live target.
    pub open spec fn without(self, body: BodyId) -> LevelModel {
        if self.is_live_target(body) {
            LevelModel { live: self.live.remove(body->Target_index as int), ..self }
        } else {
            self
        }
    }

    /// A batch of contact events is consumed. In the launched phase every
    /// live target that some event destroys is gone; in any other phase
    /// nothing changes.
    pub open spec fn strike(self, events: Seq<ContactForceEvent>) -> LevelModel {
        if self.session.state == LevelState::Launched {
            LevelModel {
                live: Set::new(
                    |t: int| self.live.contains(t) && !struck(events, self.target_body(t)),
                ),
                ..self
            }
        } else {
            self
        }
    }

    /// The phase that follows the launched phase once no target is left.
    pub open spec fn finished_state(self) -> LevelState {
        if self.session.current_level_index < self.session.max_level_index {
            LevelState::Complete
        } else {
            LevelState::CampaignComplete
        }
    }

    /// The completion check. In the launched phase with no target left the
    /// level, or the campaign, is complete; otherwise nothing changes.
    pub open spec fn complete(self) -> LevelModel {
        if self.session.state == LevelState::Launched && self.live.is_empty() {
            LevelModel {
                session: GameSession { state: self.finished_state(), ..self.session },
                ..self
            }
        } else {
            self
        }
    }

    /// Whether a restart is honoured: in every phase but the end of the
    /// campaign.
    pub open spec fn can_restart(self) -> bool {
        self.session.state != LevelState::CampaignComplete
    }

    /// The restart command: the current level is set up again as a new
    /// attempt.
    pub open spec fn restart(self) -> LevelModel {
        if self.can_restart() {
            Self::fresh(
                self.levels,
                self.viewport,
                self.session.current_level_index,
                next_attempt(self.attempt),
            )
        } else {
            self
        }
    }

    /// Whether an advance is honoured: the level is complete and another
    /// one follows.
    pub open spec fn can_advance(self) -> bool {
        &&& self.session.state == LevelState::Complete
        &&& self.session.current_level_index < self.session.max_level_index
    }

    /// The advance command: the next level is set up as a new attempt.
    pub open spec fn advance(self) -> LevelModel {
        if self.can_advance() {
            Self::fresh(
                self.levels,
                self.viewport,
                (self.session.current_level_index + 1) as usize,
                next_attempt(self.attempt),
            )
        } else {
            self
        }
    }

    /// Whether quitting to the menu is honoured: only once the campaign is
    /// complete.
    pub open spec fn can_quit(self) -> bool {
        self.session.state == LevelState::CampaignComplete
    }

    /// The command that a tick's keys amount to. A key that the current
    /// phase does not honour is ignored; of several honoured keys, restart
    /// goes before advance and advance before quit.
    pub open spec fn chosen(self, keys: KeyInput) -> Command {
        if keys.restart && self.can_restart() {
            Command::Restart
        } else if keys.advance && self.can_advance() {
            Command::Advance
        } else if keys.quit && self.can_quit() {
            Command::QuitToMenu
        } else {
            Command::Nothing
        }
    }

    /// The state after a command.
    pub open spec fn obey(self, command: Command) -> LevelModel {
        match command {
            Command::Restart => self.restart(),
            Command::Advance => self.advance(),
            Command::QuitToMenu => self,
            Command::Nothing => self,
        }
    }

    /// The state of a tick once its command and its gesture are dealt with.
    pub open spec fn aimed(self, input: TickInput) -> LevelModel {
        let commanded = self.obey(self.chosen(input.keys));
        match input.pointer {
            Some(pointer) => commanded.gesture(pointer),
            None => commanded,
        }
    }

    /// The launch requests that a tick's gesture emits: one or none.
    pub open spec fn emitted(self, input: TickInput) -> Seq<LaunchRequest> {
        let commanded = self.obey(self.chosen(input.keys));
        match input.pointer {
            Some(pointer) => match commanded.gesture_request(pointer) {
                Some(request) => seq![request],
                None => seq![],
            },
            None => seq![],
        }
    }

    /// The ball as the launch step of a tick sees it. Right after a restart
    /// or an advance the ball of the new attempt does not exist yet.
    pub open spec fn ball_seen(self, input: TickInput) -> Option<WorldPos> {
        if self.chosen(input.keys) == Command::Restart || self.chosen(input.keys)
            == Command::Advance {
            None
        } else {
            input.ball
        }
    }

    /// The part of a tick before the simulation step, in order: the command
    /// keys, the gesture, the launch.
    pub open spec fn before_physics(self, input: TickInput) -> LevelModel {
        self.aimed(input).launch_all(self.emitted(input), self.ball_seen(input))
    }

    /// What the part of a tick before the simulation step does to the ball.
    pub open spec fn launch_of(self, input: TickInput) -> LaunchOutcome {
        self.aimed(input).launch_outcome(self.emitted(input), self.ball_seen(input))
    }

    /// The part of a tick after the simulation step, in order: the contact
    /// events, the completion check.
    pub open spec fn after_physics(self, events: Seq<ContactForceEvent>) -> LevelModel {
        self.strike(events).complete()
    }
}

/// Setting up any level of a campaign gives a valid state in the aiming
/// phase with no charge and as many live targets as the level defines.
pub proof fn lemma_setup(levels: Seq<LevelData>, viewport: Viewport, index: usize, attempt: u64)
    requires
        index < levels.len(),
        levels.len() - 1 <= usize::MAX,
    ensures
        LevelModel::fresh(levels, viewport, index, attempt).valid(),
        LevelModel::fresh(levels, viewport, index, attempt).session.state == LevelState::Prelaunch,
        LevelModel::fresh(levels, viewport, index, attempt).charge.power == 0,
        LevelModel::fresh(levels, viewport, index, attempt).live.len()
            == levels[index as int].targets@.len(),
{
    lemma_int_range(0, levels[index as int].targets.len() as int);
}

/// Every transition takes a valid state to a valid state.
pub proof fn lemma_valid_is_kept(
    m: LevelModel,
    input: PointerInput,
    request: LaunchRequest,
    requests: Seq<LaunchRequest>,
    ball: Option<WorldPos>,
    events: Seq<ContactForceEvent>,
    command: Command,
)
    requires
        m.valid(),
    ensures
        m.press(input.position).valid(),
        m.hold(input.position).valid(),
        m.release().valid(),
        m.gesture(input).valid(),
        m.launch(request, ball).valid(),
        m.launch_all(requests, ball).valid(),
        m.strike(events).valid(),
        m.complete().valid(),
        m.restart().valid(),
        m.advance().valid(),
        m.obey(command).valid(),
{
    assert(m.strike(events).live.subset_of(m.live));
    vstd::set_lib::lemma_len_subset(m.strike(events).live, m.live);
    lemma_setup(m.levels, m.viewport, m.session.current_level_index, next_attempt(m.attempt));
    if m.can_advance() {
        lemma_setup(
            m.levels,
            m.viewport,
            (m.session.current_level_index + 1) as usize,
            next_attempt(m.attempt),
        );
    }
}

/// The power changes only in the aiming phase: holding raises it by the
/// charge rate up to the cap, a release zeroes it, and nothing else touches
/// it. It never grows while the level is in another phase.
pub proof fn lemma_power(m: LevelModel, pointer: ScreenPos)
    requires
        m.valid(),
    ensures
        m.press(pointer).charge.power == m.charge.power,
        m.release().charge.power <= m.charge.power,
        m.session.state == LevelState::Prelaunch ==> m.release().charge.power == 0,
        m.session.state != LevelState::Prelaunch ==> m.hold(pointer) == m && m.press(pointer) == m
            && m.release() == m,
        m.session.state == LevelState::Prelaunch ==> m.hold(pointer).charge.power == if m.charge.power
            + CHARGE_RATE <= POWER_CAP {
            m.charge.power + CHARGE_RATE
        } else {
            POWER_CAP as int
        },
        m.charge.power <= m.hold(pointer).charge.power <= POWER_CAP,
{
}

/// A launch request consumed outside the aiming phase changes nothing and
/// leaves the ball alone.
pub proof fn lemma_launch_outside_aiming(
    m: LevelModel,
    request: LaunchRequest,
    requests: Seq<LaunchRequest>,
    ball: Option<WorldPos>,
)
    requires
        m.session.state != LevelState::Prelaunch,
    ensures
        m.launch(request, ball) == m,
        m.launch_all(requests, ball) == m,
        m.launch_outcome(requests, ball) == LaunchOutcome::Ignored,
{
}

/// A launch request consumed in the aiming phase, with the ball somewhere
/// other than the aim point, moves the level to its launched phase. The
/// impulse points from the ball to the aim point and its magnitude is twice
/// the power.
pub proof fn lemma_launch_accepted(m: LevelModel, request: LaunchRequest, ball: WorldPos)
    requires
        m.session.state == LevelState::Prelaunch,
        request.aim_point != ball,
    ensures
        m.launch(request, Some(ball)).session.state == LevelState::Launched,
        m.launch_all(seq![request], Some(ball)).session.state == LevelState::Launched,
        m.launch_outcome(seq![request], Some(ball)) == LaunchOutcome::Launched(
            impulse_of(request, ball),
        ),
        impulse_of(request, ball).origin == ball,
        impulse_of(request, ball).toward == request.aim_point,
        impulse_of(request, ball).magnitude == 2 * request.power,
{
    assert(request.power * LAUNCH_FACTOR / (UNIT as int) == 2 * request.power) by (nonlinear_arith)
        requires
            LAUNCH_FACTOR == 2_000,
            UNIT == 1_000,
    ;
}

/// A request aimed at the ball's own position launches nothing.
pub proof fn lemma_launch_without_direction(m: LevelModel, request: LaunchRequest, ball: WorldPos)
    requires
        request.aim_point == ball,
    ensures
        m.launch(request, Some(ball)) == m,
        m.launch_all(seq![request], Some(ball)) == m,
        !(m.launch_outcome(seq![request], Some(ball)) is Launched),
{
    reveal_with_fuel(first_aimed, 2);
}

/// Consuming one event removes the live targets among its two bodies if the
/// force is above the threshold, and nothing otherwise.
pub proof fn lemma_strike_one(m: LevelModel, event: ContactForceEvent)
    requires
        m.valid(),
        m.session.state == LevelState::Launched,
    ensures
        event.force > TARGET_FORCE_THRESH ==> m.strike(seq![event]) == m.without(
            event.body_a,
        ).without(event.body_b),
        event.force <= TARGET_FORCE_THRESH ==> m.strike(seq![event]) == m,
{
    let after = m.strike(seq![event]);
    let want = if event.force > TARGET_FORCE_THRESH {
        m.without(event.body_a).without(event.body_b)
    } else {
        m
    };
    assert forall|t: int| after.live.contains(t) <==> want.live.contains(t) by {
        lemma_struck_one(event, m.target_body(t));
    }
    assert(after.live =~= want.live);
}

/// In the launched phase a target is alive after a batch of contact events
/// exactly if it was alive before and no event of the batch destroys it:
/// an event with a force at or below the threshold removes nothing, and one
/// above it removes the targets it names, however often they are named.
pub proof fn lemma_strike_live(m: LevelModel, events: Seq<ContactForceEvent>, body: BodyId)
    requires
        m.valid(),
        m.session.state == LevelState::Launched,
    ensures
        m.strike(events).is_live_target(body) <==> m.is_live_target(body) && !struck(events, body),
{
    if let BodyId::Target { attempt, index } = body {
        if attempt == m.attempt {
            assert(m.target_body(index as int) == body);
        }
    }
}

/// A batch in which no force is above the threshold changes nothing.
pub proof fn lemma_weak_contacts(m: LevelModel, events: Seq<ContactForceEvent>)
    requires
        forall|k: int| 0 <= k < events.len() ==> (#[trigger] events[k]).force <= TARGET_FORCE_THRESH,
    ensures
        m.strike(events) == m,
{
    assert(m.strike(events).live =~= m.live);
}

/// Consuming two batches one after the other is the same as consuming them
/// as one.
pub proof fn lemma_strike_concat(
    m: LevelModel,
    first: Seq<ContactForceEvent>,
    second: Seq<ContactForceEvent>,
)
    ensures
        m.strike(first).strike(second) == m.strike(first + second),
{
    if m.session.state == LevelState::Launched {
        let split = m.strike(first).strike(second);
        let joint = m.strike(first + second);
        assert forall|t: int| split.live.contains(t) <==> joint.live.contains(t) by {
            lemma_struck_concat(first, second, m.target_body(t));
        }
        assert(split.live =~= joint.live);
    }
}

/// Consuming the same batch again removes nothing more.
pub proof fn lemma_strike_again(m: LevelModel, events: Seq<ContactForceEvent>)
    ensures
        m.strike(events).strike(events) == m.strike(events),
{
    assert(m.strike(events).strike(events).live =~= m.strike(events).live);
}

/// When a batch of contact events removes the last live target of a launched
/// level, the completion check makes the level complete if another level
/// follows, and the campaign complete if none does.
pub proof fn lemma_last_target_completes(m: LevelModel, events: Seq<ContactForceEvent>)
    requires
        m.valid(),
        m.session.state == LevelState::Launched,
        m.live.len() > 0,
        m.strike(events).live.len() == 0,
    ensures
        m.strike(events).complete().session.state == if m.session.current_level_index
            < m.session.max_level_index {
            LevelState::Complete
        } else {
            LevelState::CampaignComplete
        },
        m.strike(events).complete().session.current_level_index == m.session.current_level_index,
{
    assert(m.strike(events).live.subset_of(m.live));
    vstd::set_lib::lemma_len_subset(m.strike(events).live, m.live);
    m.strike(events).live.lemma_len0_is_empty();
}

/// While a target is alive, the completion check changes nothing.
pub proof fn lemma_not_complete_yet(m: LevelModel)
    requires
        m.valid(),
        m.live.len() > 0,
    ensures
        m.complete() == m,
{
    if m.live.is_empty() {
        assert(m.live =~= Set::<int>::empty());
    }
}

/// On the last level the advance command changes nothing, whatever the
/// phase: at the end of the campaign the phase stays as it is and so does
/// the level index.
pub proof fn lemma_advance_on_last_level(m: LevelModel)
    requires
        m.session.current_level_index == m.session.max_level_index,
    ensures
        m.advance() == m,
{
}

/// The advance command acts only on a complete level.
pub proof fn lemma_advance_needs_complete(m: LevelModel)
    requires
        m.session.state != LevelState::Complete,
    ensures
        m.advance() == m,
{
}

/// A restart in any phase but the end of the campaign zeroes the power,
/// brings every target of the current level back, and returns to the aiming
/// phase of the same level. At the end of the campaign it changes nothing.
pub proof fn lemma_restart(m: LevelModel)
    requires
        m.valid(),
    ensures
        m.session.state != LevelState::CampaignComplete ==> {
            &&& m.restart().session.state == LevelState::Prelaunch
            &&& m.restart().session.current_level_index == m.session.current_level_index
            &&& m.restart().session.max_level_index == m.session.max_level_index
            &&& m.restart().charge.power == 0
            &&& m.restart().live.len() == m.level().targets@.len()
        },
        m.session.state == LevelState::CampaignComplete ==> m.restart() == m,
{
    lemma_setup(m.levels, m.viewport, m.session.current_level_index, next_attempt(m.attempt));
}

/// After a restart or an advance that is honoured, nothing of the old
/// attempt belongs to the new one.
pub proof fn lemma_old_attempt_is_gone(m: LevelModel, body: BodyId)
    requires
        m.owns(body),
    ensures
        m.can_restart() ==> !m.restart().owns(body),
        m.can_advance() ==> !m.advance().owns(body),
{
}

} // verus!
