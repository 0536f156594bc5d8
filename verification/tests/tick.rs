use trash_the_tower::game::{KeyOutcome, LevelStateMachine};
use trash_the_tower::geometry::{ScreenPos, Viewport, WorldPos};
use trash_the_tower::levels::{LevelCatalog, LevelData, TargetData};
use trash_the_tower::model::{KeyInput, PointerInput, TickInput};
use trash_the_tower::physics::{BodyId, ContactForceEvent, Impulse, LaunchOutcome};
use trash_the_tower::LevelState;

const BALL: WorldPos = WorldPos { x: -225_000, y: -270_000 };

fn campaign() -> LevelStateMachine {
    let catalog = LevelCatalog::new(vec![
        LevelData { tower: vec![], targets: vec![TargetData { x: 20_000, y: 20_000 }] },
        LevelData {
            tower: vec![],
            targets: vec![TargetData { x: 0, y: 0 }, TargetData { x: 1, y: 1 }],
        },
    ]);
    LevelStateMachine::new(catalog, Viewport::standard())
}

fn no_keys() -> KeyInput {
    KeyInput { restart: false, advance: false, quit: false }
}

fn held(x: i32, y: i32) -> Option<PointerInput> {
    Some(PointerInput {
        just_pressed: false,
        pressed: true,
        just_released: false,
        position: ScreenPos { x, y },
    })
}

fn released(x: i32, y: i32) -> Option<PointerInput> {
    Some(PointerInput {
        just_pressed: false,
        pressed: false,
        just_released: true,
        position: ScreenPos { x, y },
    })
}

fn strike(attempt: u64, index: usize, force: u64) -> ContactForceEvent {
    ContactForceEvent {
        body_a: BodyId::Ball { attempt },
        body_b: BodyId::Target { attempt, index },
        force,
    }
}

#[test]
fn an_idle_tick_holds_the_ball_at_rest() {
    let mut m = campaign();
    let actions = m.before_physics(TickInput { keys: no_keys(), pointer: None, ball: Some(BALL) });
    assert!(matches!(actions.command, KeyOutcome::Ignored));
    assert_eq!(actions.launch, LaunchOutcome::Rest);
    assert_eq!(m.state(), LevelState::Prelaunch);
    assert_eq!(m.current_power(), 0);
}

#[test]
fn a_tick_without_a_ball_leaves_it_alone() {
    let mut m = campaign();
    let actions = m.before_physics(TickInput { keys: no_keys(), pointer: released(1, 1), ball: None });
    assert_eq!(actions.launch, LaunchOutcome::Ignored);
    assert_eq!(m.state(), LevelState::Prelaunch);
}

#[test]
fn charging_then_releasing_launches_in_the_tick_of_the_release() {
    let mut m = campaign();
    for tick in 1..=4u32 {
        let actions = m.before_physics(TickInput {
            keys: no_keys(),
            pointer: held(695_000, 40_000),
            ball: Some(BALL),
        });
        assert_eq!(actions.launch, LaunchOutcome::Rest);
        assert_eq!(m.current_power(), 750 * tick);
        assert_eq!(m.state(), LevelState::Prelaunch);
    }
    let actions = m.before_physics(TickInput {
        keys: no_keys(),
        pointer: released(695_000, 40_000),
        ball: Some(BALL),
    });
    assert_eq!(
        actions.launch,
        LaunchOutcome::Launched(Impulse {
            origin: BALL,
            toward: WorldPos { x: 245_000, y: -260_000 },
            magnitude: 6_000,
        })
    );
    assert_eq!(m.state(), LevelState::Launched);
    assert_eq!(m.current_power(), 0);
    assert_eq!(m.indicator(), None);
    // Once launched, the gesture and the ball are left alone.
    let actions = m.before_physics(TickInput {
        keys: no_keys(),
        pointer: released(1, 1),
        ball: Some(BALL),
    });
    assert_eq!(actions.launch, LaunchOutcome::Ignored);
    assert_eq!(m.state(), LevelState::Launched);
}

#[test]
fn releasing_on_the_ball_itself_launches_nothing() {
    let mut m = campaign();
    m.before_physics(TickInput { keys: no_keys(), pointer: held(225_000, 30_000), ball: Some(BALL) });
    let actions = m.before_physics(TickInput {
        keys: no_keys(),
        pointer: released(225_000, 30_000),
        ball: Some(BALL),
    });
    assert_eq!(actions.launch, LaunchOutcome::Rest);
    assert_eq!(m.state(), LevelState::Prelaunch);
    assert_eq!(m.current_power(), 0);
}

#[test]
fn a_restart_comes_before_the_gesture_and_hides_the_ball() {
    let mut m = campaign();
    m.before_physics(TickInput { keys: no_keys(), pointer: held(1, 1), ball: Some(BALL) });
    m.before_physics(TickInput { keys: no_keys(), pointer: held(1, 1), ball: Some(BALL) });
    assert_eq!(m.current_power(), 1_500);
    let actions = m.before_physics(TickInput {
        keys: KeyInput { restart: true, advance: false, quit: false },
        pointer: released(900_000, 600_000),
        ball: Some(BALL),
    });
    match actions.command {
        KeyOutcome::Restarted(plan) => {
            assert_eq!(plan.attempt, 1);
            assert_eq!(plan.level_index, 0);
        }
        other => panic!("expected a restart, got {:?}", other),
    }
    // The release right after the restart carries no power and finds no ball.
    assert_eq!(actions.launch, LaunchOutcome::Ignored);
    assert_eq!(m.state(), LevelState::Prelaunch);
    assert_eq!(m.current_power(), 0);
    assert_eq!(m.live_target_count(), 1);
}

#[test]
fn contacts_then_completion_in_one_step() {
    let mut m = campaign();
    m.before_physics(TickInput { keys: no_keys(), pointer: released(0, 0), ball: Some(BALL) });
    assert_eq!(m.state(), LevelState::Launched);

    let quiet = m.after_physics(&vec![strike(0, 0, 20_000)]);
    assert!(quiet.removed.is_empty());
    assert_eq!(quiet.entered, None);
    assert_eq!(m.state(), LevelState::Launched);

    let report = m.after_physics(&vec![strike(0, 0, 20_001), strike(0, 0, 44_000)]);
    assert_eq!(report.removed, vec![BodyId::Target { attempt: 0, index: 0 }]);
    assert_eq!(report.entered, Some(LevelState::Complete));
    assert_eq!(m.state(), LevelState::Complete);

    let after = m.after_physics(&vec![strike(0, 0, 44_000)]);
    assert!(after.removed.is_empty());
    assert_eq!(after.entered, None);
    assert_eq!(m.state(), LevelState::Complete);
}

#[test]
fn the_whole_campaign_tick_by_tick() {
    let mut m = campaign();
    m.before_physics(TickInput { keys: no_keys(), pointer: released(0, 0), ball: Some(BALL) });
    let report = m.after_physics(&vec![strike(0, 0, 30_000)]);
    assert_eq!(report.entered, Some(LevelState::Complete));

    let actions = m.before_physics(TickInput {
        keys: KeyInput { restart: false, advance: true, quit: true },
        pointer: None,
        ball: Some(BALL),
    });
    let plan = match actions.command {
        KeyOutcome::Advanced(plan) => plan,
        other => panic!("expected an advance, got {:?}", other),
    };
    assert_eq!(plan.level_index, 1);
    assert_eq!(plan.max_level_index, 1);
    assert_eq!(actions.launch, LaunchOutcome::Ignored);
    assert_eq!(m.state(), LevelState::Prelaunch);
    assert_eq!(m.live_target_count(), 2);

    m.before_physics(TickInput {
        keys: no_keys(),
        pointer: released(0, 0),
        ball: Some(plan.ball.position),
    });
    assert_eq!(m.state(), LevelState::Launched);
    let report = m.after_physics(&vec![strike(1, 1, 30_000)]);
    assert_eq!(report.removed, vec![BodyId::Target { attempt: 1, index: 1 }]);
    assert_eq!(report.entered, None);
    let report = m.after_physics(&vec![strike(1, 1, 30_000), strike(1, 0, 30_000)]);
    assert_eq!(report.removed, vec![BodyId::Target { attempt: 1, index: 0 }]);
    assert_eq!(report.entered, Some(LevelState::CampaignComplete));

    // At the end only quitting is honoured.
    let actions = m.before_physics(TickInput {
        keys: KeyInput { restart: true, advance: true, quit: false },
        pointer: held(1, 1),
        ball: Some(BALL),
    });
    assert!(matches!(actions.command, KeyOutcome::Ignored));
    assert_eq!(actions.launch, LaunchOutcome::Ignored);
    assert_eq!(m.state(), LevelState::CampaignComplete);
    assert_eq!(m.session().current_level_index, 1);
    assert_eq!(m.current_power(), 0);
    let actions = m.before_physics(TickInput {
        keys: KeyInput { restart: false, advance: false, quit: true },
        pointer: None,
        ball: Some(BALL),
    });
    assert!(matches!(actions.command, KeyOutcome::QuitToMenu));
    assert_eq!(m.state(), LevelState::CampaignComplete);
}
