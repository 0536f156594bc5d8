use trash_the_tower::constants::{CHARGE_RATE, POWER_CAP};
use trash_the_tower::geometry::{GroundSpawn, ScreenPos, Viewport, WorldPos};
use trash_the_tower::launch::{Indicator, LaunchController, LaunchRequest};
use trash_the_tower::LevelState;

fn at(x: i32, y: i32) -> ScreenPos {
    ScreenPos { x, y }
}

#[test]
fn pointer_is_measured_from_the_window_centre() {
    let v = Viewport::standard();
    assert_eq!(v, Viewport { width: 900_000, height: 600_000 });
    assert_eq!(v.to_world(at(450_000, 300_000)), WorldPos { x: 0, y: 0 });
    assert_eq!(v.to_world(at(0, 0)), WorldPos { x: -450_000, y: -300_000 });
    assert_eq!(v.to_world(at(900_000, 600_000)), WorldPos { x: 450_000, y: 300_000 });
    assert_eq!(v.to_world(at(123_456, 7)), WorldPos { x: -326_544, y: -299_993 });
}

#[test]
fn pointer_conversion_at_the_limits() {
    let v = Viewport { width: u32::MAX, height: 3 };
    assert_eq!(
        v.to_world(at(i32::MIN, i32::MAX)),
        WorldPos { x: i32::MIN as i64 - 2_147_483_647, y: i32::MAX as i64 - 1 }
    );
}

#[test]
fn ground_spans_the_bottom_edge() {
    let g = Viewport::standard().ground();
    assert_eq!(
        g,
        GroundSpawn {
            position: WorldPos { x: 0, y: -300_000 },
            half_width: 450_000,
            half_height: 15_000,
        }
    );
}

#[test]
fn new_controller_is_idle() {
    let c = LaunchController::new(Viewport::standard());
    assert_eq!(c.current_power(), 0);
    assert_eq!(c.current_aim_point(), None);
    assert_eq!(c.indicator(), None);
    assert_eq!(c.viewport_size(), Viewport::standard());
}

#[test]
fn holding_charges_by_the_rate() {
    let mut c = LaunchController::new(Viewport::standard());
    c.on_press_start(LevelState::Prelaunch, at(500_000, 300_000));
    assert_eq!(c.current_power(), 0);
    assert_eq!(c.current_aim_point(), Some(WorldPos { x: 50_000, y: 0 }));
    c.on_held(LevelState::Prelaunch, at(500_000, 310_000));
    assert_eq!(c.current_power(), 750);
    assert_eq!(c.current_aim_point(), Some(WorldPos { x: 50_000, y: 10_000 }));
    c.on_held(LevelState::Prelaunch, at(510_000, 310_000));
    assert_eq!(c.current_power(), 1_500);
    assert_eq!(c.current_aim_point(), Some(WorldPos { x: 60_000, y: 10_000 }));
}

#[test]
fn power_stops_at_the_cap() {
    let mut c = LaunchController::new(Viewport::standard());
    for tick in 1..=93u32 {
        c.on_held(LevelState::Prelaunch, at(0, 0));
        assert_eq!(c.current_power(), tick * CHARGE_RATE);
    }
    assert_eq!(c.current_power(), 69_750);
    c.on_held(LevelState::Prelaunch, at(0, 0));
    assert_eq!(c.current_power(), POWER_CAP);
    for _ in 0..10 {
        c.on_held(LevelState::Prelaunch, at(0, 0));
        assert_eq!(c.current_power(), 70_000);
    }
}

#[test]
fn gesture_is_dead_outside_the_aiming_phase() {
    for state in [LevelState::Launched, LevelState::Complete, LevelState::CampaignComplete] {
        let mut c = LaunchController::new(Viewport::standard());
        c.on_press_start(state, at(1, 2));
        assert_eq!(c.current_aim_point(), None);
        c.on_held(state, at(1, 2));
        assert_eq!(c.current_power(), 0);
        assert_eq!(c.current_aim_point(), None);
        assert_eq!(c.on_release(state, at(1, 2)), None);
        assert_eq!(c.current_power(), 0);
    }
}

#[test]
fn charge_survives_a_phase_without_growing() {
    let mut c = LaunchController::new(Viewport::standard());
    c.on_held(LevelState::Prelaunch, at(450_000, 300_000));
    c.on_held(LevelState::Prelaunch, at(450_000, 300_000));
    c.on_held(LevelState::Launched, at(0, 0));
    assert_eq!(c.current_power(), 1_500);
    assert_eq!(c.current_aim_point(), Some(WorldPos { x: 0, y: 0 }));
    assert_eq!(c.on_release(LevelState::Launched, at(0, 0)), None);
    assert_eq!(c.current_power(), 1_500);
}

#[test]
fn release_emits_once_and_resets() {
    let mut c = LaunchController::new(Viewport::standard());
    c.on_press_start(LevelState::Prelaunch, at(450_000, 300_000));
    for _ in 0..4 {
        c.on_held(LevelState::Prelaunch, at(450_000, 300_000));
    }
    let request = c.on_release(LevelState::Prelaunch, at(600_000, 200_000));
    assert_eq!(
        request,
        Some(LaunchRequest { power: 3_000, aim_point: WorldPos { x: 150_000, y: -100_000 } })
    );
    assert_eq!(c.current_power(), 0);
    assert_eq!(c.current_aim_point(), None);
    // A second release without a new hold carries no power.
    let again = c.on_release(LevelState::Prelaunch, at(600_000, 200_000));
    assert_eq!(
        again,
        Some(LaunchRequest { power: 0, aim_point: WorldPos { x: 150_000, y: -100_000 } })
    );
}

#[test]
fn indicator_is_one_unit_larger_than_the_power() {
    let mut c = LaunchController::new(Viewport::standard());
    c.on_press_start(LevelState::Prelaunch, at(450_000, 300_000));
    assert_eq!(
        c.indicator(),
        Some(Indicator { position: WorldPos { x: 0, y: 0 }, radius: 1_000 })
    );
    c.on_held(LevelState::Prelaunch, at(460_000, 300_000));
    assert_eq!(
        c.indicator(),
        Some(Indicator { position: WorldPos { x: 10_000, y: 0 }, radius: 1_750 })
    );
    for _ in 0..200 {
        c.on_held(LevelState::Prelaunch, at(460_000, 300_000));
    }
    assert_eq!(
        c.indicator(),
        Some(Indicator { position: WorldPos { x: 10_000, y: 0 }, radius: 71_000 })
    );
    c.on_release(LevelState::Prelaunch, at(460_000, 300_000));
    assert_eq!(c.indicator(), None);
}

#[test]
fn reset_drops_the_gesture() {
    let mut c = LaunchController::new(Viewport::standard());
    c.on_held(LevelState::Prelaunch, at(1, 1));
    c.reset();
    assert_eq!(c.current_power(), 0);
    assert_eq!(c.current_aim_point(), None);
}

#[test]
fn phase_predicates() {
    assert!(LevelState::Prelaunch.is_prelaunch());
    assert!(!LevelState::Launched.is_prelaunch());
    assert!(LevelState::Launched.is_launched());
    assert!(!LevelState::Complete.is_launched());
    assert!(!LevelState::CampaignComplete.is_prelaunch());
}
