use red_horizon::control::{map_controls, ControlConfig, ControlInput, EngineCommand, ReleasePolicy};
use red_horizon::fixed::{Quat, Vec3};
use red_horizon::flight::FlightState;
use red_horizon::forces::{resolve_forces, WindState};
use red_horizon::fuel::FuelLedger;
use red_horizon::game_state::{next_state, physics_active, GameState};
use red_horizon::kinematics::KinematicState;

const HELD: ControlInput = ControlInput { thrust: true, left: false, right: false };
const RELEASED: ControlInput = ControlInput { thrust: false, left: false, right: false };

#[test]
fn held_thrust_ramps_up_and_stops_at_max() {
    let cfg = ControlConfig::standard();
    let mut cmd = EngineCommand::off();
    let mut last = 0;
    for _ in 0..100 {
        cmd = map_controls(&cfg, &cmd, &HELD, 100_000);
        assert!(cmd.main_thrust >= last);
        assert!(cmd.main_thrust <= 6_500_000);
        last = cmd.main_thrust;
    }
    assert_eq!(cmd.main_thrust, 6_500_000);
}

#[test]
fn held_thrust_rises_by_ramp_times_dt() {
    let cfg = ControlConfig::standard();
    let cmd = map_controls(&cfg, &EngineCommand::off(), &HELD, 250_000);
    assert_eq!(cmd.main_thrust, 500_000);
    let zero_dt = map_controls(&cfg, &cmd, &HELD, 0);
    assert_eq!(zero_dt.main_thrust, 500_000);
}

#[test]
fn released_thrust_ramps_down_strictly() {
    let cfg = ControlConfig::standard();
    let mut cmd = EngineCommand { main_thrust: 1_000_000, left_authority: 0, right_authority: 0 };
    let mut seen = vec![cmd.main_thrust];
    while cmd.main_thrust > 0 {
        let next = map_controls(&cfg, &cmd, &RELEASED, 100_000);
        assert!(next.main_thrust < cmd.main_thrust);
        cmd = next;
        seen.push(cmd.main_thrust);
    }
    assert_eq!(seen, vec![1_000_000, 700_000, 400_000, 100_000, 0]);
}

#[test]
fn snap_policy_cuts_thrust_at_once() {
    let mut cfg = ControlConfig::standard();
    cfg.release = ReleasePolicy::Snap;
    let cmd = EngineCommand { main_thrust: 5_000_000, left_authority: 0, right_authority: 0 };
    let next = map_controls(&cfg, &cmd, &RELEASED, 1_000);
    assert_eq!(next.main_thrust, 0);
}

#[test]
fn attitude_authority_ramps_and_snaps_to_zero() {
    let cfg = ControlConfig::standard();
    let both = ControlInput { thrust: false, left: true, right: true };
    let cmd = map_controls(&cfg, &EngineCommand::off(), &both, 500_000);
    assert_eq!(cmd.left_authority, 50_000);
    assert_eq!(cmd.right_authority, 50_000);
    let only_left = ControlInput { thrust: false, left: true, right: false };
    let next = map_controls(&cfg, &cmd, &only_left, 500_000);
    assert_eq!(next.left_authority, 100_000);
    assert_eq!(next.right_authority, 0);
    let capped = map_controls(&cfg, &EngineCommand { main_thrust: 0, left_authority: 2_999_990, right_authority: 0 }, &only_left, 1_000_000);
    assert_eq!(capped.left_authority, 3_000_000);
}

#[test]
fn upright_thrust_with_wind() {
    let cmd = EngineCommand { main_thrust: 1_000_000, left_authority: 0, right_authority: 0 };
    let wind = WindState::from_report(4_000_000, 1_000_000);
    assert_eq!(wind.speed, 400_000);
    let ft = resolve_forces(&cmd, &Quat::identity(), &wind);
    assert_eq!(ft.force, Vec3::new(400_000, 1_000_000, 0));
    assert_eq!(ft.torque, Vec3::zero());
}

#[test]
fn flipped_rocket_pushes_down() {
    let cmd = EngineCommand { main_thrust: 2_000_000, left_authority: 0, right_authority: 0 };
    let flipped = Quat { w: 0, x: 1_000_000, y: 0, z: 0 };
    let ft = resolve_forces(&cmd, &flipped, &WindState::calm());
    assert_eq!(ft.force, Vec3::new(0, -2_000_000, 0));
}

#[test]
fn attitude_torque_from_left_and_right() {
    let left = EngineCommand { main_thrust: 0, left_authority: 1_000_000, right_authority: 0 };
    let ft = resolve_forces(&left, &Quat::identity(), &WindState::calm());
    assert_eq!(ft.torque, Vec3::new(0, 0, 100_000));
    let both = EngineCommand { main_thrust: 0, left_authority: 1_000_000, right_authority: 2_000_000 };
    let ft = resolve_forces(&both, &Quat::identity(), &WindState::calm());
    assert_eq!(ft.torque, Vec3::new(0, 0, -100_000));
}

#[test]
fn resolver_is_deterministic() {
    let cmd = EngineCommand { main_thrust: 3_100_000, left_authority: 200_000, right_authority: 0 };
    let q = Quat { w: 923_880, x: 0, y: 0, z: 382_683 };
    let wind = WindState::from_report(37_000_000, -500_000);
    let a = resolve_forces(&cmd, &q, &wind);
    let b = resolve_forces(&cmd, &q, &wind);
    assert_eq!(a, b);
}

#[test]
fn no_authority_and_no_wind_gives_no_torque() {
    let q = Quat { w: 923_880, x: 100_000, y: -250_000, z: 382_683 };
    for thrust in [0u64, 1, 6_500_000, 1_000_000_000_000] {
        let cmd = EngineCommand { main_thrust: thrust, left_authority: 0, right_authority: 0 };
        let ft = resolve_forces(&cmd, &q, &WindState::calm());
        assert_eq!(ft.torque, Vec3::zero());
    }
}

#[test]
fn fuel_burns_total_effort_and_stops_at_zero() {
    let mut ledger = FuelLedger::full();
    ledger.burn(&EngineCommand { main_thrust: 2_000_000, left_authority: 500_000, right_authority: 500_000 });
    assert_eq!(ledger.remaining, 999_700_000);
    let mut low = FuelLedger::new(100_000, 100_000);
    low.burn(&EngineCommand { main_thrust: 6_500_000, left_authority: 0, right_authority: 0 });
    assert_eq!(low.remaining, 0);
    low.burn(&EngineCommand::off());
    assert_eq!(low.remaining, 0);
}

#[test]
fn fuel_never_rises_over_a_run() {
    let mut ledger = FuelLedger::full();
    let mut last = ledger.remaining;
    for i in 0..5000u64 {
        let cmd = EngineCommand { main_thrust: (i * 7_919) % 6_500_000, left_authority: i % 3 * 1_000_000, right_authority: 0 };
        ledger.burn(&cmd);
        assert!(ledger.remaining <= last);
        last = ledger.remaining;
    }
    assert_eq!(ledger.remaining, 0);
}

#[test]
fn velocity_is_quantised_to_a_tenth() {
    let mut k = KinematicState::new(Vec3::new(0, 26_750_000, 0), Quat::identity());
    k.mirror(Vec3::new(1_234, 26_748_500, 2_500_000), Quat::identity());
    assert_eq!(k.velocity, Vec3::new(100_000, -200_000, 250_000_000));
    assert_eq!(k.altitude, 26_748_500);
    k.mirror(Vec3::new(1_234, 26_748_500 - 1_499, 2_500_000 + 499), Quat { w: 0, x: 0, y: 1_000_000, z: 0 });
    assert_eq!(k.velocity, Vec3::new(0, -100_000, 0));
    assert_eq!(k.orientation, Quat { w: 0, x: 0, y: 1_000_000, z: 0 });
}

#[test]
fn five_held_ticks_end_to_end() {
    let kinematics = KinematicState::new(Vec3::new(0, 26_750_000, 0), Quat::identity());
    let mut state = FlightState::new(ControlConfig::standard(), FuelLedger::full(), kinematics, WindState::calm());
    let mut expected_fuel: u64 = 1_000_000_000;
    for _ in 0..5 {
        let forces = state.begin_tick(&HELD, 100_000);
        assert_eq!(forces.force, Vec3::new(0, state.command.main_thrust as i64, 0));
        state.end_tick(Vec3::new(0, 26_750_000, 0), Quat::identity());
        expected_fuel -= state.command.main_thrust / 10;
        assert_eq!(state.fuel.remaining, expected_fuel);
    }
    assert_eq!(state.command.main_thrust, 1_000_000);
    assert_eq!(state.fuel.remaining, 999_700_000);
}

#[test]
fn pause_and_start_keys() {
    assert_eq!(GameState::initial(), GameState::Paused);
    assert_eq!(next_state(GameState::Paused, false, true), GameState::Playing);
    assert_eq!(next_state(GameState::Playing, true, false), GameState::Paused);
    assert_eq!(next_state(GameState::Playing, true, true), GameState::Playing);
    assert_eq!(next_state(GameState::Playing, false, false), GameState::Playing);
    assert!(physics_active(GameState::Playing));
    assert!(!physics_active(GameState::Paused));
}

#[test]
fn equal_authorities_cancel_at_any_orientation() {
    let q = Quat { w: 752_192, x: 658_944, y: 0, z: 0 };
    let cmd = EngineCommand { main_thrust: 0, left_authority: 1_000_000, right_authority: 1_000_000 };
    let ft = resolve_forces(&cmd, &q, &WindState::calm());
    assert_eq!(ft.torque, Vec3::zero());
    let tilted = Quat { w: 923_880, x: 100_000, y: -250_000, z: 382_683 };
    let cmd = EngineCommand { main_thrust: 6_500_000, left_authority: 2_345_678, right_authority: 2_345_678 };
    let ft = resolve_forces(&cmd, &tilted, &WindState::from_report(37_000_000, -500_000));
    assert_eq!(ft.torque, Vec3::zero());
}

#[test]
fn telemetry_values_in_wire_order() {
    let kinematics = KinematicState::new(Vec3::new(0, 26_750_000, 0), Quat::identity());
    let mut state = FlightState::new(ControlConfig::standard(), FuelLedger::full(), kinematics, WindState::from_report(40_000_000, 1_000_000));
    state.begin_tick(&ControlInput { thrust: true, left: true, right: false }, 100_000);
    state.end_tick(Vec3::new(0, 26_740_000, 0), Quat::identity());
    assert_eq!(
        state.telemetry_values(),
        [999_979_000, 26_740_000, 0, -1_000_000, 0, 200_000, 10_000, 0, 4_000_000, 1_000_000, 0, 0]
    );
}
