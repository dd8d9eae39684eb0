use lander::phase::{next_phase, FlightPhase, PhaseDecision, PhaseObservations};

fn obs(position_denied: bool, at_goal: bool, hover_elapsed: bool, touched_down: bool) -> PhaseObservations {
    PhaseObservations {
        position_denied,
        at_goal_altitude: at_goal,
        hover_time_elapsed: hover_elapsed,
        touched_down,
    }
}

const ALL: [FlightPhase; 6] = [
    FlightPhase::Standby,
    FlightPhase::Armed,
    FlightPhase::Ascent,
    FlightPhase::Hover,
    FlightPhase::Descent,
    FlightPhase::Landed,
];

fn all_obs() -> Vec<PhaseObservations> {
    let mut v = Vec::new();
    for bits in 0..16u8 {
        v.push(obs(bits & 1 != 0, bits & 2 != 0, bits & 4 != 0, bits & 8 != 0));
    }
    v
}

#[test]
fn operator_commands_on_the_pad() {
    assert_eq!(FlightPhase::Standby.armed(), FlightPhase::Armed);
    assert_eq!(FlightPhase::Armed.disarmed(), FlightPhase::Standby);
    assert_eq!(FlightPhase::Armed.launched(), FlightPhase::Ascent);
    // launch without arming does nothing
    assert_eq!(FlightPhase::Standby.launched(), FlightPhase::Standby);
    // disarm only from Armed
    assert_eq!(FlightPhase::Standby.disarmed(), FlightPhase::Standby);
    // arm twice stays armed
    assert_eq!(FlightPhase::Armed.armed(), FlightPhase::Armed);
}

#[test]
fn disarm_undoes_arm() {
    assert_eq!(FlightPhase::Standby.armed().disarmed(), FlightPhase::Standby);
}

#[test]
fn commands_ignored_in_flight() {
    for p in [FlightPhase::Ascent, FlightPhase::Hover, FlightPhase::Descent, FlightPhase::Landed] {
        assert_eq!(p.armed(), p);
        assert_eq!(p.disarmed(), p);
        assert_eq!(p.launched(), p);
    }
}

#[test]
fn ascent_reaches_hover_at_goal_altitude() {
    let d = next_phase(FlightPhase::Ascent, &obs(false, true, false, false));
    assert_eq!(d, PhaseDecision { target: FlightPhase::Hover, restart_phase_clock: true, emergency_landing: false });
    let d = next_phase(FlightPhase::Ascent, &obs(false, false, true, true));
    assert_eq!(d, PhaseDecision { target: FlightPhase::Ascent, restart_phase_clock: false, emergency_landing: false });
}

#[test]
fn hover_ends_after_hover_time() {
    let d = next_phase(FlightPhase::Hover, &obs(false, true, true, false));
    assert_eq!(d, PhaseDecision { target: FlightPhase::Descent, restart_phase_clock: true, emergency_landing: false });
    let d = next_phase(FlightPhase::Hover, &obs(false, true, false, false));
    assert_eq!(d.target, FlightPhase::Hover);
}

#[test]
fn descent_lands_on_touchdown_without_clock_restart() {
    let d = next_phase(FlightPhase::Descent, &obs(false, false, false, true));
    assert_eq!(d, PhaseDecision { target: FlightPhase::Landed, restart_phase_clock: false, emergency_landing: false });
    // position denial does not matter in Descent
    let d = next_phase(FlightPhase::Descent, &obs(true, false, false, false));
    assert_eq!(d, PhaseDecision { target: FlightPhase::Descent, restart_phase_clock: false, emergency_landing: false });
}

#[test]
fn position_loss_forces_emergency_descent() {
    for p in [FlightPhase::Ascent, FlightPhase::Hover] {
        let d = next_phase(p, &obs(true, true, true, true));
        assert_eq!(d, PhaseDecision { target: FlightPhase::Descent, restart_phase_clock: true, emergency_landing: true });
    }
}

#[test]
fn pad_phases_and_landed_never_move_autonomously() {
    for o in all_obs() {
        for p in [FlightPhase::Standby, FlightPhase::Armed, FlightPhase::Landed] {
            let d = next_phase(p, &o);
            assert_eq!(d, PhaseDecision { target: p, restart_phase_clock: false, emergency_landing: false });
        }
    }
}

#[test]
fn autonomous_steps_never_go_back() {
    fn order(p: FlightPhase) -> u8 {
        match p {
            FlightPhase::Standby => 0,
            FlightPhase::Armed => 1,
            FlightPhase::Ascent => 2,
            FlightPhase::Hover => 3,
            FlightPhase::Descent => 4,
            FlightPhase::Landed => 5,
        }
    }
    for o in all_obs() {
        for p in ALL {
            assert!(order(next_phase(p, &o).target) >= order(p));
        }
    }
}

#[test]
fn phase_predicates() {
    assert!(FlightPhase::Standby.is_prelaunch());
    assert!(FlightPhase::Armed.is_prelaunch());
    assert!(!FlightPhase::Ascent.is_prelaunch());
    assert!(FlightPhase::Landed.is_ground_phase());
    assert!(!FlightPhase::Landed.is_prelaunch());
    assert!(!FlightPhase::Hover.is_ground_phase());
}
