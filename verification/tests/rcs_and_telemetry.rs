use lander::phase::FlightPhase;
use lander::rcs::{RcsCommand, RcsLogic, RcsObservation};
use lander::telemetry::PhaseLogFilter;

fn obs() -> RcsObservation {
    RcsObservation {
        update_due: true,
        angle_beyond_exit: false,
        rate_beyond_exit: false,
        angle_within_entry: false,
        rate_within_entry: false,
        demand_above_threshold: false,
        demand_below_threshold: false,
    }
}

#[test]
fn fires_against_demand() {
    let mut r = RcsLogic::new();
    let mut o = obs();
    o.demand_above_threshold = true;
    assert_eq!(r.update(&o), RcsCommand::FireNegative);
    let mut o = obs();
    o.demand_below_threshold = true;
    assert_eq!(r.update(&o), RcsCommand::FirePositive);
    assert_eq!(r.update(&obs()), RcsCommand::Off);
}

#[test]
fn holds_command_between_updates() {
    let mut r = RcsLogic::new();
    let mut o = obs();
    o.demand_above_threshold = true;
    assert_eq!(r.update(&o), RcsCommand::FireNegative);
    let mut idle = obs();
    idle.update_due = false;
    idle.demand_below_threshold = true;
    assert_eq!(r.update(&idle), RcsCommand::FireNegative);
    assert_eq!(r.last_command, RcsCommand::FireNegative);
}

#[test]
fn deadband_hysteresis() {
    let mut r = RcsLogic::new();
    // enter: both angle and rate small
    let mut o = obs();
    o.angle_within_entry = true;
    o.rate_within_entry = true;
    o.demand_above_threshold = true;
    assert_eq!(r.update(&o), RcsCommand::Off);
    assert!(r.in_deadband);
    // a moderate error that is past neither exit threshold keeps it in the deadband
    let mut o = obs();
    o.demand_above_threshold = true;
    assert_eq!(r.update(&o), RcsCommand::Off);
    assert!(r.in_deadband);
    // leaving: the rate grows past the exit threshold
    let mut o = obs();
    o.rate_beyond_exit = true;
    o.demand_below_threshold = true;
    assert_eq!(r.update(&o), RcsCommand::FirePositive);
    assert!(!r.in_deadband);
    // only the angle small: no entry
    let mut o = obs();
    o.angle_within_entry = true;
    assert_eq!(r.update(&o), RcsCommand::Off);
    assert!(!r.in_deadband);
}

#[test]
fn phase_log_records_transitions_only() {
    let mut f = PhaseLogFilter::new();
    assert!(f.record(FlightPhase::Standby));
    assert!(!f.record(FlightPhase::Standby));
    assert!(f.record(FlightPhase::Armed));
    assert!(!f.record(FlightPhase::Armed));
    assert!(f.record(FlightPhase::Standby));
    assert_eq!(f.last_logged, Some(FlightPhase::Standby));
}
