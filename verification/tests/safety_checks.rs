use lander::safety::{termination_cause, TerminationCause, TerminationObservations};

fn nominal() -> TerminationObservations {
    TerminationObservations {
        imu_present: true,
        position_fix_present: true,
        position_denial_limit_exceeded: false,
        pressures_present: true,
        tilt_limit_exceeded: false,
        trajectory_deviation_exceeded: false,
    }
}

#[test]
fn nominal_packet_continues() {
    assert_eq!(termination_cause(&nominal(), true), None);
    assert_eq!(termination_cause(&nominal(), false), None);
}

#[test]
fn missing_imu_has_highest_precedence() {
    let o = TerminationObservations {
        imu_present: false,
        position_fix_present: false,
        position_denial_limit_exceeded: true,
        pressures_present: false,
        tilt_limit_exceeded: true,
        trajectory_deviation_exceeded: true,
    };
    assert_eq!(termination_cause(&o, true), Some(TerminationCause::ImuMissing));
}

#[test]
fn long_position_denial_terminates() {
    let mut o = nominal();
    o.position_fix_present = false;
    o.position_denial_limit_exceeded = true;
    o.pressures_present = false;
    assert_eq!(termination_cause(&o, false), Some(TerminationCause::PositionDenied));
}

#[test]
fn fresh_fix_clears_position_denial() {
    let mut o = nominal();
    o.position_denial_limit_exceeded = true;
    assert_eq!(termination_cause(&o, false), None);
    // a short denial does not terminate either
    let mut o = nominal();
    o.position_fix_present = false;
    assert_eq!(termination_cause(&o, false), None);
}

#[test]
fn missing_pressure_terminates() {
    let mut o = nominal();
    o.pressures_present = false;
    o.tilt_limit_exceeded = true;
    assert_eq!(termination_cause(&o, false), Some(TerminationCause::PressureMissing));
}

#[test]
fn excessive_tilt_terminates() {
    let mut o = nominal();
    o.tilt_limit_exceeded = true;
    o.trajectory_deviation_exceeded = true;
    assert_eq!(termination_cause(&o, true), Some(TerminationCause::TiltExceeded));
}

#[test]
fn deviation_counts_only_with_active_trajectory() {
    let mut o = nominal();
    o.trajectory_deviation_exceeded = true;
    assert_eq!(termination_cause(&o, true), Some(TerminationCause::TrajectoryDeviation));
    assert_eq!(termination_cause(&o, false), None);
}
