//! The flight termination check: the contingencies under which the flight is cut off.
use vstd::prelude::*;

verus! {

/// Why a flight was terminated.
#[derive(Debug, Clone, Copy, PartialEq, Eq, Structural)]
pub enum TerminationCause {
    /// The sensor packet carries no IMU reading.
    ImuMissing,
    /// Neither GPS nor UWB position this step, and none for longer than the
    /// dead-reckoning safety limit (15 s).
    PositionDenied,
    /// Chamber or tank pressure is missing.
    PressureMissing,
    /// The tilt angle exceeds 30 degrees.
    TiltExceeded,
    /// The vehicle is more than 10 m from every point of the active trajectory.
    TrajectoryDeviation,
}

/// What the termination check reads of one sensor packet and of the fused state.
#[derive(Debug, Clone, Copy, PartialEq, Eq, Structural)]
pub struct TerminationObservations {
    /// The packet carries an IMU reading.
    pub imu_present: bool,
    /// The packet carries a GPS or a UWB position.
    pub position_fix_present: bool,
    /// More than 15 s have passed since the last GPS/UWB position.
    pub position_denial_limit_exceeded: bool,
    /// The packet carries both the chamber and the tank pressure.
    pub pressures_present: bool,
    /// The absolute tilt angle exceeds 30 degrees.
    pub tilt_limit_exceeded: bool,
    /// The active trajectory has points, and all of them are more than 10 m away.
    pub trajectory_deviation_exceeded: bool,
}

/// The first contingency that holds, in order of precedence; `None` when the flight may go on.
/// A deviation from the trajectory counts only while a trajectory is active.
pub open spec fn termination_cause_spec(
    obs: TerminationObservations,
    has_trajectory: bool,
) -> Option<TerminationCause> {
    if !obs.imu_present {
        Some(TerminationCause::ImuMissing)
    } else if !obs.position_fix_present && obs.position_denial_limit_exceeded {
        Some(TerminationCause::PositionDenied)
    } else if !obs.pressures_present {
        Some(TerminationCause::PressureMissing)
    } else if obs.tilt_limit_exceeded {
        Some(TerminationCause::TiltExceeded)
    } else if has_trajectory && obs.trajectory_deviation_exceeded {
        Some(TerminationCause::TrajectoryDeviation)
    } else {
        None
    }
}

/// Checks the flight termination contingencies, in order of precedence:
/// missing IMU, long position denial, missing pressure, excessive tilt,
/// deviation from the active trajectory.
pub fn termination_cause(obs: &TerminationObservations, has_trajectory: bool) -> (r: Option<
    TerminationCause,
>)
    ensures
        r == termination_cause_spec(*obs, has_trajectory),
        !obs.imu_present ==> r == Some(TerminationCause::ImuMissing),
        obs.imu_present && !obs.position_fix_present && obs.position_denial_limit_exceeded ==> r
            == Some(TerminationCause::PositionDenied),
        obs.imu_present && !(!obs.position_fix_present && obs.position_denial_limit_exceeded)
            && !obs.pressures_present ==> r == Some(TerminationCause::PressureMissing),
        obs.imu_present && !(!obs.position_fix_present && obs.position_denial_limit_exceeded)
            && obs.pressures_present && obs.tilt_limit_exceeded ==> r == Some(
            TerminationCause::TiltExceeded,
        ),
        obs.imu_present && !(!obs.position_fix_present && obs.position_denial_limit_exceeded)
            && obs.pressures_present && !obs.tilt_limit_exceeded && has_trajectory
            && obs.trajectory_deviation_exceeded ==> r == Some(TerminationCause::TrajectoryDeviation),
        r is None <==> (obs.imu_present && !(!obs.position_fix_present
            && obs.position_denial_limit_exceeded) && obs.pressures_present
            && !obs.tilt_limit_exceeded && !(has_trajectory && obs.trajectory_deviation_exceeded)),
{
    if !obs.imu_present {
        Some(TerminationCause::ImuMissing)
    } else if !obs.position_fix_present && obs.position_denial_limit_exceeded {
        Some(TerminationCause::PositionDenied)
    } else if !obs.pressures_present {
        Some(TerminationCause::PressureMissing)
    } else if obs.tilt_limit_exceeded {
        Some(TerminationCause::TiltExceeded)
    } else if has_trajectory && obs.trajectory_deviation_exceeded {
        Some(TerminationCause::TrajectoryDeviation)
    } else {
        None
    }
}

/// A packet with a GPS or UWB position never terminates the flight for
/// position denial, however long the earlier denial lasted.
pub proof fn lemma_fresh_fix_clears_denial(obs: TerminationObservations, has_trajectory: bool)
    requires
        obs.position_fix_present,
    ensures
        termination_cause_spec(obs, has_trajectory) != Some(TerminationCause::PositionDenied),
{
}

/// Without an active trajectory, no deviation can terminate the flight.
pub proof fn lemma_no_trajectory_no_deviation(obs: TerminationObservations)
    ensures
        termination_cause_spec(obs, false) != Some(TerminationCause::TrajectoryDeviation),
{
}

/// A nominal packet (IMU, position and pressures present, tilt within
/// limits, on track) never terminates the flight.
pub proof fn lemma_nominal_packet_continues(obs: TerminationObservations, has_trajectory: bool)
    requires
        obs.imu_present,
        obs.position_fix_present,
        obs.pressures_present,
        !obs.tilt_limit_exceeded,
        !obs.trajectory_deviation_exceeded,
    ensures
        termination_cause_spec(obs, has_trajectory) == None::<TerminationCause>,
{
}

/// Each contingency terminates the flight whenever every contingency ahead of
/// it is absent, whatever the others say; a short GPS/UWB dropout (a packet
/// without a fix, within the dead-reckoning limit) suspends none of the checks
/// behind it. The flight goes on exactly when no contingency holds.
pub proof fn lemma_termination_precedence(obs: TerminationObservations, has_trajectory: bool)
    ensures
        !obs.imu_present ==> termination_cause_spec(obs, has_trajectory) == Some(
            TerminationCause::ImuMissing,
        ),
        obs.imu_present && !obs.position_fix_present && obs.position_denial_limit_exceeded
            ==> termination_cause_spec(obs, has_trajectory) == Some(
            TerminationCause::PositionDenied,
        ),
        obs.imu_present && !(!obs.position_fix_present && obs.position_denial_limit_exceeded)
            && !obs.pressures_present ==> termination_cause_spec(obs, has_trajectory) == Some(
            TerminationCause::PressureMissing,
        ),
        obs.imu_present && !(!obs.position_fix_present && obs.position_denial_limit_exceeded)
            && obs.pressures_present && obs.tilt_limit_exceeded ==> termination_cause_spec(
            obs,
            has_trajectory,
        ) == Some(TerminationCause::TiltExceeded),
        obs.imu_present && !(!obs.position_fix_present && obs.position_denial_limit_exceeded)
            && obs.pressures_present && !obs.tilt_limit_exceeded && has_trajectory
            && obs.trajectory_deviation_exceeded ==> termination_cause_spec(obs, has_trajectory)
            == Some(TerminationCause::TrajectoryDeviation),
        termination_cause_spec(obs, has_trajectory) is None <==> (obs.imu_present
            && !(!obs.position_fix_present && obs.position_denial_limit_exceeded)
            && obs.pressures_present && !obs.tilt_limit_exceeded && !(has_trajectory
            && obs.trajectory_deviation_exceeded)),
{
}

/// Whether a fix is present matters only for the position-denial contingency:
/// two packets that differ only in the fix flag, neither of which exceeds the
/// denial limit, get the same verdict.
pub proof fn lemma_fix_matters_only_for_denial(
    o1: TerminationObservations,
    o2: TerminationObservations,
    has_trajectory: bool,
)
    requires
        o1.imu_present == o2.imu_present,
        o1.pressures_present == o2.pressures_present,
        o1.tilt_limit_exceeded == o2.tilt_limit_exceeded,
        o1.trajectory_deviation_exceeded == o2.trajectory_deviation_exceeded,
        !o1.position_denial_limit_exceeded,
        !o2.position_denial_limit_exceeded,
    ensures
        termination_cause_spec(o1, has_trajectory) == termination_cause_spec(o2, has_trajectory),
{
}

} // verus!
