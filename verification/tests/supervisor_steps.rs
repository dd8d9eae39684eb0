use lander::phase::{FlightPhase, PhaseDecision, PhaseObservations};
use lander::safety::{TerminationCause, TerminationObservations};
use lander::supervisor::{
    control_action, guidance_action, mass_update, ControlAction, FlightSupervisor,
    GuidanceAction, GuidanceOutcome, MassUpdate, StepActions, StepObservations, StepPlan,
};

fn quiet_phase() -> PhaseObservations {
    PhaseObservations {
        position_denied: false,
        at_goal_altitude: false,
        hover_time_elapsed: false,
        touched_down: false,
    }
}

fn nominal_packet() -> TerminationObservations {
    TerminationObservations {
        imu_present: true,
        position_fix_present: true,
        position_denial_limit_exceeded: false,
        pressures_present: true,
        tilt_limit_exceeded: false,
        trajectory_deviation_exceeded: false,
    }
}

fn step_obs(phase: PhaseObservations, guidance_due: bool, controller_due: bool) -> StepObservations {
    StepObservations { termination: nominal_packet(), phase, guidance_due, controller_due }
}

fn launched() -> FlightSupervisor<u32> {
    let mut s = FlightSupervisor::<u32>::new();
    assert!(s.arm());
    assert!(s.launch());
    s
}

#[test]
fn new_supervisor_is_on_the_pad() {
    let s = FlightSupervisor::<u32>::new();
    assert_eq!(s.phase(), FlightPhase::Standby);
    assert!(!s.is_terminated());
    assert_eq!(s.termination(), None);
    assert!(s.trajectory().is_none());
    assert!(s.in_prelaunch());
}

#[test]
fn commands_report_whether_they_took_effect() {
    let mut s = FlightSupervisor::<u32>::new();
    assert!(!s.launch());
    assert_eq!(s.phase(), FlightPhase::Standby);
    assert!(!s.disarm());
    assert!(s.arm());
    assert!(!s.arm());
    assert!(s.disarm());
    assert_eq!(s.phase(), FlightPhase::Standby);
    assert!(s.arm());
    assert!(s.launch());
    assert_eq!(s.phase(), FlightPhase::Ascent);
    assert!(!s.disarm());
    assert_eq!(s.phase(), FlightPhase::Ascent);
}

#[test]
fn standby_step_plans_ascent_and_zeroes_controls() {
    let mut s = FlightSupervisor::<u32>::new();
    let plan = s.plan_step(&step_obs(quiet_phase(), true, true));
    assert_eq!(
        plan,
        StepPlan::Proceed(StepActions {
            previous_phase: FlightPhase::Standby,
            transition: PhaseDecision {
                target: FlightPhase::Standby,
                restart_phase_clock: false,
                emergency_landing: false,
            },
            guidance: Some(GuidanceAction::PlanAscent),
            control: ControlAction::ZeroOutput,
        })
    );
    assert_eq!(s.complete_guidance(GuidanceAction::PlanAscent, Some(7)), GuidanceOutcome::Regenerated);
    assert_eq!(*s.trajectory(), Some(7));
    // with a trajectory in hand, the pad keeps it
    match s.plan_step(&step_obs(quiet_phase(), true, false)) {
        StepPlan::Proceed(a) => {
            assert_eq!(a.guidance, Some(GuidanceAction::Keep));
            assert_eq!(a.control, ControlAction::Idle);
        }
        other => panic!("unexpected plan {:?}", other),
    }
}

#[test]
fn ascent_step_runs_controller_and_replans() {
    let mut s = launched();
    match s.plan_step(&step_obs(quiet_phase(), true, true)) {
        StepPlan::Proceed(a) => {
            assert_eq!(a.previous_phase, FlightPhase::Ascent);
            assert_eq!(a.transition.target, FlightPhase::Ascent);
            assert_eq!(a.guidance, Some(GuidanceAction::PlanAscent));
            assert_eq!(a.control, ControlAction::RunController);
        }
        other => panic!("unexpected plan {:?}", other),
    }
}

#[test]
fn reaching_goal_altitude_enters_hover_and_clears_trajectory() {
    let mut s = launched();
    s.complete_guidance(GuidanceAction::PlanAscent, Some(1));
    let mut o = quiet_phase();
    o.at_goal_altitude = true;
    match s.plan_step(&step_obs(o, true, false)) {
        StepPlan::Proceed(a) => {
            assert_eq!(a.transition.target, FlightPhase::Hover);
            assert!(a.transition.restart_phase_clock);
            assert_eq!(a.guidance, Some(GuidanceAction::Clear));
            assert_eq!(s.complete_guidance(GuidanceAction::Clear, None), GuidanceOutcome::Cleared);
        }
        other => panic!("unexpected plan {:?}", other),
    }
    assert_eq!(s.phase(), FlightPhase::Hover);
    assert!(s.trajectory().is_none());
}

#[test]
fn failed_regeneration_keeps_last_trajectory() {
    let mut s = launched();
    assert_eq!(s.complete_guidance(GuidanceAction::PlanAscent, Some(3)), GuidanceOutcome::Regenerated);
    assert_eq!(s.complete_guidance(GuidanceAction::PlanDescent, None), GuidanceOutcome::RegenerationFailed);
    assert_eq!(*s.trajectory(), Some(3));
    assert_eq!(s.complete_guidance(GuidanceAction::Keep, Some(9)), GuidanceOutcome::Unchanged);
    assert_eq!(*s.trajectory(), Some(3));
}

#[test]
fn termination_is_absorbing() {
    let mut s = launched();
    let mut o = step_obs(quiet_phase(), true, true);
    o.termination.tilt_limit_exceeded = true;
    assert_eq!(s.plan_step(&o), StepPlan::Terminate(TerminationCause::TiltExceeded));
    assert!(s.is_terminated());
    assert_eq!(s.termination(), Some(TerminationCause::TiltExceeded));
    assert_eq!(s.phase(), FlightPhase::Ascent);
    // every later step is halted
    assert_eq!(s.plan_step(&step_obs(quiet_phase(), true, true)), StepPlan::Halted);
    assert_eq!(s.phase(), FlightPhase::Ascent);
    // initialize clears the flag but keeps the recorded cause
    s.initialize();
    assert!(!s.is_terminated());
    assert_eq!(s.phase(), FlightPhase::Standby);
    assert_eq!(s.termination(), Some(TerminationCause::TiltExceeded));
}

#[test]
fn deviation_terminates_only_with_trajectory() {
    let mut s = launched();
    let mut o = step_obs(quiet_phase(), false, false);
    o.termination.trajectory_deviation_exceeded = true;
    assert!(matches!(s.plan_step(&o), StepPlan::Proceed(_)));
    s.complete_guidance(GuidanceAction::PlanAscent, Some(5));
    assert_eq!(s.plan_step(&o), StepPlan::Terminate(TerminationCause::TrajectoryDeviation));
}

#[test]
fn emergency_descent_then_landing() {
    let mut s = launched();
    let mut o = quiet_phase();
    o.position_denied = true;
    match s.plan_step(&step_obs(o, true, true)) {
        StepPlan::Proceed(a) => {
            assert!(a.transition.emergency_landing);
            assert_eq!(a.transition.target, FlightPhase::Descent);
            assert_eq!(a.guidance, Some(GuidanceAction::PlanDescent));
            assert_eq!(a.control, ControlAction::RunController);
        }
        other => panic!("unexpected plan {:?}", other),
    }
    let mut o = quiet_phase();
    o.touched_down = true;
    match s.plan_step(&step_obs(o, false, true)) {
        StepPlan::Proceed(a) => {
            assert_eq!(a.transition.target, FlightPhase::Landed);
            assert_eq!(a.guidance, None);
            assert_eq!(a.control, ControlAction::ZeroOutput);
        }
        other => panic!("unexpected plan {:?}", other),
    }
    assert_eq!(s.phase(), FlightPhase::Landed);
}

#[test]
fn ground_phases_never_run_controller() {
    for p in [FlightPhase::Standby, FlightPhase::Armed, FlightPhase::Landed] {
        assert_eq!(control_action(p, true), ControlAction::ZeroOutput);
        assert_eq!(control_action(p, false), ControlAction::Idle);
    }
    for p in [FlightPhase::Ascent, FlightPhase::Hover, FlightPhase::Descent] {
        assert_eq!(control_action(p, true), ControlAction::RunController);
        assert_eq!(control_action(p, false), ControlAction::Idle);
    }
}

#[test]
fn guidance_by_phase() {
    assert_eq!(guidance_action(FlightPhase::Standby, false), GuidanceAction::PlanAscent);
    assert_eq!(guidance_action(FlightPhase::Armed, true), GuidanceAction::Keep);
    assert_eq!(guidance_action(FlightPhase::Ascent, true), GuidanceAction::PlanAscent);
    assert_eq!(guidance_action(FlightPhase::Hover, true), GuidanceAction::Clear);
    assert_eq!(guidance_action(FlightPhase::Descent, false), GuidanceAction::PlanDescent);
    assert_eq!(guidance_action(FlightPhase::Landed, true), GuidanceAction::Clear);
}

#[test]
fn mass_model_by_phase() {
    assert_eq!(mass_update(FlightPhase::Standby, true), MassUpdate::ResetToWet);
    assert_eq!(mass_update(FlightPhase::Armed, false), MassUpdate::ResetToWet);
    assert_eq!(mass_update(FlightPhase::Ascent, true), MassUpdate::Deplete);
    assert_eq!(mass_update(FlightPhase::Ascent, false), MassUpdate::Hold);
    assert_eq!(mass_update(FlightPhase::Landed, true), MassUpdate::Hold);
    let s = launched();
    assert_eq!(s.mass_update(true), MassUpdate::Deplete);
}

#[test]
fn transition_hook_sets_phase() {
    let mut s = FlightSupervisor::<u32>::new();
    s.on_transition(PhaseDecision {
        target: FlightPhase::Hover,
        restart_phase_clock: true,
        emergency_landing: false,
    });
    assert_eq!(s.phase(), FlightPhase::Hover);
}
