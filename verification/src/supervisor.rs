//! The flight supervisor: the discrete state of the flight state machine
//! (phase, termination, active trajectory) and the decisions of one control
//! step. The numeric work (estimation, guidance, model-predictive control)
//! is done by the caller, which hands in what it observed and carries out
//! the actions returned here.
use vstd::prelude::*;
use crate::phase::{
    FlightPhase, PhaseDecision, PhaseObservations, next_phase, next_phase_spec, is_prelaunch,
    is_ground_phase, after_arm, after_disarm, after_launch, mission_order,
};
use crate::safety::{
    TerminationCause, TerminationObservations, termination_cause, termination_cause_spec,
};

verus! {

/// What the guidance planner does when its slot (1 Hz) comes up.
#[derive(Debug, Clone, Copy, PartialEq, Eq, Structural)]
pub enum GuidanceAction {
    /// Keep the trajectory that is already planned.
    Keep,
    /// Plan a trajectory from the current state to the ascent goal.
    PlanAscent,
    /// Plan a trajectory from the current state to the landing pad.
    PlanDescent,
    /// Drop the active trajectory.
    Clear,
}

/// What became of the active trajectory after a guidance action.
#[derive(Debug, Clone, Copy, PartialEq, Eq, Structural)]
pub enum GuidanceOutcome {
    /// Nothing was planned; the trajectory is as it was.
    Unchanged,
    /// A new trajectory replaced the active one.
    Regenerated,
    /// Planning failed; the last valid trajectory stays active.
    RegenerationFailed,
    /// The active trajectory was dropped.
    Cleared,
}

/// What the actuator path does this step.
#[derive(Debug, Clone, Copy, PartialEq, Eq, Structural)]
pub enum ControlAction {
    /// Nothing is due: no control output this step.
    Idle,
    /// A control slot on the ground: zero gimbal and zero thrust.
    ZeroOutput,
    /// A control slot in flight: run the model-predictive controller.
    RunController,
}

/// How the vehicle mass estimate is updated this step.
#[derive(Debug, Clone, Copy, PartialEq, Eq, Structural)]
pub enum MassUpdate {
    /// On the pad: the mass is reset to the fully fuelled mass.
    ResetToWet,
    /// In flight, on a sensor-fusion tick: propellant is depleted by the commanded thrust.
    Deplete,
    /// Nothing changes.
    Hold,
}

/// What the caller observed this step, after the sensor-fusion update.
#[derive(Debug, Clone, Copy, PartialEq, Eq, Structural)]
pub struct StepObservations {
    pub termination: TerminationObservations,
    pub phase: PhaseObservations,
    /// The guidance slot (1 Hz) is due.
    pub guidance_due: bool,
    /// The control slot (50 Hz) is due.
    pub controller_due: bool,
}

/// The actions of a step that goes on.
#[derive(Debug, Clone, Copy, PartialEq, Eq, Structural)]
pub struct StepActions {
    /// The phase before the transition.
    pub previous_phase: FlightPhase,
    /// The transition that was applied.
    pub transition: PhaseDecision,
    /// The guidance action, when its slot came up.
    pub guidance: Option<GuidanceAction>,
    /// The control action.
    pub control: ControlAction,
}

/// The plan of one control step.
#[derive(Debug, Clone, Copy, PartialEq, Eq, Structural)]
pub enum StepPlan {
    /// The flight was terminated earlier: nothing runs.
    Halted,
    /// The flight is terminated now, for this cause.
    Terminate(TerminationCause),
    /// The step goes on with these actions.
    Proceed(StepActions),
}

/// The discrete state of the flight state machine.
#[derive(Debug, Clone)]
pub struct FlightSupervisor<T> {
    phase: FlightPhase,
    terminated: bool,
    termination: Option<TerminationCause>,
    trajectory: Option<T>,
}

/// The model of a supervisor.
pub struct SupervisorView<T> {
    pub phase: FlightPhase,
    pub terminated: bool,
    pub termination: Option<TerminationCause>,
    pub trajectory: Option<T>,
}

impl<T> View for FlightSupervisor<T> {
    type V = SupervisorView<T>;

    closed spec fn view(&self) -> SupervisorView<T> {
        SupervisorView {
            phase: self.phase,
            terminated: self.terminated,
            termination: self.termination,
            trajectory: self.trajectory,
        }
    }
}

/// The guidance action for a phase, given whether a trajectory is active.
pub open spec fn guidance_action_spec(p: FlightPhase, has_trajectory: bool) -> GuidanceAction {
    match p {
        FlightPhase::Standby | FlightPhase::Armed => if has_trajectory {
            GuidanceAction::Keep
        } else {
            GuidanceAction::PlanAscent
        },
        FlightPhase::Ascent => GuidanceAction::PlanAscent,
        FlightPhase::Hover => GuidanceAction::Clear,
        FlightPhase::Descent => GuidanceAction::PlanDescent,
        FlightPhase::Landed => GuidanceAction::Clear,
    }
}

/// The control action for a phase, given whether the control slot is due.
pub open spec fn control_action_spec(p: FlightPhase, due: bool) -> ControlAction {
    if !due {
        ControlAction::Idle
    } else if is_ground_phase(p) {
        ControlAction::ZeroOutput
    } else {
        ControlAction::RunController
    }
}

/// The mass update for a phase, given whether sensor fusion ran this step.
pub open spec fn mass_update_spec(p: FlightPhase, fusion_due: bool) -> MassUpdate {
    if is_prelaunch(p) {
        MassUpdate::ResetToWet
    } else if p != FlightPhase::Landed && fusion_due {
        MassUpdate::Deplete
    } else {
        MassUpdate::Hold
    }
}

/// The actions of a step that goes on from phase `p`.
pub open spec fn step_actions_spec(
    p: FlightPhase,
    has_trajectory: bool,
    obs: StepObservations,
) -> StepActions {
    let d = next_phase_spec(p, obs.phase);
    StepActions {
        previous_phase: p,
        transition: d,
        guidance: if obs.guidance_due {
            Some(guidance_action_spec(d.target, has_trajectory))
        } else {
            None
        },
        control: control_action_spec(d.target, obs.controller_due),
    }
}

/// One control step: the plan and the supervisor state after it.
pub open spec fn step_spec<T>(v: SupervisorView<T>, obs: StepObservations) -> (
    StepPlan,
    SupervisorView<T>,
) {
    if v.terminated {
        (StepPlan::Halted, v)
    } else {
        match termination_cause_spec(obs.termination, v.trajectory is Some) {
            Some(c) => (
                StepPlan::Terminate(c),
                SupervisorView { terminated: true, termination: Some(c), ..v },
            ),
            None => {
                let a = step_actions_spec(v.phase, v.trajectory is Some, obs);
                (StepPlan::Proceed(a), SupervisorView { phase: a.transition.target, ..v })
            },
        }
    }
}

/// The trajectory after a guidance action and what the planner returned.
pub open spec fn guidance_result_spec<T>(
    action: GuidanceAction,
    trajectory: Option<T>,
    plan: Option<T>,
) -> (GuidanceOutcome, Option<T>) {
    match action {
        GuidanceAction::Keep => (GuidanceOutcome::Unchanged, trajectory),
        GuidanceAction::Clear => (GuidanceOutcome::Cleared, None),
        _ => match plan {
            Some(t) => (GuidanceOutcome::Regenerated, Some(t)),
            None => (GuidanceOutcome::RegenerationFailed, trajectory),
        },
    }
}

/// An event in the life of the supervisor: an operator command, a control
/// step, or the completion of a guidance action.
pub enum SupervisorEvent<T> {
    Initialize,
    Arm,
    Disarm,
    Launch,
    Step(StepObservations),
    Guidance(GuidanceAction, Option<T>),
}

/// The supervisor after one event.
pub open spec fn apply_event<T>(v: SupervisorView<T>, e: SupervisorEvent<T>) -> SupervisorView<T> {
    match e {
        SupervisorEvent::Initialize => SupervisorView {
            phase: FlightPhase::Standby,
            terminated: false,
            ..v
        },
        SupervisorEvent::Arm => SupervisorView { phase: after_arm(v.phase), ..v },
        SupervisorEvent::Disarm => SupervisorView { phase: after_disarm(v.phase), ..v },
        SupervisorEvent::Launch => SupervisorView { phase: after_launch(v.phase), ..v },
        SupervisorEvent::Step(obs) => step_spec(v, obs).1,
        SupervisorEvent::Guidance(action, plan) => SupervisorView {
            trajectory: guidance_result_spec(action, v.trajectory, plan).1,
            ..v
        },
    }
}

/// The supervisor after a sequence of events, applied in order.
pub open spec fn run_events<T>(v: SupervisorView<T>, events: Seq<SupervisorEvent<T>>) -> SupervisorView<
    T,
>
    decreases events.len(),
{
    if events.len() == 0 {
        v
    } else {
        run_events(apply_event(v, events[0]), events.subrange(1, events.len() as int))
    }
}

/// No event of the sequence re-initializes the supervisor.
pub open spec fn no_initialize<T>(events: Seq<SupervisorEvent<T>>) -> bool {
    forall|i: int| 0 <= i < events.len() ==> !(#[trigger] events[i] is Initialize)
}

/// No event of the sequence is a launch command.
pub open spec fn no_launch<T>(events: Seq<SupervisorEvent<T>>) -> bool {
    forall|i: int| 0 <= i < events.len() ==> !(#[trigger] events[i] is Launch)
}

/// Chooses the guidance action for a phase.
pub fn guidance_action(p: FlightPhase, has_trajectory: bool) -> (r: GuidanceAction)
    ensures
        r == guidance_action_spec(p, has_trajectory),
        (p == FlightPhase::Standby || p == FlightPhase::Armed) && has_trajectory ==> r
            == GuidanceAction::Keep,
        (p == FlightPhase::Standby || p == FlightPhase::Armed) && !has_trajectory ==> r
            == GuidanceAction::PlanAscent,
        p == FlightPhase::Ascent ==> r == GuidanceAction::PlanAscent,
        p == FlightPhase::Descent ==> r == GuidanceAction::PlanDescent,
        (p == FlightPhase::Hover || p == FlightPhase::Landed) ==> r == GuidanceAction::Clear,
{
    match p {
        FlightPhase::Standby | FlightPhase::Armed => if has_trajectory {
            GuidanceAction::Keep
        } else {
            GuidanceAction::PlanAscent
        },
        FlightPhase::Ascent => GuidanceAction::PlanAscent,
        FlightPhase::Hover => GuidanceAction::Clear,
        FlightPhase::Descent => GuidanceAction::PlanDescent,
        FlightPhase::Landed => GuidanceAction::Clear,
    }
}

/// Chooses the control action for a phase: on the ground a due slot gives a
/// zero output, in flight it runs the controller.
pub fn control_action(p: FlightPhase, due: bool) -> (r: ControlAction)
    ensures
        r == control_action_spec(p, due),
        !due ==> r == ControlAction::Idle,
        due && (p == FlightPhase::Standby || p == FlightPhase::Armed || p == FlightPhase::Landed)
            ==> r == ControlAction::ZeroOutput,
        due && (p == FlightPhase::Ascent || p == FlightPhase::Hover || p == FlightPhase::Descent)
            ==> r == ControlAction::RunController,
{
    if !due {
        ControlAction::Idle
    } else if p.is_ground_phase() {
        ControlAction::ZeroOutput
    } else {
        ControlAction::RunController
    }
}

/// Chooses how the mass estimate is updated.
pub fn mass_update(p: FlightPhase, fusion_due: bool) -> (r: MassUpdate)
    ensures
        r == mass_update_spec(p, fusion_due),
        (p == FlightPhase::Standby || p == FlightPhase::Armed) ==> r == MassUpdate::ResetToWet,
        (p == FlightPhase::Ascent || p == FlightPhase::Hover || p == FlightPhase::Descent)
            && fusion_due ==> r == MassUpdate::Deplete,
        (p == FlightPhase::Ascent || p == FlightPhase::Hover || p == FlightPhase::Descent)
            && !fusion_due ==> r == MassUpdate::Hold,
        p == FlightPhase::Landed ==> r == MassUpdate::Hold,
{
    if p.is_prelaunch() {
        MassUpdate::ResetToWet
    } else if p != FlightPhase::Landed && fusion_due {
        MassUpdate::Deplete
    } else {
        MassUpdate::Hold
    }
}

impl<T> FlightSupervisor<T> {
    /// A supervisor on the pad in `Standby`, not terminated, with no trajectory.
    pub fn new() -> (s: Self)
        ensures
            s@.phase == FlightPhase::Standby,
            !s@.terminated,
            s@.termination is None,
            s@.trajectory is None,
    {
        FlightSupervisor {
            phase: FlightPhase::Standby,
            terminated: false,
            termination: None,
            trajectory: None,
        }
    }

    /// Puts the state machine back in `Standby` and clears the termination flag.
    /// The recorded termination cause and the trajectory are kept.
    pub fn initialize(&mut self)
        ensures
            final(self)@ == apply_event(old(self)@, SupervisorEvent::Initialize),
            final(self)@.phase == FlightPhase::Standby,
            !final(self)@.terminated,
            final(self)@.termination == old(self)@.termination,
            final(self)@.trajectory == old(self)@.trajectory,
    {
        self.phase = FlightPhase::Standby;
        self.terminated = false;
    }

    /// The current flight phase.
    pub fn phase(&self) -> (p: FlightPhase)
        ensures
            p == self@.phase,
    {
        self.phase
    }

    /// Whether the flight has been terminated.
    pub fn is_terminated(&self) -> (b: bool)
        ensures
            b == self@.terminated,
    {
        self.terminated
    }

    /// The cause of the last termination, if there was one.
    pub fn termination(&self) -> (c: Option<TerminationCause>)
        ensures
            c == self@.termination,
    {
        self.termination
    }

    /// The active trajectory.
    pub fn trajectory(&self) -> (t: &Option<T>)
        ensures
            *t == self@.trajectory,
    {
        &self.trajectory
    }

    /// Whether the vehicle is still on the pad before liftoff.
    pub fn in_prelaunch(&self) -> (b: bool)
        ensures
            b == is_prelaunch(self@.phase),
    {
        self.phase.is_prelaunch()
    }

    /// The mass update of this step, decided on the phase before the transition.
    pub fn mass_update(&self, fusion_due: bool) -> (r: MassUpdate)
        ensures
            r == mass_update_spec(self@.phase, fusion_due),
            is_prelaunch(self@.phase) ==> r == MassUpdate::ResetToWet,
            !is_prelaunch(self@.phase) && self@.phase != FlightPhase::Landed && fusion_due ==> r
                == MassUpdate::Deplete,
            !(is_prelaunch(self@.phase)) && !(self@.phase != FlightPhase::Landed && fusion_due)
                ==> r == MassUpdate::Hold,
    {
        mass_update(self.phase, fusion_due)
    }

    /// The operator's `arm` command: `Standby` becomes `Armed`; any other phase
    /// stays. Returns whether the phase changed.
    pub fn arm(&mut self) -> (changed: bool)
        ensures
            final(self)@ == apply_event(old(self)@, SupervisorEvent::Arm),
            final(self)@.phase == after_arm(old(self)@.phase),
            changed == (old(self)@.phase == FlightPhase::Standby),
            changed ==> final(self)@.phase == FlightPhase::Armed,
            !changed ==> final(self)@.phase == old(self)@.phase,
            final(self)@.terminated == old(self)@.terminated,
            final(self)@.termination == old(self)@.termination,
            final(self)@.trajectory == old(self)@.trajectory,
    {
        let changed = self.phase == FlightPhase::Standby;
        self.phase = self.phase.armed();
        changed
    }

    /// The operator's `disarm` command: `Armed` becomes `Standby`; any other
    /// phase stays. Returns whether the phase changed.
    pub fn disarm(&mut self) -> (changed: bool)
        ensures
            final(self)@ == apply_event(old(self)@, SupervisorEvent::Disarm),
            final(self)@.phase == after_disarm(old(self)@.phase),
            changed == (old(self)@.phase == FlightPhase::Armed),
            changed ==> final(self)@.phase == FlightPhase::Standby,
            !changed ==> final(self)@.phase == old(self)@.phase,
            final(self)@.terminated == old(self)@.terminated,
            final(self)@.termination == old(self)@.termination,
            final(self)@.trajectory == old(self)@.trajectory,
    {
        let changed = self.phase == FlightPhase::Armed;
        self.phase = self.phase.disarmed();
        changed
    }

    /// The operator's `launch` command: `Armed` becomes `Ascent`; any other
    /// phase stays. Returns whether the phase changed.
    pub fn launch(&mut self) -> (changed: bool)
        ensures
            final(self)@ == apply_event(old(self)@, SupervisorEvent::Launch),
            final(self)@.phase == after_launch(old(self)@.phase),
            changed == (old(self)@.phase == FlightPhase::Armed),
            changed ==> final(self)@.phase == FlightPhase::Ascent,
            !changed ==> final(self)@.phase == old(self)@.phase,
            final(self)@.terminated == old(self)@.terminated,
            final(self)@.termination == old(self)@.termination,
            final(self)@.trajectory == old(self)@.trajectory,
    {
        let changed = self.phase == FlightPhase::Armed;
        self.phase = self.phase.launched();
        changed
    }

    /// The transition hook: enters the phase that the path determination chose.
    pub fn on_transition(&mut self, d: PhaseDecision)
        ensures
            final(self)@.phase == d.target,
            final(self)@.terminated == old(self)@.terminated,
            final(self)@.termination == old(self)@.termination,
            final(self)@.trajectory == old(self)@.trajectory,
    {
        self.phase = d.target;
    }

    /// Plans one control step from what was observed after the sensor-fusion
    /// update: the termination check first, then the phase transition, then the
    /// guidance and control actions of the new phase.
    pub fn plan_step(&mut self, obs: &StepObservations) -> (r: StepPlan)
        ensures
            (r, final(self)@) == step_spec(old(self)@, *obs),
            final(self)@ == apply_event(old(self)@, SupervisorEvent::Step(*obs)),
            old(self)@.terminated ==> r == StepPlan::Halted && final(self)@ == old(self)@,
            !old(self)@.terminated && termination_cause_spec(
                obs.termination,
                old(self)@.trajectory is Some,
            ) is Some ==> {
                &&& r == StepPlan::Terminate(
                    termination_cause_spec(obs.termination, old(self)@.trajectory is Some)->0,
                )
                &&& final(self)@.terminated
                &&& final(self)@.termination == termination_cause_spec(
                    obs.termination,
                    old(self)@.trajectory is Some,
                )
                &&& final(self)@.phase == old(self)@.phase
                &&& final(self)@.trajectory == old(self)@.trajectory
            },
            !old(self)@.terminated && termination_cause_spec(
                obs.termination,
                old(self)@.trajectory is Some,
            ) is None ==> {
                &&& r is Proceed
                &&& r->Proceed_0.previous_phase == old(self)@.phase
                &&& r->Proceed_0.transition == next_phase_spec(old(self)@.phase, obs.phase)
                &&& final(self)@.phase == r->Proceed_0.transition.target
                &&& !final(self)@.terminated
                &&& final(self)@.termination == old(self)@.termination
                &&& final(self)@.trajectory == old(self)@.trajectory
                &&& (r->Proceed_0.guidance is Some <==> obs.guidance_due)
                &&& (obs.guidance_due ==> r->Proceed_0.guidance == Some(
                    guidance_action_spec(
                        r->Proceed_0.transition.target,
                        old(self)@.trajectory is Some,
                    ),
                ))
                &&& r->Proceed_0.control == control_action_spec(
                    r->Proceed_0.transition.target,
                    obs.controller_due,
                )
            },
    {
        if self.terminated {
            return StepPlan::Halted;
        }
        match termination_cause(&obs.termination, self.trajectory.is_some()) {
            Some(c) => {
                self.terminated = true;
                self.termination = Some(c);
                StepPlan::Terminate(c)
            },
            None => {
                let previous_phase = self.phase;
                let d = next_phase(previous_phase, &obs.phase);
                self.on_transition(d);
                let guidance = if obs.guidance_due {
                    Some(guidance_action(d.target, self.trajectory.is_some()))
                } else {
                    None
                };
                let control = control_action(d.target, obs.controller_due);
                StepPlan::Proceed(StepActions { previous_phase, transition: d, guidance, control })
            },
        }
    }

    /// Carries out the end of a guidance action with what the planner returned
    /// (`plan` is read only for `PlanAscent` and `PlanDescent`). A failed plan
    /// keeps the last valid trajectory.
    pub fn complete_guidance(&mut self, action: GuidanceAction, plan: Option<T>) -> (r:
        GuidanceOutcome)
        ensures
            (r, final(self)@.trajectory) == guidance_result_spec(
                action,
                old(self)@.trajectory,
                plan,
            ),
            final(self)@ == apply_event(old(self)@, SupervisorEvent::Guidance(action, plan)),
            action == GuidanceAction::Keep ==> r == GuidanceOutcome::Unchanged
                && final(self)@.trajectory == old(self)@.trajectory,
            action == GuidanceAction::Clear ==> r == GuidanceOutcome::Cleared
                && final(self)@.trajectory is None,
            (action == GuidanceAction::PlanAscent || action == GuidanceAction::PlanDescent)
                && plan is Some ==> r == GuidanceOutcome::Regenerated && final(self)@.trajectory
                == plan,
            (action == GuidanceAction::PlanAscent || action == GuidanceAction::PlanDescent)
                && plan is None ==> r == GuidanceOutcome::RegenerationFailed
                && final(self)@.trajectory == old(self)@.trajectory,
            final(self)@.phase == old(self)@.phase,
            final(self)@.terminated == old(self)@.terminated,
            final(self)@.termination == old(self)@.termination,
    {
        match action {
            GuidanceAction::Keep => GuidanceOutcome::Unchanged,
            GuidanceAction::Clear => {
                self.trajectory = None;
                GuidanceOutcome::Cleared
            },
            _ => match plan {
                Some(t) => {
                    self.trajectory = Some(t);
                    GuidanceOutcome::Regenerated
                },
                None => GuidanceOutcome::RegenerationFailed,
            },
        }
    }
}

/// A terminated flight stays terminated: every later step is halted and
/// leaves the supervisor as it is.
pub proof fn lemma_termination_is_absorbing<T>(v: SupervisorView<T>, obs: StepObservations)
    requires
        v.terminated,
    ensures
        step_spec(v, obs) == (StepPlan::Halted, v),
{
}

/// A step that terminates the flight changes no phase and runs nothing else.
pub proof fn lemma_termination_preempts_step<T>(v: SupervisorView<T>, obs: StepObservations)
    requires
        !v.terminated,
        termination_cause_spec(obs.termination, v.trajectory is Some) is Some,
    ensures
        step_spec(v, obs).0 == StepPlan::Terminate(
            termination_cause_spec(obs.termination, v.trajectory is Some)->0,
        ),
        step_spec(v, obs).1.phase == v.phase,
        step_spec(v, obs).1.terminated,
{
}

/// On the ground (before liftoff and after touchdown) the controller never
/// runs: a due control slot gives a zero output.
pub proof fn lemma_ground_phases_never_run_controller<T>(
    v: SupervisorView<T>,
    obs: StepObservations,
)
    requires
        step_spec(v, obs).0 is Proceed,
        is_ground_phase(step_spec(v, obs).1.phase),
    ensures
        (step_spec(v, obs).0)->Proceed_0.control != ControlAction::RunController,
        obs.controller_due ==> (step_spec(v, obs).0)->Proceed_0.control
            == ControlAction::ZeroOutput,
{
}

/// A step never brings the vehicle back along the mission, and a step taken
/// on the pad never leaves it: only operator commands do.
pub proof fn lemma_steps_move_forward<T>(v: SupervisorView<T>, obs: StepObservations)
    ensures
        mission_order(v.phase) <= mission_order(step_spec(v, obs).1.phase),
        is_prelaunch(v.phase) ==> step_spec(v, obs).1.phase == v.phase,
        step_spec(v, obs).1.trajectory == v.trajectory,
{
}

/// A failed regeneration falls back to the last valid trajectory, and a
/// successful one replaces it.
pub proof fn lemma_failed_plan_keeps_trajectory<T>(
    action: GuidanceAction,
    trajectory: Option<T>,
    plan: Option<T>,
)
    requires
        action == GuidanceAction::PlanAscent || action == GuidanceAction::PlanDescent,
    ensures
        plan is None ==> guidance_result_spec(action, trajectory, plan) == (
            GuidanceOutcome::RegenerationFailed,
            trajectory,
        ),
        plan is Some ==> guidance_result_spec(action, trajectory, plan).1 == plan,
{
}

/// On the pad a trajectory is planned only while none is active; in flight
/// the ascent and descent plans are regenerated at every guidance slot, and
/// `Hover` and `Landed` drop the trajectory.
pub proof fn lemma_guidance_by_phase(p: FlightPhase, has_trajectory: bool)
    ensures
        is_prelaunch(p) ==> (guidance_action_spec(p, has_trajectory) == GuidanceAction::Keep
            <==> has_trajectory),
        p == FlightPhase::Ascent ==> guidance_action_spec(p, has_trajectory)
            == GuidanceAction::PlanAscent,
        p == FlightPhase::Descent ==> guidance_action_spec(p, has_trajectory)
            == GuidanceAction::PlanDescent,
        (p == FlightPhase::Hover || p == FlightPhase::Landed) ==> guidance_action_spec(
            p,
            has_trajectory,
        ) == GuidanceAction::Clear,
{
}

/// Only the operator's launch command takes the vehicle off the pad: from a
/// pad phase, any sequence of events without a launch leaves it on the pad.
pub proof fn lemma_pad_without_launch<T>(v: SupervisorView<T>, events: Seq<SupervisorEvent<T>>)
    requires
        is_prelaunch(v.phase),
        no_launch(events),
    ensures
        is_prelaunch(run_events(v, events).phase),
    decreases events.len(),
{
    if events.len() > 0 {
        let rest = events.subrange(1, events.len() as int);
        assert(!(events[0] is Launch));
        assert forall|i: int| 0 <= i < rest.len() implies !(#[trigger] rest[i] is Launch) by {
            assert(rest[i] == events[i + 1]);
        }
        lemma_pad_without_launch(apply_event(v, events[0]), rest);
    }
}

/// Without a re-initialization, a terminated flight stays terminated through
/// any sequence of events, and every step taken is halted.
pub proof fn lemma_termination_persists<T>(v: SupervisorView<T>, events: Seq<SupervisorEvent<T>>)
    requires
        v.terminated,
        no_initialize(events),
    ensures
        run_events(v, events).terminated,
        run_events(v, events).termination == v.termination,
    decreases events.len(),
{
    if events.len() > 0 {
        let rest = events.subrange(1, events.len() as int);
        assert(!(events[0] is Initialize));
        assert forall|i: int| 0 <= i < rest.len() implies !(#[trigger] rest[i] is Initialize) by {
            assert(rest[i] == events[i + 1]);
        }
        lemma_termination_persists(apply_event(v, events[0]), rest);
    }
}

/// Without a re-initialization, a launched vehicle never comes back to a pad
/// phase and only moves forward along the mission; once `Landed`, it stays.
pub proof fn lemma_mission_moves_forward<T>(v: SupervisorView<T>, events: Seq<SupervisorEvent<T>>)
    requires
        !is_prelaunch(v.phase),
        no_initialize(events),
    ensures
        !is_prelaunch(run_events(v, events).phase),
        mission_order(v.phase) <= mission_order(run_events(v, events).phase),
        v.phase == FlightPhase::Landed ==> run_events(v, events).phase == FlightPhase::Landed,
    decreases events.len(),
{
    if events.len() > 0 {
        let rest = events.subrange(1, events.len() as int);
        assert(!(events[0] is Initialize));
        assert forall|i: int| 0 <= i < rest.len() implies !(#[trigger] rest[i] is Initialize) by {
            assert(rest[i] == events[i + 1]);
        }
        lemma_mission_moves_forward(apply_event(v, events[0]), rest);
    }
}

/// The per-phase decisions of a step. Mass: reset on the pad, depleted on
/// every sensor-fusion tick in `Ascent`, `Hover` and `Descent`, held
/// otherwise. Control: idle when not due; a due slot zeroes the output on the
/// ground and runs the controller in `Ascent`, `Hover` and `Descent`.
/// Guidance: on the pad plan the ascent only when no trajectory is active;
/// re-plan the ascent in `Ascent` and the descent in `Descent`; drop the
/// trajectory in `Hover` and `Landed`.
pub proof fn lemma_step_decisions_by_phase(p: FlightPhase, due: bool, has_trajectory: bool)
    ensures
        is_prelaunch(p) ==> mass_update_spec(p, due) == MassUpdate::ResetToWet,
        !is_prelaunch(p) && p != FlightPhase::Landed && due ==> mass_update_spec(p, due)
            == MassUpdate::Deplete,
        !is_prelaunch(p) && !due ==> mass_update_spec(p, due) == MassUpdate::Hold,
        mass_update_spec(FlightPhase::Landed, due) == MassUpdate::Hold,
        !due ==> control_action_spec(p, due) == ControlAction::Idle,
        due && is_ground_phase(p) ==> control_action_spec(p, due) == ControlAction::ZeroOutput,
        due && !is_ground_phase(p) ==> control_action_spec(p, due) == ControlAction::RunController,
        is_prelaunch(p) ==> guidance_action_spec(p, has_trajectory) == (if has_trajectory {
            GuidanceAction::Keep
        } else {
            GuidanceAction::PlanAscent
        }),
        p == FlightPhase::Ascent ==> guidance_action_spec(p, has_trajectory)
            == GuidanceAction::PlanAscent,
        p == FlightPhase::Descent ==> guidance_action_spec(p, has_trajectory)
            == GuidanceAction::PlanDescent,
        (p == FlightPhase::Hover || p == FlightPhase::Landed) ==> guidance_action_spec(
            p,
            has_trajectory,
        ) == GuidanceAction::Clear,
{
}

/// Mass depletion in flight: in every phase between liftoff and touchdown, a
/// sensor-fusion tick depletes propellant, and without a tick nothing is
/// depleted.
pub proof fn lemma_mass_depletes_throughout_flight(p: FlightPhase, fusion_due: bool)
    requires
        p == FlightPhase::Ascent || p == FlightPhase::Hover || p == FlightPhase::Descent,
    ensures
        fusion_due <==> mass_update_spec(p, fusion_due) == MassUpdate::Deplete,
        !fusion_due ==> mass_update_spec(p, fusion_due) == MassUpdate::Hold,
{
}

/// The guidance result, action by action: `Keep` leaves the trajectory,
/// `Clear` drops it, a plan that succeeded replaces it and one that failed
/// leaves it.
pub proof fn lemma_guidance_result_by_action<T>(
    action: GuidanceAction,
    trajectory: Option<T>,
    plan: Option<T>,
)
    ensures
        action == GuidanceAction::Keep ==> guidance_result_spec(action, trajectory, plan) == (
            GuidanceOutcome::Unchanged,
            trajectory,
        ),
        action == GuidanceAction::Clear ==> guidance_result_spec(action, trajectory, plan).1
            is None,
        action != GuidanceAction::Keep && action != GuidanceAction::Clear && plan is Some
            ==> guidance_result_spec(action, trajectory, plan) == (
            GuidanceOutcome::Regenerated,
            plan,
        ),
        action != GuidanceAction::Keep && action != GuidanceAction::Clear && plan is None
            ==> guidance_result_spec(action, trajectory, plan) == (
            GuidanceOutcome::RegenerationFailed,
            trajectory,
        ),
{
}

} // verus!
