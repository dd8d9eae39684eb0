//! Flight phases, the operator commands that move the vehicle on the pad,
//! and the autonomous phase logic that runs once the vehicle has launched.
use vstd::prelude::*;

verus! {

/// The discrete phases of a flight, from the launch pad to touchdown.
#[derive(Debug, Clone, Copy, PartialEq, Eq, Structural)]
pub enum FlightPhase {
    /// Resting on the pad; thrust locked to zero; awaiting the arm command.
    Standby,
    /// Safety interlocks removed; awaiting the launch command.
    Armed,
    /// Powered climb towards the target altitude.
    Ascent,
    /// Holding the target position.
    Hover,
    /// Guided, decelerating descent back to the pad.
    Descent,
    /// Touchdown detected; controls zeroed.
    Landed,
}

/// Phases in which the vehicle sits on the pad before liftoff.
pub open spec fn is_prelaunch(p: FlightPhase) -> bool {
    p == FlightPhase::Standby || p == FlightPhase::Armed
}

/// Phases in which the engine is not commanded: before liftoff and after touchdown.
pub open spec fn is_ground_phase(p: FlightPhase) -> bool {
    is_prelaunch(p) || p == FlightPhase::Landed
}

/// Position of a phase along the mission: pad phases first, touchdown last.
pub open spec fn mission_order(p: FlightPhase) -> int {
    match p {
        FlightPhase::Standby => 0,
        FlightPhase::Armed => 1,
        FlightPhase::Ascent => 2,
        FlightPhase::Hover => 3,
        FlightPhase::Descent => 4,
        FlightPhase::Landed => 5,
    }
}

/// The phase after an `arm` command: `Standby` becomes `Armed`, every other phase stays.
pub open spec fn after_arm(p: FlightPhase) -> FlightPhase {
    if p == FlightPhase::Standby { FlightPhase::Armed } else { p }
}

/// The phase after a `disarm` command: `Armed` becomes `Standby`, every other phase stays.
pub open spec fn after_disarm(p: FlightPhase) -> FlightPhase {
    if p == FlightPhase::Armed { FlightPhase::Standby } else { p }
}

/// The phase after a `launch` command: `Armed` becomes `Ascent`, every other phase stays.
pub open spec fn after_launch(p: FlightPhase) -> FlightPhase {
    if p == FlightPhase::Armed { FlightPhase::Ascent } else { p }
}

/// The edges that an operator command may take.
pub open spec fn is_command_edge(from: FlightPhase, to: FlightPhase) -> bool {
    ||| from == to
    ||| from == FlightPhase::Standby && to == FlightPhase::Armed
    ||| from == FlightPhase::Armed && to == FlightPhase::Standby
    ||| from == FlightPhase::Armed && to == FlightPhase::Ascent
}

/// The edges that the autonomous phase logic may take.
pub open spec fn is_autonomous_edge(from: FlightPhase, to: FlightPhase) -> bool {
    ||| from == to
    ||| from == FlightPhase::Ascent && to == FlightPhase::Hover
    ||| from == FlightPhase::Ascent && to == FlightPhase::Descent
    ||| from == FlightPhase::Hover && to == FlightPhase::Descent
    ||| from == FlightPhase::Descent && to == FlightPhase::Landed
}

impl FlightPhase {
    /// Whether this phase is `Standby` or `Armed`.
    pub fn is_prelaunch(&self) -> (r: bool)
        ensures
            r == is_prelaunch(*self),
            r <==> (*self == FlightPhase::Standby || *self == FlightPhase::Armed),
    {
        match self {
            FlightPhase::Standby | FlightPhase::Armed => true,
            _ => false,
        }
    }

    /// Whether this phase is one in which no thrust is commanded.
    pub fn is_ground_phase(&self) -> (r: bool)
        ensures
            r == is_ground_phase(*self),
            r <==> (*self == FlightPhase::Standby || *self == FlightPhase::Armed || *self
                == FlightPhase::Landed),
    {
        match self {
            FlightPhase::Standby | FlightPhase::Armed | FlightPhase::Landed => true,
            _ => false,
        }
    }

    /// The phase that an `arm` command leads to.
    pub fn armed(self) -> (r: FlightPhase)
        ensures
            r == after_arm(self),
            self == FlightPhase::Standby ==> r == FlightPhase::Armed,
            self != FlightPhase::Standby ==> r == self,
    {
        match self {
            FlightPhase::Standby => FlightPhase::Armed,
            other => other,
        }
    }

    /// The phase that a `disarm` command leads to.
    pub fn disarmed(self) -> (r: FlightPhase)
        ensures
            r == after_disarm(self),
            self == FlightPhase::Armed ==> r == FlightPhase::Standby,
            self != FlightPhase::Armed ==> r == self,
    {
        match self {
            FlightPhase::Armed => FlightPhase::Standby,
            other => other,
        }
    }

    /// The phase that a `launch` command leads to.
    pub fn launched(self) -> (r: FlightPhase)
        ensures
            r == after_launch(self),
            self == FlightPhase::Armed ==> r == FlightPhase::Ascent,
            self != FlightPhase::Armed ==> r == self,
    {
        match self {
            FlightPhase::Armed => FlightPhase::Ascent,
            other => other,
        }
    }
}

/// What the vehicle observes, this step, that can move it between flight phases.
/// Each flag is the outcome of a comparison on the fused vehicle state.
#[derive(Debug, Clone, Copy, PartialEq, Eq, Structural)]
pub struct PhaseObservations {
    /// A GPS/UWB fix had been received, and none for more than 5 s since.
    pub position_denied: bool,
    /// The altitude is at or above the goal altitude.
    pub at_goal_altitude: bool,
    /// At least 20 s have passed since the phase clock was last restarted.
    pub hover_time_elapsed: bool,
    /// Altitude at most 0.1 m and speed below 0.2 m/s.
    pub touched_down: bool,
}

/// The outcome of the pure path determination: the phase to enter and
/// what the transition hook has to do with it.
#[derive(Debug, Clone, Copy, PartialEq, Eq, Structural)]
pub struct PhaseDecision {
    /// The phase the vehicle is in after this step.
    pub target: FlightPhase,
    /// The phase clock (the time the current phase began) restarts now.
    pub restart_phase_clock: bool,
    /// The transition is the emergency landing on loss of absolute position.
    pub emergency_landing: bool,
}

/// A phase decision with the given target and flags.
pub open spec fn decision(target: FlightPhase, restart: bool, emergency: bool) -> PhaseDecision {
    PhaseDecision { target, restart_phase_clock: restart, emergency_landing: emergency }
}

/// The autonomous phase logic, one step, from the current phase and what was observed.
pub open spec fn next_phase_spec(p: FlightPhase, obs: PhaseObservations) -> PhaseDecision {
    if (p == FlightPhase::Ascent || p == FlightPhase::Hover) && obs.position_denied {
        decision(FlightPhase::Descent, true, true)
    } else {
        match p {
            FlightPhase::Ascent => if obs.at_goal_altitude {
                decision(FlightPhase::Hover, true, false)
            } else {
                decision(FlightPhase::Ascent, false, false)
            },
            FlightPhase::Hover => if obs.hover_time_elapsed {
                decision(FlightPhase::Descent, true, false)
            } else {
                decision(FlightPhase::Hover, false, false)
            },
            FlightPhase::Descent => if obs.touched_down {
                decision(FlightPhase::Landed, false, false)
            } else {
                decision(FlightPhase::Descent, false, false)
            },
            _ => decision(p, false, false),
        }
    }
}

/// Determines the phase the vehicle goes to from `phase`, given this step's observations.
/// In `Ascent` and `Hover`, loss of absolute position overrides every other
/// observation and starts an emergency descent.
pub fn next_phase(phase: FlightPhase, obs: &PhaseObservations) -> (d: PhaseDecision)
    ensures
        d == next_phase_spec(phase, *obs),
        is_autonomous_edge(phase, d.target),
        (phase == FlightPhase::Ascent || phase == FlightPhase::Hover) && obs.position_denied ==> (d
            == PhaseDecision {
            target: FlightPhase::Descent,
            restart_phase_clock: true,
            emergency_landing: true,
        }),
        phase == FlightPhase::Ascent && !obs.position_denied && obs.at_goal_altitude ==> (d
            == PhaseDecision {
            target: FlightPhase::Hover,
            restart_phase_clock: true,
            emergency_landing: false,
        }),
        phase == FlightPhase::Ascent && !obs.position_denied && !obs.at_goal_altitude ==> (d
            == PhaseDecision {
            target: FlightPhase::Ascent,
            restart_phase_clock: false,
            emergency_landing: false,
        }),
        phase == FlightPhase::Hover && !obs.position_denied && obs.hover_time_elapsed ==> (d
            == PhaseDecision {
            target: FlightPhase::Descent,
            restart_phase_clock: true,
            emergency_landing: false,
        }),
        phase == FlightPhase::Hover && !obs.position_denied && !obs.hover_time_elapsed ==> (d
            == PhaseDecision {
            target: FlightPhase::Hover,
            restart_phase_clock: false,
            emergency_landing: false,
        }),
        phase == FlightPhase::Descent && obs.touched_down ==> (d == PhaseDecision {
            target: FlightPhase::Landed,
            restart_phase_clock: false,
            emergency_landing: false,
        }),
        phase == FlightPhase::Descent && !obs.touched_down ==> (d == PhaseDecision {
            target: FlightPhase::Descent,
            restart_phase_clock: false,
            emergency_landing: false,
        }),
        (phase == FlightPhase::Standby || phase == FlightPhase::Armed || phase
            == FlightPhase::Landed) ==> (d == PhaseDecision {
            target: phase,
            restart_phase_clock: false,
            emergency_landing: false,
        }),
{
    if (phase == FlightPhase::Ascent || phase == FlightPhase::Hover) && obs.position_denied {
        return PhaseDecision {
            target: FlightPhase::Descent,
            restart_phase_clock: true,
            emergency_landing: true,
        };
    }
    let (target, restart) = match phase {
        FlightPhase::Ascent => if obs.at_goal_altitude {
            (FlightPhase::Hover, true)
        } else {
            (FlightPhase::Ascent, false)
        },
        FlightPhase::Hover => if obs.hover_time_elapsed {
            (FlightPhase::Descent, true)
        } else {
            (FlightPhase::Hover, false)
        },
        FlightPhase::Descent => if obs.touched_down {
            (FlightPhase::Landed, false)
        } else {
            (FlightPhase::Descent, false)
        },
        other => (other, false),
    };
    PhaseDecision { target, restart_phase_clock: restart, emergency_landing: false }
}

/// Every step of the autonomous phase logic follows an edge of the flight graph,
/// and, whatever is observed, never moves the vehicle back along the mission.
pub proof fn lemma_autonomous_steps_follow_flight_graph(p: FlightPhase, obs: PhaseObservations)
    ensures
        is_autonomous_edge(p, next_phase_spec(p, obs).target),
        mission_order(p) <= mission_order(next_phase_spec(p, obs).target),
{
}

/// Only an operator command moves the vehicle off the pad: on `Standby` and
/// `Armed` the autonomous phase logic keeps the phase and restarts no clock.
pub proof fn lemma_pad_phases_wait_for_operator(p: FlightPhase, obs: PhaseObservations)
    requires
        is_prelaunch(p),
    ensures
        next_phase_spec(p, obs) == decision(p, false, false),
{
}

/// Once launched, no operator command and no autonomous step brings the
/// vehicle back to a pad phase, and `Landed` is never left.
pub proof fn lemma_no_return_to_pad(p: FlightPhase, obs: PhaseObservations)
    requires
        !is_prelaunch(p),
    ensures
        after_arm(p) == p,
        after_disarm(p) == p,
        after_launch(p) == p,
        !is_prelaunch(next_phase_spec(p, obs).target),
        p == FlightPhase::Landed ==> next_phase_spec(p, obs).target == FlightPhase::Landed,
{
}

/// Every operator command follows a command edge.
pub proof fn lemma_commands_follow_command_graph(p: FlightPhase)
    ensures
        is_command_edge(p, after_arm(p)),
        is_command_edge(p, after_disarm(p)),
        is_command_edge(p, after_launch(p)),
{
}

/// A `disarm` undoes an `arm` given on the pad, and `launch` needs the vehicle
/// to be armed first.
pub proof fn lemma_disarm_undoes_arm()
    ensures
        after_disarm(after_arm(FlightPhase::Standby)) == FlightPhase::Standby,
        after_launch(FlightPhase::Standby) == FlightPhase::Standby,
        after_launch(after_arm(FlightPhase::Standby)) == FlightPhase::Ascent,
{
}

/// In `Ascent` and `Hover` the loss of absolute position wins over every other
/// observation: the vehicle descends, and the transition is marked as an emergency.
pub proof fn lemma_position_loss_forces_descent(p: FlightPhase, obs: PhaseObservations)
    requires
        p == FlightPhase::Ascent || p == FlightPhase::Hover,
        obs.position_denied,
    ensures
        next_phase_spec(p, obs) == decision(FlightPhase::Descent, true, true),
{
}

/// What each phase does with the observations, case by case. `Ascent` goes
/// to `Hover` exactly when the goal altitude is reached (the hover clock and
/// touchdown are not read); `Hover` goes to `Descent` exactly when the hover
/// time has elapsed; `Descent` goes to `Landed` exactly on touchdown (position
/// loss is not read there); the clock restarts on entering `Hover` and on
/// leaving it, and only an emergency is marked as one.
pub proof fn lemma_next_phase_by_phase(obs: PhaseObservations)
    ensures
        !obs.position_denied ==> next_phase_spec(FlightPhase::Ascent, obs) == (if obs.at_goal_altitude {
            PhaseDecision {
                target: FlightPhase::Hover,
                restart_phase_clock: true,
                emergency_landing: false,
            }
        } else {
            PhaseDecision {
                target: FlightPhase::Ascent,
                restart_phase_clock: false,
                emergency_landing: false,
            }
        }),
        !obs.position_denied ==> next_phase_spec(FlightPhase::Hover, obs) == (if obs.hover_time_elapsed {
            PhaseDecision {
                target: FlightPhase::Descent,
                restart_phase_clock: true,
                emergency_landing: false,
            }
        } else {
            PhaseDecision {
                target: FlightPhase::Hover,
                restart_phase_clock: false,
                emergency_landing: false,
            }
        }),
        next_phase_spec(FlightPhase::Descent, obs) == (if obs.touched_down {
            PhaseDecision {
                target: FlightPhase::Landed,
                restart_phase_clock: false,
                emergency_landing: false,
            }
        } else {
            PhaseDecision {
                target: FlightPhase::Descent,
                restart_phase_clock: false,
                emergency_landing: false,
            }
        }),
        next_phase_spec(FlightPhase::Standby, obs).target == FlightPhase::Standby,
        next_phase_spec(FlightPhase::Armed, obs).target == FlightPhase::Armed,
        next_phase_spec(FlightPhase::Landed, obs).target == FlightPhase::Landed,
{
}

/// Two observations that differ only in flags a phase does not read give the
/// same decision: `Ascent` reads only position loss and the goal altitude,
/// `Hover` only position loss and the hover clock, `Descent` only touchdown.
pub proof fn lemma_next_phase_reads_only_its_flags(o1: PhaseObservations, o2: PhaseObservations)
    ensures
        o1.position_denied == o2.position_denied && o1.at_goal_altitude == o2.at_goal_altitude
            ==> next_phase_spec(FlightPhase::Ascent, o1) == next_phase_spec(FlightPhase::Ascent, o2),
        o1.position_denied == o2.position_denied && o1.hover_time_elapsed == o2.hover_time_elapsed
            ==> next_phase_spec(FlightPhase::Hover, o1) == next_phase_spec(FlightPhase::Hover, o2),
        o1.touched_down == o2.touched_down ==> next_phase_spec(FlightPhase::Descent, o1)
            == next_phase_spec(FlightPhase::Descent, o2),
{
}

/// The operator commands, case by case: `arm` moves only `Standby` (to
/// `Armed`), `disarm` only `Armed` (to `Standby`), `launch` only `Armed` (to
/// `Ascent`).
pub proof fn lemma_commands_by_phase(p: FlightPhase)
    ensures
        after_arm(p) == (if p == FlightPhase::Standby { FlightPhase::Armed } else { p }),
        after_disarm(p) == (if p == FlightPhase::Armed { FlightPhase::Standby } else { p }),
        after_launch(p) == (if p == FlightPhase::Armed { FlightPhase::Ascent } else { p }),
        is_prelaunch(p) <==> (p == FlightPhase::Standby || p == FlightPhase::Armed),
        is_ground_phase(p) <==> (p == FlightPhase::Standby || p == FlightPhase::Armed || p
            == FlightPhase::Landed),
{
}

} // verus!
