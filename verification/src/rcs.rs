//! The switching logic of the roll reaction-control system: a bang-bang
//! controller with a hysteresis deadband, updated at a fixed rate.
use vstd::prelude::*;

verus! {

/// The command to the roll thrusters.
#[derive(Debug, Clone, Copy, PartialEq, Eq, Structural)]
pub enum RcsCommand {
    /// Fire the thrusters that roll the vehicle in the negative sense.
    FireNegative,
    /// Thrusters off.
    Off,
    /// Fire the thrusters that roll the vehicle in the positive sense.
    FirePositive,
}

/// What the roll controller reads at one call. Each flag is the outcome of a
/// comparison on the roll angle, the roll rate, the clock, or the switching
/// value `-kp * angle - kd * rate`.
#[derive(Debug, Clone, Copy, PartialEq, Eq, Structural)]
pub struct RcsObservation {
    /// The update period has elapsed since the last update.
    pub update_due: bool,
    /// The absolute roll angle exceeds the deadband exit threshold.
    pub angle_beyond_exit: bool,
    /// The absolute roll rate exceeds the deadband exit threshold.
    pub rate_beyond_exit: bool,
    /// The absolute roll angle is below the deadband entry threshold.
    pub angle_within_entry: bool,
    /// The absolute roll rate is below the deadband entry threshold.
    pub rate_within_entry: bool,
    /// The switching value exceeds the firing threshold.
    pub demand_above_threshold: bool,
    /// The switching value is below the negated firing threshold.
    pub demand_below_threshold: bool,
}

/// The discrete state of the roll controller.
#[derive(Debug, Clone, Copy, PartialEq, Eq, Structural)]
pub struct RcsLogic {
    /// Whether the controller rests in the deadband.
    pub in_deadband: bool,
    /// The command of the last update, held between updates.
    pub last_command: RcsCommand,
}

/// The deadband flag after an update: it is left when the angle or the rate
/// grows beyond the exit thresholds, and entered when both fall within the
/// entry thresholds.
pub open spec fn next_deadband(in_deadband: bool, obs: RcsObservation) -> bool {
    if in_deadband {
        !(obs.angle_beyond_exit || obs.rate_beyond_exit)
    } else {
        obs.angle_within_entry && obs.rate_within_entry
    }
}

/// The command of an update with the given deadband flag.
pub open spec fn command_spec(in_deadband: bool, obs: RcsObservation) -> RcsCommand {
    if in_deadband {
        RcsCommand::Off
    } else if obs.demand_above_threshold {
        RcsCommand::FireNegative
    } else if obs.demand_below_threshold {
        RcsCommand::FirePositive
    } else {
        RcsCommand::Off
    }
}

/// The controller after one call.
pub open spec fn rcs_step_spec(s: RcsLogic, obs: RcsObservation) -> RcsLogic {
    if obs.update_due {
        let db = next_deadband(s.in_deadband, obs);
        RcsLogic { in_deadband: db, last_command: command_spec(db, obs) }
    } else {
        s
    }
}

impl RcsLogic {
    /// Outside the deadband, thrusters off.
    pub fn new() -> (r: RcsLogic)
        ensures
            !r.in_deadband,
            r.last_command == RcsCommand::Off,
    {
        RcsLogic { in_deadband: false, last_command: RcsCommand::Off }
    }

    /// One call of the roll controller. When the update period has elapsed the
    /// deadband flag and the command are recomputed; otherwise the last
    /// command is held. Returns the command in force.
    pub fn update(&mut self, obs: &RcsObservation) -> (c: RcsCommand)
        ensures
            *final(self) == rcs_step_spec(*old(self), *obs),
            c == final(self).last_command,
            !obs.update_due ==> *final(self) == *old(self),
            obs.update_due && old(self).in_deadband && (obs.angle_beyond_exit
                || obs.rate_beyond_exit) ==> !final(self).in_deadband,
            obs.update_due && old(self).in_deadband && !obs.angle_beyond_exit
                && !obs.rate_beyond_exit ==> final(self).in_deadband,
            obs.update_due && !old(self).in_deadband ==> (final(self).in_deadband <==> (
            obs.angle_within_entry && obs.rate_within_entry)),
            obs.update_due && final(self).in_deadband ==> c == RcsCommand::Off,
            obs.update_due && !final(self).in_deadband && obs.demand_above_threshold ==> c
                == RcsCommand::FireNegative,
            obs.update_due && !final(self).in_deadband && !obs.demand_above_threshold
                && obs.demand_below_threshold ==> c == RcsCommand::FirePositive,
            obs.update_due && !final(self).in_deadband && !obs.demand_above_threshold
                && !obs.demand_below_threshold ==> c == RcsCommand::Off,
    {
        if obs.update_due {
            if self.in_deadband {
                if obs.angle_beyond_exit || obs.rate_beyond_exit {
                    self.in_deadband = false;
                }
            } else {
                if obs.angle_within_entry && obs.rate_within_entry {
                    self.in_deadband = true;
                }
            }
            self.last_command = if self.in_deadband {
                RcsCommand::Off
            } else if obs.demand_above_threshold {
                RcsCommand::FireNegative
            } else if obs.demand_below_threshold {
                RcsCommand::FirePositive
            } else {
                RcsCommand::Off
            };
        }
        self.last_command
    }
}

/// An update that leaves the controller in the deadband turns the thrusters
/// off, and between updates the command is held.
pub proof fn lemma_deadband_is_quiet(s: RcsLogic, obs: RcsObservation)
    ensures
        obs.update_due && rcs_step_spec(s, obs).in_deadband ==> rcs_step_spec(s, obs).last_command
            == RcsCommand::Off,
        !obs.update_due ==> rcs_step_spec(s, obs) == s,
{
}

/// Hysteresis: a small excursion (within the exit thresholds) does not take
/// the controller out of the deadband, and a small error (outside the entry
/// thresholds) does not take it in.
pub proof fn lemma_deadband_hysteresis(s: RcsLogic, obs: RcsObservation)
    requires
        obs.update_due,
    ensures
        s.in_deadband && !obs.angle_beyond_exit && !obs.rate_beyond_exit ==> rcs_step_spec(
            s,
            obs,
        ).in_deadband,
        !s.in_deadband && !(obs.angle_within_entry && obs.rate_within_entry) ==> !rcs_step_spec(
            s,
            obs,
        ).in_deadband,
{
}

/// Outside the deadband the thrusters oppose the switching value: a demand
/// above the threshold fires negative, one below the negated threshold
/// fires positive.
pub proof fn lemma_firing_opposes_demand(s: RcsLogic, obs: RcsObservation)
    requires
        obs.update_due,
        !rcs_step_spec(s, obs).in_deadband,
    ensures
        obs.demand_above_threshold ==> rcs_step_spec(s, obs).last_command
            == RcsCommand::FireNegative,
        !obs.demand_above_threshold && obs.demand_below_threshold ==> rcs_step_spec(
            s,
            obs,
        ).last_command == RcsCommand::FirePositive,
        !obs.demand_above_threshold && !obs.demand_below_threshold ==> rcs_step_spec(
            s,
            obs,
        ).last_command == RcsCommand::Off,
{
}

/// The deadband transitions of an update: in the deadband, the angle or the
/// rate beyond its exit threshold takes the controller out (either one alone
/// suffices), and nothing else does; outside it, the controller enters
/// exactly when both the angle and the rate are within the entry thresholds.
pub proof fn lemma_deadband_transitions(s: RcsLogic, obs: RcsObservation)
    requires
        obs.update_due,
    ensures
        s.in_deadband && obs.angle_beyond_exit ==> !rcs_step_spec(s, obs).in_deadband,
        s.in_deadband && obs.rate_beyond_exit ==> !rcs_step_spec(s, obs).in_deadband,
        s.in_deadband && !obs.angle_beyond_exit && !obs.rate_beyond_exit ==> rcs_step_spec(
            s,
            obs,
        ).in_deadband,
        !s.in_deadband ==> (rcs_step_spec(s, obs).in_deadband <==> (obs.angle_within_entry
            && obs.rate_within_entry)),
        rcs_step_spec(s, obs).last_command == RcsCommand::FireNegative
            ==> obs.demand_above_threshold,
        rcs_step_spec(s, obs).last_command == RcsCommand::FirePositive
            ==> obs.demand_below_threshold,
        rcs_step_spec(s, obs).last_command != RcsCommand::Off ==> !rcs_step_spec(
            s,
            obs,
        ).in_deadband,
{
}

} // verus!
