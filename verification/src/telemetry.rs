//! Telemetry decisions: the flight-phase channel records transitions only.
use vstd::prelude::*;
use crate::phase::FlightPhase;

verus! {

/// Remembers the last flight phase written to the log.
#[derive(Debug, Clone, Copy, PartialEq, Eq, Structural)]
pub struct PhaseLogFilter {
    pub last_logged: Option<FlightPhase>,
}

impl PhaseLogFilter {
    /// No phase has been logged yet.
    pub fn new() -> (r: PhaseLogFilter)
        ensures
            r.last_logged is None,
    {
        PhaseLogFilter { last_logged: None }
    }

    /// Decides whether `phase` is written to the log: only when it differs from
    /// the last phase logged (or none was). Remembers it as the last logged.
    pub fn record(&mut self, phase: FlightPhase) -> (log: bool)
        ensures
            (log, *final(self)) == record_spec(*old(self), phase),
            log <==> old(self).last_logged != Some(phase),
            final(self).last_logged == Some(phase),
    {
        let log = match self.last_logged {
            Some(p) => p != phase,
            None => true,
        };
        self.last_logged = Some(phase);
        log
    }
}

/// Whether a phase is logged, and the filter after recording it.
pub open spec fn record_spec(f: PhaseLogFilter, phase: FlightPhase) -> (bool, PhaseLogFilter) {
    (f.last_logged != Some(phase), PhaseLogFilter { last_logged: Some(phase) })
}

/// Recording the same phase twice in a row logs it at most once: the second
/// record is always dropped. The first phase ever recorded is always logged.
pub proof fn lemma_repeated_phase_logged_once(f: PhaseLogFilter, phase: FlightPhase)
    ensures
        !record_spec(record_spec(f, phase).1, phase).0,
        f.last_logged is None ==> record_spec(f, phase).0,
{
}

} // verus!
