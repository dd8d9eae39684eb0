//! Index logic of the controller's reference and warm start: which samples
//! of a planned trajectory feed each step of the prediction horizon, and how
//! the previous control sequence becomes the next warm start.
use vstd::prelude::*;

verus! {

/// Where the position (and velocity) reference of one horizon step comes from.
#[derive(Debug, Clone, Copy, PartialEq, Eq, Structural)]
pub enum PositionReference {
    /// At or past the end of the trajectory: hold its last point, at rest.
    HoldLast(usize),
    /// The trajectory has no point: hold the origin, at rest.
    HoldOrigin,
    /// The trajectory has a single point: hold it, at rest.
    HoldFirst,
    /// Interpolate between points `segment` and `segment + 1`; each velocity
    /// end point is read where the trajectory has one, and is zero otherwise.
    Interpolate { segment: usize, velocity_from: Option<usize>, velocity_to: Option<usize> },
}

/// The samples of a trajectory that make up one horizon step of the reference.
#[derive(Debug, Clone, Copy, PartialEq, Eq, Structural)]
pub struct ReferenceSample {
    pub position: PositionReference,
    /// The thrust sample to track; `None` means the hover thrust (weight of the vehicle).
    pub thrust: Option<usize>,
}

/// The smaller of two indices.
pub open spec fn min_usize(a: usize, b: usize) -> usize {
    if a <= b { a } else { b }
}

/// One less than `a`, or zero when `a` is zero.
pub open spec fn saturating_dec(a: usize) -> usize {
    if a == 0 { 0 } else { (a - 1) as usize }
}

/// The samples for a horizon step. `past_end` tells whether the step's time
/// is at or past the trajectory's time of flight; `base_index` is the sample
/// index that the step's time falls in (rounded down).
pub open spec fn reference_sample_spec(
    past_end: bool,
    base_index: usize,
    n_positions: usize,
    n_velocities: usize,
    n_thrusts: usize,
) -> ReferenceSample {
    if past_end || n_positions == 0 {
        ReferenceSample {
            position: if n_positions > 0 {
                PositionReference::HoldLast((n_positions - 1) as usize)
            } else {
                PositionReference::HoldOrigin
            },
            thrust: None,
        }
    } else {
        let position = if n_positions < 2 {
            PositionReference::HoldFirst
        } else {
            let seg = min_usize(base_index, (n_positions - 2) as usize);
            PositionReference::Interpolate {
                segment: seg,
                velocity_from: if seg < n_velocities { Some(seg) } else { None },
                velocity_to: if seg + 1 < n_velocities { Some((seg + 1) as usize) } else { None },
            }
        };
        let ti = min_usize(base_index, saturating_dec(n_thrusts));
        ReferenceSample { position, thrust: if ti < n_thrusts { Some(ti) } else { None } }
    }
}

/// Every index that a sample names lies within the trajectory's arrays.
pub open spec fn sample_in_bounds(
    s: ReferenceSample,
    n_positions: usize,
    n_velocities: usize,
    n_thrusts: usize,
) -> bool {
    &&& match s.position {
        PositionReference::HoldLast(i) => i < n_positions,
        PositionReference::HoldOrigin => true,
        PositionReference::HoldFirst => 0 < n_positions,
        PositionReference::Interpolate { segment, velocity_from, velocity_to } => {
            &&& segment + 1 < n_positions
            &&& (velocity_from matches Some(i) ==> i < n_velocities)
            &&& (velocity_to matches Some(i) ==> i < n_velocities)
        },
    }
    &&& (s.thrust matches Some(i) ==> i < n_thrusts)
}

/// Chooses the trajectory samples for one horizon step of the reference.
pub fn plan_reference_sample(
    past_end: bool,
    base_index: usize,
    n_positions: usize,
    n_velocities: usize,
    n_thrusts: usize,
) -> (r: ReferenceSample)
    ensures
        r == reference_sample_spec(past_end, base_index, n_positions, n_velocities, n_thrusts),
        sample_in_bounds(r, n_positions, n_velocities, n_thrusts),
        n_positions == 0 ==> (r == ReferenceSample {
            position: PositionReference::HoldOrigin,
            thrust: None,
        }),
        past_end && n_positions > 0 ==> (r == ReferenceSample {
            position: PositionReference::HoldLast((n_positions - 1) as usize),
            thrust: None,
        }),
        !past_end && n_positions == 1 ==> r.position == PositionReference::HoldFirst,
        !past_end && n_positions >= 2 ==> (r.position is Interpolate),
        !past_end && n_positions >= 2 && base_index <= n_positions - 2 ==> r.position->segment
            == base_index,
        !past_end && n_positions >= 2 && base_index > n_positions - 2 ==> r.position->segment
            == n_positions - 2,
        !past_end && n_positions >= 2 ==> (r.position->velocity_from == (if r.position->segment
            < n_velocities {
            Some(r.position->segment)
        } else {
            None::<usize>
        })),
        !past_end && n_positions >= 2 ==> (r.position->velocity_to == (if r.position->segment + 1
            < n_velocities {
            Some((r.position->segment + 1) as usize)
        } else {
            None::<usize>
        })),
        !past_end && n_positions > 0 && n_thrusts == 0 ==> (r.thrust is None),
        !past_end && n_positions > 0 && base_index < n_thrusts ==> r.thrust == Some(base_index),
        !past_end && n_positions > 0 && 0 < n_thrusts <= base_index ==> r.thrust == Some(
            (n_thrusts - 1) as usize,
        ),
{
    if past_end || n_positions == 0 {
        let position = if n_positions > 0 {
            PositionReference::HoldLast(n_positions - 1)
        } else {
            PositionReference::HoldOrigin
        };
        return ReferenceSample { position, thrust: None };
    }
    let position = if n_positions < 2 {
        PositionReference::HoldFirst
    } else {
        let seg: usize = if base_index <= n_positions - 2 {
            base_index
        } else {
            n_positions - 2
        };
        let velocity_from = if seg < n_velocities {
            Some(seg)
        } else {
            None
        };
        let velocity_to = if seg + 1 < n_velocities {
            Some(seg + 1)
        } else {
            None
        };
        PositionReference::Interpolate { segment: seg, velocity_from, velocity_to }
    };
    let last_thrust: usize = if n_thrusts == 0 {
        0
    } else {
        n_thrusts - 1
    };
    let ti: usize = if base_index <= last_thrust {
        base_index
    } else {
        last_thrust
    };
    let thrust = if ti < n_thrusts {
        Some(ti)
    } else {
        None
    };
    ReferenceSample { position, thrust }
}

/// Builds the reference over a prediction horizon of `horizon` steps: one
/// state reference for each of the `horizon + 1` knots, and one control
/// reference for each of the `horizon` steps between them. `sample(i)` gives
/// the state and control reference of knot `i`; the control of the last knot
/// is not used.
pub fn build_horizon<X, U, F: Fn(usize) -> (X, U)>(horizon: usize, sample: F) -> (r: (
    Vec<X>,
    Vec<U>,
))
    requires
        horizon < usize::MAX,
        forall|i: usize| i <= horizon ==> call_requires(sample, (i,)),
    ensures
        r.0.len() == horizon + 1,
        r.1.len() == horizon,
        forall|i: int|
            0 <= i < horizon ==> call_ensures(sample, (i as usize,), (#[trigger] r.0[i], r.1[i])),
        exists|u: U| #[trigger] call_ensures(sample, (horizon,), (r.0[horizon as int], u)),
{
    let mut xs: Vec<X> = Vec::new();
    let mut us: Vec<U> = Vec::new();
    let mut i: usize = 0;
    while i < horizon
        invariant
            i <= horizon < usize::MAX,
            forall|j: usize| j <= horizon ==> call_requires(sample, (j,)),
            xs.len() == i,
            us.len() == i,
            forall|j: int|
                0 <= j < i ==> call_ensures(sample, (j as usize,), (#[trigger] xs[j], us[j])),
        decreases horizon - i,
    {
        let (x, u) = sample(i);
        xs.push(x);
        us.push(u);
        i = i + 1;
    }
    let (x, u) = sample(horizon);
    xs.push(x);
    let r = (xs, us);
    assert(call_ensures(sample, (horizon,), (r.0[horizon as int], u)));
    r
}

/// Shifts the solved control sequence by one step to warm-start the next
/// solve: the first control is dropped and the last one repeated. A sequence
/// of fewer than two controls is kept as it is.
pub fn shift_control_sequence<T: Clone>(seq: Vec<T>) -> (r: Vec<T>)
    ensures
        r.len() == seq.len(),
        seq.len() <= 1 ==> r@ == seq@,
        seq.len() > 1 ==> {
            &&& forall|i: int| 0 <= i < seq.len() - 1 ==> cloned(seq[i + 1], #[trigger] r[i])
            &&& cloned(r[seq.len() - 2], r[seq.len() - 1])
        },
{
    let n: usize = seq.len();
    if n <= 1 {
        return seq;
    }
    let mut out: Vec<T> = Vec::new();
    let mut i: usize = 1;
    while i < n
        invariant
            1 <= i <= n,
            n == seq.len(),
            out.len() == i - 1,
            forall|j: int| 0 <= j < i - 1 ==> cloned(seq[j + 1], #[trigger] out[j]),
        decreases n - i,
    {
        out.push(seq[i].clone());
        i = i + 1;
    }
    let last = out[n - 2].clone();
    out.push(last);
    out
}

/// Replaces, within the first `min(n_steps, uref.len())` steps, each warm-start
/// control marked stale by the reference control of the same step. `stale[i]`
/// says whether the warm-start control at step `i` is stale (a thrust of
/// zero, or exactly the hover thrust).
pub fn refresh_warm_start<T: Clone>(
    warm: &mut Vec<T>,
    uref: &Vec<T>,
    stale: &Vec<bool>,
    n_steps: usize,
)
    requires
        stale.len() == old(warm).len(),
        min_usize(n_steps, uref.len()) <= old(warm).len(),
    ensures
        final(warm).len() == old(warm).len(),
        forall|i: int|
            0 <= i < old(warm).len() ==> {
                &&& (i < min_usize(n_steps, uref.len()) && stale[i]) ==> cloned(
                    uref[i],
                    #[trigger] final(warm)[i],
                )
                &&& !(i < min_usize(n_steps, uref.len()) && stale[i]) ==> final(warm)[i]
                    == old(warm)[i]
            },
{
    let k: usize = if n_steps <= uref.len() {
        n_steps
    } else {
        uref.len()
    };
    let mut i: usize = 0;
    while i < k
        invariant
            k == min_usize(n_steps, uref.len()),
            k <= old(warm).len(),
            stale.len() == old(warm).len(),
            0 <= i <= k,
            warm.len() == old(warm).len(),
            forall|j: int|
                0 <= j < i ==> (stale[j] ==> cloned(uref[j], #[trigger] warm[j])),
            forall|j: int|
                0 <= j < old(warm).len() && !(j < i && stale[j]) ==> #[trigger] warm[j]
                    == old(warm)[j],
        decreases k - i,
    {
        if stale[i] {
            let v = uref[i].clone();
            warm.set(i, v);
        }
        i = i + 1;
    }
}

/// Inside the trajectory, the interpolation segment is the one the step's
/// time falls in, clamped to the last segment; it starts at or before that
/// index and always has a successor point. The thrust sample is the one the
/// time falls in, clamped to the last sample. Past the end (or without
/// points) the reference rests on the final point (or the origin) with the
/// hover thrust.
pub proof fn lemma_reference_sample_choice(
    past_end: bool,
    base_index: usize,
    n_positions: usize,
    n_velocities: usize,
    n_thrusts: usize,
)
    ensures
        ({
            let r = reference_sample_spec(
                past_end,
                base_index,
                n_positions,
                n_velocities,
                n_thrusts,
            );
            &&& (past_end || n_positions == 0) ==> r.thrust is None
            &&& past_end && n_positions > 0 ==> r.position == PositionReference::HoldLast(
                (n_positions - 1) as usize,
            )
            &&& n_positions == 0 ==> r.position == PositionReference::HoldOrigin
            &&& !past_end && n_positions == 1 ==> r.position == PositionReference::HoldFirst
            &&& !past_end && n_positions >= 2 ==> (r.position is Interpolate)
            &&& !past_end && n_positions >= 2 ==> r.position->segment <= base_index
            &&& !past_end && n_positions >= 2 ==> r.position->segment + 2 <= n_positions
            &&& !past_end && n_positions >= 2 ==> (r.position->segment == base_index
                || r.position->segment + 2 == n_positions)
            &&& !past_end && n_positions >= 2 ==> (r.position->velocity_from is Some
                <==> r.position->segment < n_velocities)
            &&& !past_end && n_positions >= 2 && r.position->velocity_from is Some
                ==> r.position->velocity_from->0 == r.position->segment
            &&& !past_end && n_positions >= 2 ==> (r.position->velocity_to is Some
                <==> r.position->segment + 1 < n_velocities)
            &&& !past_end && n_positions >= 2 && r.position->velocity_to is Some
                ==> r.position->velocity_to->0 == r.position->segment + 1
            &&& !past_end && n_positions > 0 ==> (r.thrust is Some <==> n_thrusts > 0)
            &&& !past_end && n_positions > 0 && r.thrust is Some ==> r.thrust->0 <= base_index
                && r.thrust->0 < n_thrusts && (r.thrust->0 == base_index || r.thrust->0 + 1
                == n_thrusts)
        }),
{
}

} // verus!
