//! Which measurements the navigation filter trusts on a sensor packet.
use vstd::prelude::*;

verus! {

/// Where the absolute position measurement of a packet comes from.
#[derive(Debug, Clone, Copy, PartialEq, Eq, Structural)]
pub enum PositionSource {
    /// Ultra-wideband ranging (trusted most).
    Uwb,
    /// GNSS.
    Gps,
    /// No absolute position in this packet: the filter dead-reckons.
    Unavailable,
}

/// The measurement plan of one filter update.
pub struct MeasurementPlan<P> {
    /// The absolute position fed to the filter, when there is one.
    pub position: Option<P>,
    /// Where it comes from.
    pub position_source: PositionSource,
    /// The magnetometer reading is trusted (an IMU reading is present).
    pub magnetometer_trusted: bool,
    /// The accelerometer is trusted as a gravity reference (on the pad, with an IMU reading).
    pub accelerometer_trusted: bool,
}

/// UWB wins over GPS; without either the packet has no absolute position.
pub open spec fn position_source_spec<P>(uwb: Option<P>, gps: Option<P>) -> PositionSource {
    if uwb is Some {
        PositionSource::Uwb
    } else if gps is Some {
        PositionSource::Gps
    } else {
        PositionSource::Unavailable
    }
}

/// The position fed to the filter: UWB if present, else GPS.
pub open spec fn position_spec<P>(uwb: Option<P>, gps: Option<P>) -> Option<P> {
    if uwb is Some {
        uwb
    } else {
        gps
    }
}

/// Plans which measurements of a packet the filter uses and trusts.
/// `in_prelaunch` tells whether the vehicle is still on the pad, where the
/// accelerometer senses gravity alone and can serve as an attitude reference.
pub fn plan_measurements<P>(
    uwb: Option<P>,
    gps: Option<P>,
    imu_present: bool,
    in_prelaunch: bool,
) -> (r: MeasurementPlan<P>)
    ensures
        r.position_source == position_source_spec(uwb, gps),
        r.position == position_spec(uwb, gps),
        uwb is Some ==> r.position == uwb && r.position_source == PositionSource::Uwb,
        uwb is None && gps is Some ==> r.position == gps && r.position_source
            == PositionSource::Gps,
        uwb is None && gps is None ==> r.position is None && r.position_source
            == PositionSource::Unavailable,
        r.magnetometer_trusted == imu_present,
        r.accelerometer_trusted == (in_prelaunch && imu_present),
{
    let (position, position_source) = match uwb {
        Some(p) => (Some(p), PositionSource::Uwb),
        None => match gps {
            Some(p) => (Some(p), PositionSource::Gps),
            None => (None, PositionSource::Unavailable),
        },
    };
    MeasurementPlan {
        position,
        position_source,
        magnetometer_trusted: imu_present,
        accelerometer_trusted: in_prelaunch && imu_present,
    }
}

/// A position is fed to the filter exactly when its source is known, and the
/// accelerometer is never trusted in flight.
pub proof fn lemma_plan_consistent<P>(uwb: Option<P>, gps: Option<P>)
    ensures
        (position_spec(uwb, gps) is Some) <==> (position_source_spec(uwb, gps)
            != PositionSource::Unavailable),
        position_source_spec(uwb, gps) == PositionSource::Gps ==> position_spec(uwb, gps)
            == gps,
{
}

/// A present UWB position is always used, whatever GPS holds; GPS is used
/// when UWB is absent; an absolute position is used whenever either sensor
/// gives one, and the filter dead-reckons only when neither does.
pub proof fn lemma_position_selection<P>(uwb: Option<P>, gps: Option<P>)
    ensures
        uwb is Some ==> position_spec(uwb, gps) == uwb && position_source_spec(uwb, gps)
            == PositionSource::Uwb,
        uwb is None ==> position_spec(uwb, gps) == gps,
        uwb is None && gps is Some ==> position_source_spec(uwb, gps) == PositionSource::Gps,
        (uwb is Some || gps is Some) <==> position_spec(uwb, gps) is Some,
        (uwb is None && gps is None) <==> position_source_spec(uwb, gps)
            == PositionSource::Unavailable,
{
}

} // verus!
