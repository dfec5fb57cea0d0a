use vstd::prelude::*;

use crate::adapter::body::{occupant_from_swisseph_body, spec_occupant, SwissBody, UNSUPPORTED_BODY};
use crate::adapter::chart::{Motion, Placement, PlacementEphemeris, PlacementMotion};
use crate::adapter::error::AdapterError;

verus! {

/// The apparent motion of a body whose longitude speed is, or is not, negative.
pub open spec fn spec_motion(speed_in_longitude_negative: bool) -> Motion {
    if speed_in_longitude_negative {
        Motion::Retrograde
    } else {
        Motion::Direct
    }
}

/// The placement with motion of `body` at the converted longitude `sign_degree`: the body's
/// error comes first, then the longitude's.
pub open spec fn spec_placement_motion<S>(
    body: SwissBody,
    sign_degree: Result<S, AdapterError>,
    speed_in_longitude_negative: bool,
) -> Result<PlacementMotion<S>, AdapterError> {
    match spec_occupant(body) {
        None => Err(AdapterError::Unsupported(UNSUPPORTED_BODY)),
        Some(occupant) => match sign_degree {
            Err(e) => Err(e),
            Ok(s) => Ok(
                PlacementMotion {
                    placement: Placement { sign_degree: s, occupant },
                    motion: spec_motion(speed_in_longitude_negative),
                },
            ),
        },
    }
}

/// The placement with motion and ephemeris extras of `body`.
pub open spec fn spec_placement_ephemeris<S, X>(
    body: SwissBody,
    sign_degree: Result<S, AdapterError>,
    speed_in_longitude_negative: bool,
    extras: X,
) -> Result<PlacementEphemeris<S, X>, AdapterError> {
    match spec_placement_motion(body, sign_degree, speed_in_longitude_negative) {
        Err(e) => Err(e),
        Ok(placement_motion) => Ok(PlacementEphemeris { placement_motion, extras }),
    }
}

/// Convert a Swiss Ephemeris ecliptic position into a placement with motion.
///
/// `sign_degree` is the position's longitude converted to a sign degree (or the error that
/// conversion gave); `speed_in_longitude_negative` says whether its speed in longitude is
/// below zero. The body becomes the occupant, the longitude the coordinate, and a negative
/// longitude speed makes the motion retrograde, any other speed direct. No house is assigned.
pub fn placement_motion_from_ecliptic_position<S>(
    body: SwissBody,
    sign_degree: Result<S, AdapterError>,
    speed_in_longitude_negative: bool,
) -> (res: Result<PlacementMotion<S>, AdapterError>)
    ensures
        res == spec_placement_motion(body, sign_degree, speed_in_longitude_negative),
        res is Ok <==> spec_occupant(body) is Some && sign_degree is Ok,
        res matches Ok(pm) ==> {
            &&& spec_occupant(body) == Some(pm.placement.occupant)
            &&& sign_degree == Ok::<S, AdapterError>(pm.placement.sign_degree)
            &&& (pm.motion == Motion::Retrograde <==> speed_in_longitude_negative)
        },
        res matches Err(e) ==> if spec_occupant(body) is None {
            e == AdapterError::Unsupported(UNSUPPORTED_BODY)
        } else {
            sign_degree == Err::<S, AdapterError>(e)
        },
{
    let occupant = match occupant_from_swisseph_body(body) {
        Ok(o) => o,
        Err(e) => {
            return Err(e);
        },
    };
    let sign_degree = match sign_degree {
        Ok(s) => s,
        Err(e) => {
            return Err(e);
        },
    };
    let placement = Placement { sign_degree, occupant };
    let motion = if speed_in_longitude_negative {
        Motion::Retrograde
    } else {
        Motion::Direct
    };
    Ok(PlacementMotion { placement, motion })
}

/// Convert a Swiss Ephemeris ecliptic position into a placement with motion and extras.
///
/// The placement and motion are those of `placement_motion_from_ecliptic_position`; `extras`
/// (latitude, distance and speeds) is kept beside them unchanged.
pub fn placement_ephemeris_from_ecliptic_position<S, X>(
    body: SwissBody,
    sign_degree: Result<S, AdapterError>,
    speed_in_longitude_negative: bool,
    extras: X,
) -> (res: Result<PlacementEphemeris<S, X>, AdapterError>)
    ensures
        res == spec_placement_ephemeris(body, sign_degree, speed_in_longitude_negative, extras),
        res is Ok <==> spec_occupant(body) is Some && sign_degree is Ok,
        res matches Ok(pe) ==> pe.extras == extras && spec_placement_motion(
            body,
            sign_degree,
            speed_in_longitude_negative,
        ) == Ok::<PlacementMotion<S>, AdapterError>(pe.placement_motion),
{
    let placement_motion = match placement_motion_from_ecliptic_position(
        body,
        sign_degree,
        speed_in_longitude_negative,
    ) {
        Ok(pm) => pm,
        Err(e) => {
            return Err(e);
        },
    };
    Ok(PlacementEphemeris { placement_motion, extras })
}

/// Adding the ephemeris extras does not change the motion rule: the ephemeris conversion
/// succeeds exactly when the motion conversion does, with the same placement and motion,
/// and fails with the same error otherwise.
pub proof fn lemma_ephemeris_keeps_placement_motion<S, X>(
    body: SwissBody,
    sign_degree: Result<S, AdapterError>,
    speed_in_longitude_negative: bool,
    extras: X,
)
    ensures
        ({
            let pm = spec_placement_motion(body, sign_degree, speed_in_longitude_negative);
            let pe = spec_placement_ephemeris(body, sign_degree, speed_in_longitude_negative, extras);
            &&& pe is Ok <==> pm is Ok
            &&& pe matches Ok(v) ==> pm == Ok::<PlacementMotion<S>, AdapterError>(v.placement_motion) && v.extras == extras
            &&& pe matches Err(e) ==> pm == Err::<PlacementMotion<S>, AdapterError>(e)
            &&& pm matches Ok(v) ==> (v.motion == Motion::Retrograde <==> speed_in_longitude_negative)
        }),
{
}

} // verus!
