use vstd::prelude::*;

use crate::adapter::chart::{Body, ChartPoint, Occupant};
use crate::adapter::error::AdapterError;

verus! {

/// The message of the error for a Swiss Ephemeris body that has no chart occupant.
pub const UNSUPPORTED_BODY: &'static str = "swisseph::Body variant not mapped to rubrum";

/// A body (or point) as Swiss Ephemeris numbers it.
///
/// Swiss Ephemeris files nodes, apogees and nutation among its bodies; in a chart those are
/// chart points.
#[derive(Clone, Copy, Debug, PartialEq, Eq, Structural)]
pub enum SwissBody {
    EclNut,
    Sun,
    Moon,
    Mercury,
    Venus,
    Mars,
    Jupiter,
    Saturn,
    Uranus,
    Neptune,
    Pluto,
    MeanNode,
    TrueNode,
    MeanApog,
    OscuApog,
    Earth,
    Chiron,
    Pholus,
    Ceres,
    Pallas,
    Juno,
    Vesta,
    IntpApog,
    IntpPerg,
    Cupido,
    Hades,
    Zeus,
    Kronos,
    Apollon,
    Admetos,
    Vulkanus,
    Poseidon,
    Isis,
    Nibiru,
    Harrington,
    NeptuneLeverrier,
    NeptuneAdams,
    PlutoLowell,
    PlutoPickering,
    Astraea,
    Hebe,
    Iris,
    Flora,
    Metis,
    Hygiea,
    Urania,
    IsisAstroid,
    Hilda,
    Philosophia,
    Sophia,
    Aletheia,
    Sapientia,
    Thule,
    Ursula,
    Eros,
    CupidoAstroid,
    Hidalgo,
    Lilith,
    Amor,
    Kama,
    Aphrodite,
    Apollo,
    Damocles,
    Cruithne,
    PoseidonAstroid,
    Vulcano,
    ZeusAstroid,
    Nessus,
}

/// The chart occupant of a Swiss Ephemeris body, or `None` where the chart has none:
/// physical bodies stay bodies, nodes, apogees and nutation become chart points, and
/// the Uranian and fictitious bodies and the numbered asteroids are not mapped.
pub open spec fn spec_occupant(body: SwissBody) -> Option<Occupant> {
    match body {
        SwissBody::Sun => Some(Occupant::Body(Body::Sun)),
        SwissBody::Moon => Some(Occupant::Body(Body::Moon)),
        SwissBody::Mercury => Some(Occupant::Body(Body::Mercury)),
        SwissBody::Venus => Some(Occupant::Body(Body::Venus)),
        SwissBody::Mars => Some(Occupant::Body(Body::Mars)),
        SwissBody::Jupiter => Some(Occupant::Body(Body::Jupiter)),
        SwissBody::Saturn => Some(Occupant::Body(Body::Saturn)),
        SwissBody::Uranus => Some(Occupant::Body(Body::Uranus)),
        SwissBody::Neptune => Some(Occupant::Body(Body::Neptune)),
        SwissBody::Pluto => Some(Occupant::Body(Body::Pluto)),
        SwissBody::Earth => Some(Occupant::Body(Body::Earth)),
        SwissBody::Chiron => Some(Occupant::Body(Body::Chiron)),
        SwissBody::Pholus => Some(Occupant::Body(Body::Pholus)),
        SwissBody::Ceres => Some(Occupant::Body(Body::Ceres)),
        SwissBody::Pallas => Some(Occupant::Body(Body::Pallas)),
        SwissBody::Juno => Some(Occupant::Body(Body::Juno)),
        SwissBody::Vesta => Some(Occupant::Body(Body::Vesta)),
        SwissBody::MeanNode => Some(Occupant::ChartPoint(ChartPoint::MeanNode)),
        SwissBody::TrueNode => Some(Occupant::ChartPoint(ChartPoint::TrueNode)),
        SwissBody::MeanApog => Some(Occupant::ChartPoint(ChartPoint::MeanApog)),
        SwissBody::OscuApog => Some(Occupant::ChartPoint(ChartPoint::OscuApog)),
        SwissBody::IntpApog => Some(Occupant::ChartPoint(ChartPoint::IntpApog)),
        SwissBody::IntpPerg => Some(Occupant::ChartPoint(ChartPoint::IntpPerg)),
        SwissBody::EclNut => Some(Occupant::ChartPoint(ChartPoint::EclNut)),
        _ => None,
    }
}

/// Convert a Swiss Ephemeris body into a chart occupant when possible.
///
/// Physical bodies become `Occupant::Body`; nodes, apogees and nutation become
/// `Occupant::ChartPoint`. Every other body is refused as unsupported.
pub fn occupant_from_swisseph_body(body: SwissBody) -> (res: Result<Occupant, AdapterError>)
    ensures
        res is Ok <==> spec_occupant(body) is Some,
        res matches Ok(o) ==> spec_occupant(body) == Some(o),
        res is Err ==> res == Err::<Occupant, AdapterError>(AdapterError::Unsupported(UNSUPPORTED_BODY)),
{
    let occupant = match body {
        SwissBody::Sun => Occupant::Body(Body::Sun),
        SwissBody::Moon => Occupant::Body(Body::Moon),
        SwissBody::Mercury => Occupant::Body(Body::Mercury),
        SwissBody::Venus => Occupant::Body(Body::Venus),
        SwissBody::Mars => Occupant::Body(Body::Mars),
        SwissBody::Jupiter => Occupant::Body(Body::Jupiter),
        SwissBody::Saturn => Occupant::Body(Body::Saturn),
        SwissBody::Uranus => Occupant::Body(Body::Uranus),
        SwissBody::Neptune => Occupant::Body(Body::Neptune),
        SwissBody::Pluto => Occupant::Body(Body::Pluto),
        SwissBody::Earth => Occupant::Body(Body::Earth),
        SwissBody::Chiron => Occupant::Body(Body::Chiron),
        SwissBody::Pholus => Occupant::Body(Body::Pholus),
        SwissBody::Ceres => Occupant::Body(Body::Ceres),
        SwissBody::Pallas => Occupant::Body(Body::Pallas),
        SwissBody::Juno => Occupant::Body(Body::Juno),
        SwissBody::Vesta => Occupant::Body(Body::Vesta),
        SwissBody::MeanNode => Occupant::ChartPoint(ChartPoint::MeanNode),
        SwissBody::TrueNode => Occupant::ChartPoint(ChartPoint::TrueNode),
        SwissBody::MeanApog => Occupant::ChartPoint(ChartPoint::MeanApog),
        SwissBody::OscuApog => Occupant::ChartPoint(ChartPoint::OscuApog),
        SwissBody::IntpApog => Occupant::ChartPoint(ChartPoint::IntpApog),
        SwissBody::IntpPerg => Occupant::ChartPoint(ChartPoint::IntpPerg),
        SwissBody::EclNut => Occupant::ChartPoint(ChartPoint::EclNut),
        SwissBody::Cupido
        | SwissBody::Hades
        | SwissBody::Zeus
        | SwissBody::Kronos
        | SwissBody::Apollon
        | SwissBody::Admetos
        | SwissBody::Vulkanus
        | SwissBody::Poseidon
        | SwissBody::Isis
        | SwissBody::Nibiru
        | SwissBody::Harrington
        | SwissBody::NeptuneLeverrier
        | SwissBody::NeptuneAdams
        | SwissBody::PlutoLowell
        | SwissBody::PlutoPickering
        | SwissBody::Astraea
        | SwissBody::Hebe
        | SwissBody::Iris
        | SwissBody::Flora
        | SwissBody::Metis
        | SwissBody::Hygiea
        | SwissBody::Urania
        | SwissBody::IsisAstroid
        | SwissBody::Hilda
        | SwissBody::Philosophia
        | SwissBody::Sophia
        | SwissBody::Aletheia
        | SwissBody::Sapientia
        | SwissBody::Thule
        | SwissBody::Ursula
        | SwissBody::Eros
        | SwissBody::CupidoAstroid
        | SwissBody::Hidalgo
        | SwissBody::Lilith
        | SwissBody::Amor
        | SwissBody::Kama
        | SwissBody::Aphrodite
        | SwissBody::Apollo
        | SwissBody::Damocles
        | SwissBody::Cruithne
        | SwissBody::PoseidonAstroid
        | SwissBody::Vulcano
        | SwissBody::ZeusAstroid
        | SwissBody::Nessus
        => {
            return Err(AdapterError::Unsupported(UNSUPPORTED_BODY));
        },
    };
    Ok(occupant)
}

/// The Swiss Ephemeris body that an occupant stands for.
pub open spec fn spec_swiss_body(o: Occupant) -> SwissBody {
    match o {
        Occupant::Body(Body::Sun) => SwissBody::Sun,
        Occupant::Body(Body::Moon) => SwissBody::Moon,
        Occupant::Body(Body::Mercury) => SwissBody::Mercury,
        Occupant::Body(Body::Venus) => SwissBody::Venus,
        Occupant::Body(Body::Mars) => SwissBody::Mars,
        Occupant::Body(Body::Jupiter) => SwissBody::Jupiter,
        Occupant::Body(Body::Saturn) => SwissBody::Saturn,
        Occupant::Body(Body::Uranus) => SwissBody::Uranus,
        Occupant::Body(Body::Neptune) => SwissBody::Neptune,
        Occupant::Body(Body::Pluto) => SwissBody::Pluto,
        Occupant::Body(Body::Earth) => SwissBody::Earth,
        Occupant::Body(Body::Chiron) => SwissBody::Chiron,
        Occupant::Body(Body::Pholus) => SwissBody::Pholus,
        Occupant::Body(Body::Ceres) => SwissBody::Ceres,
        Occupant::Body(Body::Pallas) => SwissBody::Pallas,
        Occupant::Body(Body::Juno) => SwissBody::Juno,
        Occupant::Body(Body::Vesta) => SwissBody::Vesta,
        Occupant::ChartPoint(ChartPoint::MeanNode) => SwissBody::MeanNode,
        Occupant::ChartPoint(ChartPoint::TrueNode) => SwissBody::TrueNode,
        Occupant::ChartPoint(ChartPoint::MeanApog) => SwissBody::MeanApog,
        Occupant::ChartPoint(ChartPoint::OscuApog) => SwissBody::OscuApog,
        Occupant::ChartPoint(ChartPoint::IntpApog) => SwissBody::IntpApog,
        Occupant::ChartPoint(ChartPoint::IntpPerg) => SwissBody::IntpPerg,
        Occupant::ChartPoint(ChartPoint::EclNut) => SwissBody::EclNut,
        Occupant::Angle(_) => SwissBody::EclNut,
    }
}

/// Distinct Swiss Ephemeris bodies never become the same occupant, and no body becomes an angle.
pub proof fn lemma_occupant_injective(a: SwissBody, b: SwissBody)
    ensures
        spec_occupant(a) matches Some(o) ==> spec_swiss_body(o) == a && !(o is Angle),
        spec_occupant(a) is Some && spec_occupant(a) == spec_occupant(b) ==> a == b,
{
}

} // verus!
