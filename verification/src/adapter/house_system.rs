use vstd::prelude::*;

verus! {

/// An astrological house division system, as a chart describes it.
#[derive(Clone, Copy, Debug, PartialEq, Eq, Structural)]
pub enum HouseSystem {
    Placidus,
    /// Do not compute or render houses or angles (birth time unknown).
    NoHouses,
    Koch,
    Porphyry,
    Regiomontanus,
    Campanus,
    Equal,
    WholeSign,
    Meridian,
    Alcabitius,
    Morinus,
    Topocentric,
}

/// A house system as Swiss Ephemeris names it.
#[derive(Clone, Copy, Debug, PartialEq, Eq, Structural)]
pub enum HouseSystemKind {
    Alcabitus,
    ApcHouses,
    AxialRotationSystemMeridianSystemZariel,
    AzimuthalHorizontalSystem,
    Campanus,
    CarterPoliEquatorial,
    Equal,
    EqualMc,
    Equal1Aries,
    GauquelinSector,
    SunshineMakranskySolutionTreindl,
    SunshineMakranskySolutionMakransky,
    Koch,
    KrusinskiPisaGoelzer,
    Morinus,
    Placidus,
    PolichPageTopocentricSystem,
    Porphyrius,
    PullenSdSinusoidalDeltaExNeoPorphyry,
    PullenSrSinusoidalRatio,
    Regiomontanus,
    Sripati,
    VehlowEqual,
    WholeSign,
}

/// The Swiss Ephemeris house system for a chart's house system. A chart without houses
/// still asks Swiss Ephemeris for Placidus cusps.
pub open spec fn spec_house_system_kind(system: HouseSystem) -> HouseSystemKind {
    match system {
        HouseSystem::Placidus => HouseSystemKind::Placidus,
        HouseSystem::NoHouses => HouseSystemKind::Placidus,
        HouseSystem::Koch => HouseSystemKind::Koch,
        HouseSystem::Porphyry => HouseSystemKind::Porphyrius,
        HouseSystem::Regiomontanus => HouseSystemKind::Regiomontanus,
        HouseSystem::Campanus => HouseSystemKind::Campanus,
        HouseSystem::Equal => HouseSystemKind::Equal,
        HouseSystem::WholeSign => HouseSystemKind::WholeSign,
        HouseSystem::Meridian => HouseSystemKind::AxialRotationSystemMeridianSystemZariel,
        HouseSystem::Alcabitius => HouseSystemKind::Alcabitus,
        HouseSystem::Morinus => HouseSystemKind::Morinus,
        HouseSystem::Topocentric => HouseSystemKind::PolichPageTopocentricSystem,
    }
}

/// Map a chart's house system to the Swiss Ephemeris house system that computes it.
pub fn house_system_to_swisseph(system: HouseSystem) -> (kind: HouseSystemKind)
    ensures
        kind == spec_house_system_kind(system),
{
    match system {
        HouseSystem::Placidus => HouseSystemKind::Placidus,
        HouseSystem::NoHouses => HouseSystemKind::Placidus,
        HouseSystem::Koch => HouseSystemKind::Koch,
        HouseSystem::Porphyry => HouseSystemKind::Porphyrius,
        HouseSystem::Regiomontanus => HouseSystemKind::Regiomontanus,
        HouseSystem::Campanus => HouseSystemKind::Campanus,
        HouseSystem::Equal => HouseSystemKind::Equal,
        HouseSystem::WholeSign => HouseSystemKind::WholeSign,
        HouseSystem::Meridian => HouseSystemKind::AxialRotationSystemMeridianSystemZariel,
        HouseSystem::Alcabitius => HouseSystemKind::Alcabitus,
        HouseSystem::Morinus => HouseSystemKind::Morinus,
        HouseSystem::Topocentric => HouseSystemKind::PolichPageTopocentricSystem,
    }
}

/// The chart house system that a Swiss Ephemeris house system computes, where there is one.
pub open spec fn spec_house_system(kind: HouseSystemKind) -> Option<HouseSystem> {
    match kind {
        HouseSystemKind::Placidus => Some(HouseSystem::Placidus),
        HouseSystemKind::Koch => Some(HouseSystem::Koch),
        HouseSystemKind::Porphyrius => Some(HouseSystem::Porphyry),
        HouseSystemKind::Regiomontanus => Some(HouseSystem::Regiomontanus),
        HouseSystemKind::Campanus => Some(HouseSystem::Campanus),
        HouseSystemKind::Equal => Some(HouseSystem::Equal),
        HouseSystemKind::WholeSign => Some(HouseSystem::WholeSign),
        HouseSystemKind::AxialRotationSystemMeridianSystemZariel => Some(HouseSystem::Meridian),
        HouseSystemKind::Alcabitus => Some(HouseSystem::Alcabitius),
        HouseSystemKind::Morinus => Some(HouseSystem::Morinus),
        HouseSystemKind::PolichPageTopocentricSystem => Some(HouseSystem::Topocentric),
        _ => None,
    }
}

/// Every house system but the one without houses goes to a Swiss Ephemeris house system of
/// its own; the one without houses shares Placidus.
pub proof fn lemma_house_system_kinds_distinct(a: HouseSystem, b: HouseSystem)
    ensures
        a != HouseSystem::NoHouses ==> spec_house_system(spec_house_system_kind(a)) == Some(a),
        a != HouseSystem::NoHouses && b != HouseSystem::NoHouses && a != b
            ==> spec_house_system_kind(a) != spec_house_system_kind(b),
        spec_house_system_kind(HouseSystem::NoHouses) == spec_house_system_kind(HouseSystem::Placidus),
{
}

} // verus!
