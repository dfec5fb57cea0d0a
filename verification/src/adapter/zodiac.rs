use vstd::prelude::*;

verus! {

/// Swiss Ephemeris sidereal mode code of the Fagan/Bradley ayanamsa (`swephexp.h`).
pub const SE_SIDM_FAGAN_BRADLEY: i32 = 0;

/// Swiss Ephemeris sidereal mode code of the Lahiri ayanamsa.
pub const SE_SIDM_LAHIRI: i32 = 1;

/// Swiss Ephemeris sidereal mode code of the Raman ayanamsa.
pub const SE_SIDM_RAMAN: i32 = 3;

/// Swiss Ephemeris sidereal mode code of the Krishnamurti ayanamsa.
pub const SE_SIDM_KRISHNAMURTI: i32 = 5;

/// Swiss Ephemeris sidereal mode code of the Yukteshwar ayanamsa.
pub const SE_SIDM_YUKTESHWAR: i32 = 7;

/// Swiss Ephemeris sidereal mode code of the True Chitra ayanamsa.
pub const SE_SIDM_TRUE_CITRA: i32 = 27;

/// Swiss Ephemeris sidereal mode code of the True Revati ayanamsa.
pub const SE_SIDM_TRUE_REVATI: i32 = 28;

/// A sidereal ayanamsa (zodiac offset) selection.
#[derive(Clone, Copy, Debug, PartialEq, Eq, Structural)]
pub enum Ayanamsa {
    Lahiri,
    FaganBradley,
    Raman,
    Krishnamurti,
    Yukteswar,
    TrueChitra,
    TrueRevati,
}

/// The Swiss Ephemeris sidereal mode that selects an ayanamsa.
pub open spec fn spec_sid_mode(ayanamsa: Ayanamsa) -> i32 {
    match ayanamsa {
        Ayanamsa::Lahiri => SE_SIDM_LAHIRI,
        Ayanamsa::FaganBradley => SE_SIDM_FAGAN_BRADLEY,
        Ayanamsa::Raman => SE_SIDM_RAMAN,
        Ayanamsa::Krishnamurti => SE_SIDM_KRISHNAMURTI,
        Ayanamsa::Yukteswar => SE_SIDM_YUKTESHWAR,
        Ayanamsa::TrueChitra => SE_SIDM_TRUE_CITRA,
        Ayanamsa::TrueRevati => SE_SIDM_TRUE_REVATI,
    }
}

/// The Swiss Ephemeris sidereal mode code (`swe_set_sid_mode`'s first argument) of an ayanamsa.
pub fn ayanamsa_to_swisseph_sid_mode(ayanamsa: Ayanamsa) -> (mode: i32)
    ensures
        mode == spec_sid_mode(ayanamsa),
{
    match ayanamsa {
        Ayanamsa::Lahiri => SE_SIDM_LAHIRI,
        Ayanamsa::FaganBradley => SE_SIDM_FAGAN_BRADLEY,
        Ayanamsa::Raman => SE_SIDM_RAMAN,
        Ayanamsa::Krishnamurti => SE_SIDM_KRISHNAMURTI,
        Ayanamsa::Yukteswar => SE_SIDM_YUKTESHWAR,
        Ayanamsa::TrueChitra => SE_SIDM_TRUE_CITRA,
        Ayanamsa::TrueRevati => SE_SIDM_TRUE_REVATI,
    }
}

/// Distinct ayanamsas select distinct sidereal modes, so the selection is never ambiguous.
pub proof fn lemma_sid_modes_distinct(a: Ayanamsa, b: Ayanamsa)
    ensures
        a != b ==> spec_sid_mode(a) != spec_sid_mode(b),
        0 <= spec_sid_mode(a),
{
}

} // verus!
