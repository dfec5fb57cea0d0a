//! The chart values that the adapter produces: occupants, houses, motion and placements.
//!
//! A sign degree is a floating-point value, so the types that carry one are generic over it:
//! the library decides which sign degree goes where, the caller supplies the values.

use vstd::prelude::*;

verus! {

/// The classical twelve houses.
#[derive(Clone, Copy, Debug, PartialEq, Eq, Structural)]
pub enum House {
    First,
    Second,
    Third,
    Fourth,
    Fifth,
    Sixth,
    Seventh,
    Eighth,
    Ninth,
    Tenth,
    Eleventh,
    Twelfth,
}

/// The twelve houses in their fixed order, first to twelfth: the house numbered `n` is
/// entry `n - 1`.
pub open spec fn houses_in_order() -> Seq<House> {
    seq![
        House::First,
        House::Second,
        House::Third,
        House::Fourth,
        House::Fifth,
        House::Sixth,
        House::Seventh,
        House::Eighth,
        House::Ninth,
        House::Tenth,
        House::Eleventh,
        House::Twelfth,
    ]
}

impl House {
    /// The house's 1-based number.
    pub open spec fn number(self) -> int {
        match self {
            House::First => 1,
            House::Second => 2,
            House::Third => 3,
            House::Fourth => 4,
            House::Fifth => 5,
            House::Sixth => 6,
            House::Seventh => 7,
            House::Eighth => 8,
            House::Ninth => 9,
            House::Tenth => 10,
            House::Eleventh => 11,
            House::Twelfth => 12,
        }
    }

    /// The house numbered `n`, if `n` is in `1..=12`.
    pub open spec fn with_number(n: int) -> Option<House> {
        if n == 1 {
            Some(House::First)
        } else if n == 2 {
            Some(House::Second)
        } else if n == 3 {
            Some(House::Third)
        } else if n == 4 {
            Some(House::Fourth)
        } else if n == 5 {
            Some(House::Fifth)
        } else if n == 6 {
            Some(House::Sixth)
        } else if n == 7 {
            Some(House::Seventh)
        } else if n == 8 {
            Some(House::Eighth)
        } else if n == 9 {
            Some(House::Ninth)
        } else if n == 10 {
            Some(House::Tenth)
        } else if n == 11 {
            Some(House::Eleventh)
        } else if n == 12 {
            Some(House::Twelfth)
        } else {
            None
        }
    }

    /// The house with the 1-based number `n`; `None` outside `1..=12`.
    pub fn from_1_based_i32(n: i32) -> (house: Option<House>)
        ensures
            house == House::with_number(n as int),
            house is Some <==> 1 <= n <= 12,
            house matches Some(h) ==> h.number() == n,
            1 <= n <= 12 ==> house == Some(houses_in_order()[n - 1]),
    {
        match n {
            1 => Some(House::First),
            2 => Some(House::Second),
            3 => Some(House::Third),
            4 => Some(House::Fourth),
            5 => Some(House::Fifth),
            6 => Some(House::Sixth),
            7 => Some(House::Seventh),
            8 => Some(House::Eighth),
            9 => Some(House::Ninth),
            10 => Some(House::Tenth),
            11 => Some(House::Eleventh),
            12 => Some(House::Twelfth),
            _ => None,
        }
    }

    /// The house's 1-based number.
    pub fn to_1_based_i32(&self) -> (n: i32)
        ensures
            n == self.number(),
            1 <= n <= 12,
            houses_in_order()[n - 1] == *self,
    {
        match self {
            House::First => 1,
            House::Second => 2,
            House::Third => 3,
            House::Fourth => 4,
            House::Fifth => 5,
            House::Sixth => 6,
            House::Seventh => 7,
            House::Eighth => 8,
            House::Ninth => 9,
            House::Tenth => 10,
            House::Eleventh => 11,
            House::Twelfth => 12,
        }
    }
}

/// Numbering a house and looking the number up again gives the same house, and every
/// number in `1..=12` names the house that carries it.
pub proof fn lemma_house_number_round_trip(h: House, n: int)
    ensures
        1 <= n <= 12 ==> House::with_number(n) == Some(houses_in_order()[n - 1]),
        houses_in_order()[h.number() - 1] == h,
        1 <= h.number() <= 12,
        House::with_number(h.number()) == Some(h),
        House::with_number(n) matches Some(g) ==> g.number() == n,
        House::with_number(n) is Some <==> 1 <= n <= 12,
{
}

/// House numbers follow the houses' fixed order: 1 is the first house, 2 the second, and so
/// on to 12, the twelfth; in particular the fourth house (IC) is 4 and the tenth (MC) is 10.
pub proof fn lemma_house_numbers_follow_order(n: int)
    requires
        1 <= n <= 12,
    ensures
        House::with_number(n) == Some(
            seq![
                House::First,
                House::Second,
                House::Third,
                House::Fourth,
                House::Fifth,
                House::Sixth,
                House::Seventh,
                House::Eighth,
                House::Ninth,
                House::Tenth,
                House::Eleventh,
                House::Twelfth,
            ][n - 1],
        ),
        seq![
            House::First,
            House::Second,
            House::Third,
            House::Fourth,
            House::Fifth,
            House::Sixth,
            House::Seventh,
            House::Eighth,
            House::Ninth,
            House::Tenth,
            House::Eleventh,
            House::Twelfth,
        ][n - 1].number() == n,
{
}

/// A physical body that the ephemeris resolves.
#[derive(Clone, Copy, Debug, PartialEq, Eq, Structural)]
pub enum Body {
    Sun,
    Moon,
    Mercury,
    Venus,
    Mars,
    Jupiter,
    Saturn,
    Uranus,
    Neptune,
    Pluto,
    Earth,
    Chiron,
    Pholus,
    Ceres,
    Pallas,
    Juno,
    Vesta,
}

/// A non-physical point of the chart: nodes, apogees and nutation.
#[derive(Clone, Copy, Debug, PartialEq, Eq, Structural)]
pub enum ChartPoint {
    EclNut,
    MeanNode,
    TrueNode,
    MeanApog,
    OscuApog,
    IntpApog,
    IntpPerg,
}

/// A chart angle.
#[derive(Clone, Copy, Debug, PartialEq, Eq, Structural)]
pub enum Angle {
    Ascendant,
    Midheaven,
    Vertex,
}

/// What stands at a placement.
#[derive(Clone, Copy, Debug, PartialEq, Eq, Structural)]
pub enum Occupant {
    Body(Body),
    ChartPoint(ChartPoint),
    Angle(Angle),
}

/// Apparent motion along the ecliptic.
#[derive(Clone, Copy, Debug, PartialEq, Eq, Structural)]
pub enum Motion {
    Direct,
    Retrograde,
}

/// An occupant placed at a sign degree.
#[derive(Debug, PartialEq)]
pub struct Placement<S> {
    pub sign_degree: S,
    pub occupant: Occupant,
}

/// A placement together with its apparent motion.
#[derive(Debug, PartialEq)]
pub struct PlacementMotion<S> {
    pub placement: Placement<S>,
    pub motion: Motion,
}

/// A placement with its motion and the ephemeris values that came with it.
#[derive(Debug, PartialEq)]
pub struct PlacementEphemeris<S, X> {
    pub placement_motion: PlacementMotion<S>,
    pub extras: X,
}

/// The sign degree at which a house begins.
#[derive(Debug, PartialEq)]
pub struct HouseSignDegree<S> {
    pub house: House,
    pub sign_degree: S,
}

} // verus!
