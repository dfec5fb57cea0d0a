use vstd::prelude::*;

use crate::adapter::chart::{houses_in_order, Angle, House, HouseSignDegree, Occupant, Placement};
use crate::adapter::error::{all_ok, is_first_error, AdapterError};

verus! {

/// The twelve house cusps as Swiss Ephemeris lists them, first to twelfth.
#[derive(Debug, PartialEq)]
pub struct Cusp<T> {
    pub first: T,
    pub second: T,
    pub third: T,
    pub fourth: T,
    pub fifth: T,
    pub sixth: T,
    pub seventh: T,
    pub eighth: T,
    pub ninth: T,
    pub tenth: T,
    pub eleventh: T,
    pub twelfth: T,
}

impl<T> Cusp<T> {
    /// The cusps in house order: entry `i` belongs to house `i + 1`.
    pub open spec fn entries(self) -> Seq<T> {
        seq![self.first, self.second, self.third, self.fourth, self.fifth, self.sixth, self.seventh, self.eighth, self.ninth, self.tenth, self.eleventh, self.twelfth]
    }

    /// The cusps in house order.
    pub fn into_vec(self) -> (v: Vec<T>)
        ensures
            v@ == self.entries(),
    {
        let ghost entries = self.entries();
        let mut v: Vec<T> = Vec::new();
        v.push(self.first);
        v.push(self.second);
        v.push(self.third);
        v.push(self.fourth);
        v.push(self.fifth);
        v.push(self.sixth);
        v.push(self.seventh);
        v.push(self.eighth);
        v.push(self.ninth);
        v.push(self.tenth);
        v.push(self.eleventh);
        v.push(self.twelfth);
        assert(v@ =~= entries);
        v
    }
}

/// Pair each cusp with its house, in house order.
///
/// `cusp` holds, for each house, the sign degree of its cusp longitude, or the error that
/// converting that longitude gave. The result is always twelve entries, first house to
/// twelfth; if a longitude could not be converted, the error of the first such cusp is
/// returned instead.
pub fn house_cusps_from_swisseph<S>(cusp: Cusp<Result<S, AdapterError>>) -> (res: Result<
    Vec<HouseSignDegree<S>>,
    AdapterError,
>)
    ensures
        res is Ok <==> all_ok(cusp.entries()),
        res matches Ok(out) ==> {
            &&& out@.len() == 12
            &&& forall|i: int|
                0 <= i < 12 ==> (#[trigger] out@[i]).house.number() == i + 1 && out@[i].house
                    == houses_in_order()[i] && cusp.entries()[i] == Ok::<S, AdapterError>(
                    out@[i].sign_degree,
                )
        },
        res matches Err(e) ==> is_first_error(cusp.entries(), e),
{
    let ghost entries = cusp.entries();
    let mut rest = cusp.into_vec();
    let mut out: Vec<HouseSignDegree<S>> = Vec::new();
    let mut n: i32 = 1;
    while n <= 12
        invariant
            entries == cusp.entries(),
            entries.len() == 12,
            1 <= n <= 13,
            rest@ == entries.skip(n - 1),
            out@.len() == n - 1,
            forall|i: int|
                0 <= i < n - 1 ==> (#[trigger] out@[i]).house.number() == i + 1 && out@[i].house
                    == houses_in_order()[i] && entries[i] == Ok::<S, AdapterError>(
                    out@[i].sign_degree,
                ),
        decreases 13 - n,
    {
        let ghost before = rest@;
        let entry = rest.remove(0);
        assert(rest@ =~= entries.skip(n as int));
        assert(entry == entries[n - 1]);
        match entry {
            Ok(sign_degree) => {
                let house = House::from_1_based_i32(n).unwrap();
                out.push(HouseSignDegree { house, sign_degree });
            },
            Err(e) => {
                assert forall|j: int| 0 <= j < n - 1 implies (#[trigger] entries[j]) is Ok by {
                    assert(entries[j] == Ok::<S, AdapterError>(out@[j].sign_degree));
                }
                assert(entries[n - 1] == Err::<S, AdapterError>(e));
                assert(is_first_error(entries, e));
                assert(!all_ok(entries)) by {
                    assert(!(entries[n - 1] is Ok));
                }
                return Err(e);
            },
        }
        n = n + 1;
    }
    assert(all_ok(entries)) by {
        assert forall|i: int| 0 <= i < entries.len() implies (#[trigger] entries[i]) is Ok by {
            assert(entries[i] == Ok::<S, AdapterError>(out@[i].sign_degree));
        }
    }
    Ok(out)
}

/// The chart angles that Swiss Ephemeris reports with the house cusps.
#[derive(Debug, PartialEq)]
pub struct AscMc<T> {
    pub ascendant: T,
    pub mc: T,
    pub vertex: T,
}

impl<T> AscMc<T> {
    /// The mapped angles in order: ascendant, midheaven, vertex.
    pub open spec fn entries(self) -> Seq<T> {
        seq![self.ascendant, self.mc, self.vertex]
    }
}

/// The angles that the adapter maps, in order.
pub open spec fn mapped_angles() -> Seq<Angle> {
    seq![Angle::Ascendant, Angle::Midheaven, Angle::Vertex]
}

/// Place the chart angles: the ascendant, the midheaven (MC) and the vertex, in that order.
///
/// `asc_mc` holds the sign degree of each angle's longitude, or the error that converting it
/// gave; the first such error, in the order above, is returned instead of the placements.
pub fn angle_placements_from_swisseph<S>(asc_mc: AscMc<Result<S, AdapterError>>) -> (res: Result<
    Vec<Placement<S>>,
    AdapterError,
>)
    ensures
        res is Ok <==> all_ok(asc_mc.entries()),
        res matches Ok(out) ==> {
            &&& out@.len() == 3
            &&& forall|i: int|
                0 <= i < 3 ==> (#[trigger] out@[i]).occupant == Occupant::Angle(mapped_angles()[i])
                    && asc_mc.entries()[i] == Ok::<S, AdapterError>(out@[i].sign_degree)
        },
        res matches Err(e) ==> is_first_error(asc_mc.entries(), e),
{
    let ghost entries = asc_mc.entries();
    let mut placements: Vec<Placement<S>> = Vec::new();
    let asc = match asc_mc.ascendant {
        Ok(s) => s,
        Err(e) => {
            assert(entries[0] == Err::<S, AdapterError>(e));
            return Err(e);
        },
    };
    placements.push(Placement { sign_degree: asc, occupant: Occupant::Angle(Angle::Ascendant) });
    let mc = match asc_mc.mc {
        Ok(s) => s,
        Err(e) => {
            assert(entries[1] == Err::<S, AdapterError>(e));
            assert(entries[0] is Ok);
            return Err(e);
        },
    };
    placements.push(Placement { sign_degree: mc, occupant: Occupant::Angle(Angle::Midheaven) });
    let vx = match asc_mc.vertex {
        Ok(s) => s,
        Err(e) => {
            assert(entries[2] == Err::<S, AdapterError>(e));
            assert(entries[0] is Ok && entries[1] is Ok);
            return Err(e);
        },
    };
    placements.push(Placement { sign_degree: vx, occupant: Occupant::Angle(Angle::Vertex) });
    assert(entries[0] is Ok && entries[1] is Ok && entries[2] is Ok);
    Ok(placements)
}

/// The field name that house position errors carry.
pub const HOUSE_POS_FIELD: &'static str = "house_pos";

/// The message of the error for a floored house position that names no house.
pub const NO_HOUSE_MESSAGE: &'static str = "did not map to a 1..=12 house";

/// The house of a Swiss Ephemeris house position, from the position floored to an integer.
///
/// `house_pos_bits` is the bit pattern of the position before flooring; it is reported in
/// the error when the floored value is not a house number in `1..=12`.
pub fn house_from_floored_house_pos(floored: i32, house_pos_bits: u64) -> (res: Result<
    House,
    AdapterError,
>)
    ensures
        res is Ok <==> 1 <= floored <= 12,
        res matches Ok(h) ==> h.number() == floored,
        1 <= floored <= 12 ==> res == Ok::<House, AdapterError>(houses_in_order()[floored - 1]),
        res is Err ==> res == Err::<House, AdapterError>(
            AdapterError::InvalidValue {
                field: HOUSE_POS_FIELD,
                value_bits: house_pos_bits,
                message: NO_HOUSE_MESSAGE,
            },
        ),
{
    match House::from_1_based_i32(floored) {
        Some(h) => Ok(h),
        None => Err(
            AdapterError::InvalidValue {
                field: HOUSE_POS_FIELD,
                value_bits: house_pos_bits,
                message: NO_HOUSE_MESSAGE,
            },
        ),
    }
}

} // verus!
