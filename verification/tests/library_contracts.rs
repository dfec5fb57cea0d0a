use rubrum_swisseph::adapter;
use rubrum_swisseph::adapter::body::{occupant_from_swisseph_body, SwissBody, UNSUPPORTED_BODY};
use rubrum_swisseph::adapter::calc::{
    placement_ephemeris_from_ecliptic_position, placement_motion_from_ecliptic_position,
};
use rubrum_swisseph::adapter::chart::{Angle, Body, ChartPoint, House, Motion, Occupant};
use rubrum_swisseph::adapter::error::AdapterError;
use rubrum_swisseph::adapter::house_system::{house_system_to_swisseph, HouseSystem, HouseSystemKind};
use rubrum_swisseph::adapter::houses::{
    angle_placements_from_swisseph, house_cusps_from_swisseph, house_from_floored_house_pos, AscMc,
    Cusp, HOUSE_POS_FIELD, NO_HOUSE_MESSAGE,
};
use rubrum_swisseph::adapter::zodiac::{ayanamsa_to_swisseph_sid_mode, Ayanamsa};

fn invalid(bits: u64) -> AdapterError {
    AdapterError::InvalidValue { field: "longitude", value_bits: bits, message: "must be finite" }
}

fn cusp_of(values: [Result<u32, AdapterError>; 12]) -> Cusp<Result<u32, AdapterError>> {
    let [first, second, third, fourth, fifth, sixth, seventh, eighth, ninth, tenth, eleventh, twelfth] =
        values;
    Cusp { first, second, third, fourth, fifth, sixth, seventh, eighth, ninth, tenth, eleventh, twelfth }
}

#[test]
fn physical_bodies_become_bodies() {
    assert_eq!(occupant_from_swisseph_body(SwissBody::Sun), Ok(Occupant::Body(Body::Sun)));
    assert_eq!(occupant_from_swisseph_body(SwissBody::Earth), Ok(Occupant::Body(Body::Earth)));
    assert_eq!(occupant_from_swisseph_body(SwissBody::Vesta), Ok(Occupant::Body(Body::Vesta)));
}

#[test]
fn nodes_apogees_and_nutation_become_chart_points() {
    assert_eq!(
        occupant_from_swisseph_body(SwissBody::MeanNode),
        Ok(Occupant::ChartPoint(ChartPoint::MeanNode))
    );
    assert_eq!(
        occupant_from_swisseph_body(SwissBody::IntpPerg),
        Ok(Occupant::ChartPoint(ChartPoint::IntpPerg))
    );
    assert_eq!(
        occupant_from_swisseph_body(SwissBody::EclNut),
        Ok(Occupant::ChartPoint(ChartPoint::EclNut))
    );
}

#[test]
fn unmapped_bodies_are_unsupported() {
    for body in [SwissBody::Lilith, SwissBody::Cupido, SwissBody::Astraea, SwissBody::Nessus] {
        assert_eq!(
            occupant_from_swisseph_body(body),
            Err(AdapterError::Unsupported(UNSUPPORTED_BODY))
        );
    }
    assert_eq!(UNSUPPORTED_BODY, "swisseph::Body variant not mapped to rubrum");
}

#[test]
fn distinct_bodies_give_distinct_occupants() {
    let supported = [
        SwissBody::Sun,
        SwissBody::Moon,
        SwissBody::Mercury,
        SwissBody::Venus,
        SwissBody::Mars,
        SwissBody::Jupiter,
        SwissBody::Saturn,
        SwissBody::Uranus,
        SwissBody::Neptune,
        SwissBody::Pluto,
        SwissBody::Earth,
        SwissBody::Chiron,
        SwissBody::Pholus,
        SwissBody::Ceres,
        SwissBody::Pallas,
        SwissBody::Juno,
        SwissBody::Vesta,
        SwissBody::MeanNode,
        SwissBody::TrueNode,
        SwissBody::MeanApog,
        SwissBody::OscuApog,
        SwissBody::IntpApog,
        SwissBody::IntpPerg,
        SwissBody::EclNut,
    ];
    let occupants: Vec<Occupant> =
        supported.iter().map(|b| occupant_from_swisseph_body(*b).unwrap()).collect();
    for i in 0..occupants.len() {
        assert!(!matches!(occupants[i], Occupant::Angle(_)));
        for j in (i + 1)..occupants.len() {
            assert_ne!(occupants[i], occupants[j]);
        }
    }
}

#[test]
fn house_systems_map_to_swisseph_kinds() {
    assert_eq!(house_system_to_swisseph(HouseSystem::Placidus), HouseSystemKind::Placidus);
    assert_eq!(house_system_to_swisseph(HouseSystem::NoHouses), HouseSystemKind::Placidus);
    assert_eq!(house_system_to_swisseph(HouseSystem::Porphyry), HouseSystemKind::Porphyrius);
    assert_eq!(
        house_system_to_swisseph(HouseSystem::Meridian),
        HouseSystemKind::AxialRotationSystemMeridianSystemZariel
    );
    assert_eq!(house_system_to_swisseph(HouseSystem::Alcabitius), HouseSystemKind::Alcabitus);
    assert_eq!(
        house_system_to_swisseph(HouseSystem::Topocentric),
        HouseSystemKind::PolichPageTopocentricSystem
    );
}

#[test]
fn house_systems_with_houses_get_distinct_kinds() {
    let systems = [
        HouseSystem::Placidus,
        HouseSystem::Koch,
        HouseSystem::Porphyry,
        HouseSystem::Regiomontanus,
        HouseSystem::Campanus,
        HouseSystem::Equal,
        HouseSystem::WholeSign,
        HouseSystem::Meridian,
        HouseSystem::Alcabitius,
        HouseSystem::Morinus,
        HouseSystem::Topocentric,
    ];
    for i in 0..systems.len() {
        for j in (i + 1)..systems.len() {
            assert_ne!(house_system_to_swisseph(systems[i]), house_system_to_swisseph(systems[j]));
        }
    }
}

#[test]
fn ayanamsas_select_swisseph_sidereal_modes() {
    let expected = [
        (Ayanamsa::FaganBradley, 0),
        (Ayanamsa::Lahiri, 1),
        (Ayanamsa::Raman, 3),
        (Ayanamsa::Krishnamurti, 5),
        (Ayanamsa::Yukteswar, 7),
        (Ayanamsa::TrueChitra, 27),
        (Ayanamsa::TrueRevati, 28),
    ];
    for (ayanamsa, mode) in expected {
        assert_eq!(ayanamsa_to_swisseph_sid_mode(ayanamsa), mode);
    }
}

#[test]
fn house_numbers_round_trip() {
    for n in 1..=12 {
        let house = House::from_1_based_i32(n).unwrap();
        assert_eq!(house.to_1_based_i32(), n);
    }
    assert_eq!(House::from_1_based_i32(0), None);
    assert_eq!(House::from_1_based_i32(13), None);
    assert_eq!(House::from_1_based_i32(-1), None);
}

#[test]
fn floored_house_pos_outside_houses_is_invalid() {
    let bits = 13.0f64.to_bits();
    assert_eq!(
        house_from_floored_house_pos(13, bits),
        Err(AdapterError::InvalidValue {
            field: HOUSE_POS_FIELD,
            value_bits: bits,
            message: NO_HOUSE_MESSAGE,
        })
    );
    assert!(house_from_floored_house_pos(0, 0).is_err());
    assert_eq!(house_from_floored_house_pos(7, 7.5f64.to_bits()), Ok(House::Seventh));
    assert_eq!(HOUSE_POS_FIELD, "house_pos");
    assert_eq!(NO_HOUSE_MESSAGE, "did not map to a 1..=12 house");
}

#[test]
fn cusps_come_in_house_order() {
    let values: [Result<u32, AdapterError>; 12] = std::array::from_fn(|i| Ok(100 + i as u32));
    let cusps = house_cusps_from_swisseph(cusp_of(values)).unwrap();
    assert_eq!(cusps.len(), 12);
    for (i, c) in cusps.iter().enumerate() {
        assert_eq!(c.house.to_1_based_i32(), i as i32 + 1);
        assert_eq!(c.sign_degree, 100 + i as u32);
    }
    assert_eq!(cusps[11].house, House::Twelfth);
}

#[test]
fn cusps_report_the_first_invalid_longitude() {
    let mut values: [Result<u32, AdapterError>; 12] = std::array::from_fn(|i| Ok(i as u32));
    values[2] = Err(invalid(3));
    values[4] = Err(invalid(5));
    assert_eq!(house_cusps_from_swisseph(cusp_of(values)), Err(invalid(3)));

    let mut values: [Result<u32, AdapterError>; 12] = std::array::from_fn(|i| Ok(i as u32));
    values[11] = Err(invalid(12));
    assert_eq!(house_cusps_from_swisseph(cusp_of(values)), Err(invalid(12)));
}

#[test]
fn angles_come_in_order_and_report_the_first_error() {
    let placements =
        angle_placements_from_swisseph(AscMc { ascendant: Ok(1u8), mc: Ok(2), vertex: Ok(3) })
            .unwrap();
    let occupants: Vec<Occupant> = placements.iter().map(|p| p.occupant).collect();
    assert_eq!(
        occupants,
        vec![
            Occupant::Angle(Angle::Ascendant),
            Occupant::Angle(Angle::Midheaven),
            Occupant::Angle(Angle::Vertex)
        ]
    );
    let degrees: Vec<u8> = placements.iter().map(|p| p.sign_degree).collect();
    assert_eq!(degrees, vec![1, 2, 3]);

    assert_eq!(
        angle_placements_from_swisseph(AscMc { ascendant: Ok(1u8), mc: Err(invalid(2)), vertex: Ok(3) }),
        Err(invalid(2))
    );
    assert_eq!(
        angle_placements_from_swisseph::<u8>(AscMc {
            ascendant: Err(invalid(1)),
            mc: Ok(2),
            vertex: Err(invalid(3))
        }),
        Err(invalid(1))
    );
}

#[test]
fn body_error_comes_before_longitude_error() {
    assert_eq!(
        placement_motion_from_ecliptic_position::<u8>(SwissBody::Lilith, Err(invalid(9)), false),
        Err(AdapterError::Unsupported(UNSUPPORTED_BODY))
    );
    assert_eq!(
        placement_motion_from_ecliptic_position::<u8>(SwissBody::Moon, Err(invalid(9)), true),
        Err(invalid(9))
    );
    assert_eq!(
        placement_ephemeris_from_ecliptic_position::<u8, ()>(SwissBody::Hades, Ok(1), true, ()),
        Err(AdapterError::Unsupported(UNSUPPORTED_BODY))
    );
}

#[test]
fn zero_speed_is_direct_motion() {
    let pm = placement_motion_from_ecliptic_position(SwissBody::TrueNode, Ok(42u16), 0.0f64 < 0.0)
        .unwrap();
    assert_eq!(pm.motion, Motion::Direct);
    assert_eq!(pm.placement.occupant, Occupant::ChartPoint(ChartPoint::TrueNode));
    assert_eq!(pm.placement.sign_degree, 42);
}

#[test]
fn ephemeris_keeps_placement_motion_and_extras() {
    let pm = placement_motion_from_ecliptic_position(SwissBody::Saturn, Ok(7u8), true).unwrap();
    let pe = placement_ephemeris_from_ecliptic_position(SwissBody::Saturn, Ok(7u8), true, "extras")
        .unwrap();
    assert_eq!(pe.placement_motion, pm);
    assert_eq!(pe.extras, "extras");
    assert_eq!(pm.motion, Motion::Retrograde);
}

#[test]
fn swiss_ephemeris_messages_become_errors() {
    let err: AdapterError = String::from("file not found").into();
    assert_eq!(err, AdapterError::SwissEphemeris(String::from("file not found")));
    let _ = adapter::error::AdapterError::from(String::new());
}
