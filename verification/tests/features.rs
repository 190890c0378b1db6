use amdb_parser::amdb::geo_json::{self, Coordinate, Geometry};
use amdb_parser::amdb::layers;
use amdb_parser::enums::{
    Availability, Bridge, CatStop, Direction, GroundSurfaceType, LandingCategory, LineColour,
    PapiVasi, Status, Style, SurfaceType, ThresholdType,
};
use amdb_parser::error::{DecodeError, FormatError};
use amdb_parser::geometry::{Coord, LineString};
use amdb_parser::identifiers::{HoldingPointTarget, RunwayId};
use amdb_parser::identity::AmdbElement;
use amdb_parser::implementations::FromFeature;
use amdb_parser::number::Double;
use amdb_parser::output_types::{
    AerodromeReferencePoint, ApronElement, PaintedCenterline, ParkingStandArea,
    ParkingStandLocation, RunwayDisplacedArea, RunwayElement, RunwayExitLine, RunwayMarking,
    RunwayShoulder, RunwayThreshold, StandGuidanceLine, TaxiwayElement, TaxiwayGuidanceLine,
    TaxiwayHoldingPosition, TaxiwayShoulder,
};
use std::collections::hash_map::DefaultHasher;
use std::hash::{Hash, Hasher};

fn number(value: f64) -> Double {
    Double { bits: value.to_bits() }
}

fn value_of(number: Double) -> f64 {
    f64::from_bits(number.bits)
}

fn coordinate(lon: f64, lat: f64) -> Coordinate {
    Coordinate { lat: number(lat), lon: number(lon) }
}

fn point(x: f64, y: f64) -> Coord {
    Coord { x: number(x), y: number(y) }
}

fn text(value: &str) -> Option<String> {
    Some(String::from(value))
}

fn at(lon: f64, lat: f64) -> Geometry<Coordinate> {
    Geometry { type_: String::from("Point"), coordinates: coordinate(lon, lat) }
}

fn along() -> Geometry<Vec<Coordinate>> {
    Geometry {
        type_: String::from("LineString"),
        coordinates: vec![coordinate(1.0, 10.0), coordinate(2.0, 20.0), coordinate(3.0, 30.0)],
    }
}

fn path() -> LineString {
    LineString(vec![point(1.0, 10.0), point(2.0, 20.0), point(3.0, 30.0)])
}

fn triangle() -> Geometry<Vec<Vec<Coordinate>>> {
    Geometry {
        type_: String::from("Polygon"),
        coordinates: vec![vec![
            coordinate(0.0, 0.0),
            coordinate(4.0, 0.0),
            coordinate(4.0, 3.0),
            coordinate(0.0, 0.0),
        ]],
    }
}

fn boundary() -> LineString {
    LineString(vec![point(0.0, 0.0), point(4.0, 0.0), point(4.0, 3.0), point(0.0, 0.0)])
}

fn no_rings() -> Geometry<Vec<Vec<Coordinate>>> {
    Geometry { type_: String::from("Polygon"), coordinates: vec![] }
}

fn hash_of<T: Hash>(value: &T) -> u64 {
    let mut hasher = DefaultHasher::new();
    value.hash(&mut hasher);
    hasher.finish()
}

#[test]
fn reference_point_of_an_example_airport() {
    let feature = geo_json::Point {
        geometry: at(-80.0, 40.0),
        properties: layers::AerodromeReferencePoint {
            id: 1,
            idarpt: String::from("KXYZ"),
            iata: String::from("XYZ"),
            name: String::from("Example"),
            elev: number(100.0),
        },
    };
    let record = AerodromeReferencePoint::from_feature(feature).unwrap();
    assert_eq!(record.id, 1);
    assert_eq!(record.airport_id, "KXYZ");
    assert_eq!(record.iata_id, "XYZ");
    assert_eq!(record.airport_name, "Example");
    assert_eq!(value_of(record.elevation), 100.0);
    assert_eq!(value_of(record.location.x), -80.0);
    assert_eq!(value_of(record.location.y), 40.0);
}

#[test]
fn apron_element_with_empty_apron_and_first_surface() {
    let feature = geo_json::Polygon {
        geometry: triangle(),
        properties: layers::ApronElement { id: 7, idapron: text(""), gsurftyp: 0, status: 1 },
    };
    let record = ApronElement::from_feature(feature).unwrap();
    assert_eq!(record.id, 7);
    assert_eq!(record.apron_id, None);
    assert_eq!(record.surface_type, GroundSurfaceType::Concrete);
    assert_eq!(record.geometry.exterior, boundary());
    assert!(record.geometry.interiors.is_empty());
}

#[test]
fn apron_element_keeps_a_name_and_an_unknown_surface() {
    let feature = geo_json::Polygon {
        geometry: triangle(),
        properties: layers::ApronElement { id: 8, idapron: text("North"), gsurftyp: 99, status: 0 },
    };
    let record = ApronElement::from_feature(feature).unwrap();
    assert_eq!(record.apron_id, text("North"));
    assert_eq!(record.surface_type, GroundSurfaceType::Unknown(99));
}

#[test]
fn apron_element_without_a_ring_is_refused() {
    let feature = geo_json::Polygon {
        geometry: no_rings(),
        properties: layers::ApronElement { id: 9, idapron: None, gsurftyp: 1, status: 1 },
    };
    assert_eq!(ApronElement::from_feature(feature), Err(DecodeError::MissingOuterRing));
}

#[test]
fn runway_element_fields() {
    let feature = geo_json::Polygon {
        geometry: triangle(),
        properties: layers::RunwayElement {
            id: 11,
            idrwy: String::from("09L.27R"),
            width: number(45.0),
            length: number(3200.5),
            surftype: 2,
        },
    };
    let record = RunwayElement::from_feature(feature).unwrap();
    assert_eq!(record.id, 11);
    assert_eq!(record.runway_id, RunwayId(String::from("09L"), String::from("27R")));
    assert_eq!(value_of(record.width), 45.0);
    assert_eq!(value_of(record.length), 3200.5);
    assert_eq!(record.surface_type, SurfaceType::AsphaltGrooved);
    assert_eq!(record.geometry.exterior, boundary());
}

#[test]
fn runway_element_with_a_plain_identifier_is_refused() {
    let feature = geo_json::Polygon {
        geometry: triangle(),
        properties: layers::RunwayElement {
            id: 12,
            idrwy: String::from("09L"),
            width: number(45.0),
            length: number(3200.0),
            surftype: 0,
        },
    };
    assert_eq!(
        RunwayElement::from_feature(feature),
        Err(DecodeError::MalformedRunwayId(FormatError::MissingSeparator))
    );
}

#[test]
fn runway_identifier_is_judged_before_the_area() {
    let feature = geo_json::Polygon {
        geometry: no_rings(),
        properties: layers::RunwayElement {
            id: 13,
            idrwy: String::from("A.B.C"),
            width: number(45.0),
            length: number(3200.0),
            surftype: 0,
        },
    };
    assert_eq!(
        RunwayElement::from_feature(feature),
        Err(DecodeError::MalformedRunwayId(FormatError::ExtraSeparator))
    );
    let feature = geo_json::Polygon {
        geometry: no_rings(),
        properties: layers::RunwayElement {
            id: 13,
            idrwy: String::from("A.B"),
            width: number(45.0),
            length: number(3200.0),
            surftype: 0,
        },
    };
    assert_eq!(RunwayElement::from_feature(feature), Err(DecodeError::MissingOuterRing));
}

#[test]
fn runway_marking_fields() {
    let feature = geo_json::Polygon {
        geometry: triangle(),
        properties: layers::RunwayMarking { id: 21, idrwy: String::from("04.22") },
    };
    let record = RunwayMarking::from_feature(feature).unwrap();
    assert_eq!(record.id, 21);
    assert_eq!(record.runway_id, RunwayId(String::from("04"), String::from("22")));
    assert_eq!(record.geometry.exterior, boundary());
    let feature = geo_json::Polygon {
        geometry: triangle(),
        properties: layers::RunwayMarking { id: 22, idrwy: String::from("04.") },
    };
    assert_eq!(
        RunwayMarking::from_feature(feature),
        Err(DecodeError::MalformedRunwayId(FormatError::EmptyPart))
    );
}

#[test]
fn runway_shoulder_fields() {
    let feature = geo_json::Polygon {
        geometry: triangle(),
        properties: layers::RunwayShoulder {
            id: 31,
            idrwy: String::from("04.22"),
            status: 1,
            gsurftyp: 6,
        },
    };
    let record = RunwayShoulder::from_feature(feature).unwrap();
    assert_eq!(record.id, 31);
    assert_eq!(record.runway_id, RunwayId(String::from("04"), String::from("22")));
    assert_eq!(record.status, Status::Open);
    assert_eq!(record.surface_type, GroundSurfaceType::GrassOrTurf);
    assert_eq!(record.geometry.exterior, boundary());
}

#[test]
fn runway_displaced_area_fields() {
    let feature = geo_json::Polygon {
        geometry: triangle(),
        properties: layers::RunwayDisplacedArea {
            id: 41,
            idthr: String::from("09L"),
            status: 0,
            surftype: 3,
        },
    };
    let record = RunwayDisplacedArea::from_feature(feature).unwrap();
    assert_eq!(record.id, 41);
    assert_eq!(record.threshold_id, "09L");
    assert_eq!(record.status, Status::Closed);
    assert_eq!(record.surface_type, SurfaceType::AsphaltNonGrooved);
    assert_eq!(record.geometry.exterior, boundary());
}

#[test]
fn parking_stand_area_fields() {
    let feature = geo_json::Polygon {
        geometry: triangle(),
        properties: layers::ParkingStandArea {
            id: 51,
            idstd: text("A12"),
            gsurftyp: 1,
            idapron: text("$UNK"),
            jetway: 1,
            fuel: String::from("JetA1"),
            restacn: text("B748"),
            towing: 0,
            gndpower: 5,
            termref: text(""),
        },
    };
    let record = ParkingStandArea::from_feature(feature).unwrap();
    assert_eq!(record.id, 51);
    assert_eq!(record.stand_id, text("A12"));
    assert_eq!(record.apron_id, None);
    assert_eq!(record.surface_type, GroundSurfaceType::Asphalt);
    assert_eq!(record.jetway, Availability::Available);
    assert_eq!(record.fuel, "JetA1");
    assert_eq!(record.towing, Availability::Unavailable);
    assert_eq!(record.ground_power, Availability::Unknown(5));
    assert_eq!(record.terminal_name, None);
    assert_eq!(record.geometry.exterior, boundary());
}

#[test]
fn fuel_is_not_normalized() {
    let feature = geo_json::Polygon {
        geometry: triangle(),
        properties: layers::ParkingStandArea {
            id: 52,
            idstd: None,
            gsurftyp: 1,
            idapron: None,
            jetway: 0,
            fuel: String::from("$UNK"),
            restacn: None,
            towing: 0,
            gndpower: 0,
            termref: text("T1"),
        },
    };
    let record = ParkingStandArea::from_feature(feature).unwrap();
    assert_eq!(record.fuel, "$UNK");
    assert_eq!(record.stand_id, None);
    assert_eq!(record.terminal_name, text("T1"));
}

#[test]
fn taxiway_element_fields() {
    let feature = geo_json::Polygon {
        geometry: triangle(),
        properties: layers::TaxiwayElement {
            id: 61,
            idlin: text("B"),
            idapron: text(""),
            gsurftyp: 0,
            bridge: 2,
        },
    };
    let record = TaxiwayElement::from_feature(feature).unwrap();
    assert_eq!(record.id, 61);
    assert_eq!(record.taxiway_id, text("B"));
    assert_eq!(record.apron_id, None);
    assert_eq!(record.surface_type, GroundSurfaceType::Concrete);
    assert_eq!(record.bridge, Bridge::Overpass);
    assert_eq!(record.geometry.exterior, boundary());
}

#[test]
fn taxiway_shoulder_fields() {
    let feature = geo_json::Polygon {
        geometry: triangle(),
        properties: layers::TaxiwayShoulder { id: 71, gsurftyp: 7, status: 1 },
    };
    let record = TaxiwayShoulder::from_feature(feature).unwrap();
    assert_eq!(record.id, 71);
    assert_eq!(record.surface_type, GroundSurfaceType::GravelOrCinders);
    assert_eq!(record.geometry.exterior, boundary());
}

#[test]
fn stand_guidance_line_fields() {
    let feature = geo_json::LineString {
        geometry: along(),
        properties: layers::StandGuidanceLine {
            id: 81,
            idstd: text("$UNK"),
            status: 1,
            direc: 1,
            color: 0,
            style: 1,
            termref: text("Terminal 2"),
        },
    };
    let record = StandGuidanceLine::from_feature(feature).unwrap();
    assert_eq!(record.id, 81);
    assert_eq!(record.color, LineColour::Yellow);
    assert_eq!(record.direction, Direction::StartToEndpoint);
    assert_eq!(record.style, Style::Dashed);
    assert_eq!(record.stand_id, None);
    assert_eq!(record.terminal_name, text("Terminal 2"));
    assert_eq!(record.geometry, path());
}

#[test]
fn taxiway_guidance_line_fields() {
    let feature = geo_json::LineString {
        geometry: along(),
        properties: layers::TaxiwayGuidanceLine {
            id: 91,
            idlin: text("A"),
            status: 0,
            direc: 0,
            color: 3,
            style: 0,
        },
    };
    let record = TaxiwayGuidanceLine::from_feature(feature).unwrap();
    assert_eq!(record.id, 91);
    assert_eq!(record.color, LineColour::White);
    assert_eq!(record.direction, Direction::Bidirectional);
    assert_eq!(record.style, Style::Solid);
    assert_eq!(record.status, Status::Closed);
    assert_eq!(record.taxiway_id, text("A"));
    assert_eq!(record.geometry, path());
}

#[test]
fn runway_exit_line_keeps_its_taxiway_as_it_stands() {
    let feature = geo_json::LineString {
        geometry: along(),
        properties: layers::RunwayExitLine {
            id: 101,
            idlin: String::from("$UNK"),
            status: 1,
            direc: 2,
            color: 1,
            style: 2,
        },
    };
    let record = RunwayExitLine::from_feature(feature).unwrap();
    assert_eq!(record.id, 101);
    assert_eq!(record.color, LineColour::Orange);
    assert_eq!(record.direction, Direction::EndToStartpoint);
    assert_eq!(record.style, Style::Dotted);
    assert_eq!(record.status, Status::Open);
    assert_eq!(record.taxiway_id, text("$UNK"));
    assert_eq!(record.geometry, path());
}

#[test]
fn holding_position_before_a_runway() {
    let feature = geo_json::LineString {
        geometry: along(),
        properties: layers::TaxiwayHoldingPosition {
            id: 111,
            idp: text("RWY1.RWY2"),
            idlin: text("C"),
            status: 1,
            catstop: 2,
        },
    };
    let record = TaxiwayHoldingPosition::from_feature(feature).unwrap();
    assert_eq!(record.id, 111);
    assert_eq!(record.status, Status::Open);
    assert_eq!(record.taxiway_id, text("C"));
    assert_eq!(record.category, CatStop::Cat2Or3);
    assert_eq!(
        record.holding_point_target,
        Some(HoldingPointTarget::Runway(RunwayId(String::from("RWY1"), String::from("RWY2"))))
    );
    assert_eq!(record.geometry, path());
}

#[test]
fn holding_position_before_a_taxiway() {
    let feature = geo_json::LineString {
        geometry: along(),
        properties: layers::TaxiwayHoldingPosition {
            id: 112,
            idp: text("D"),
            idlin: None,
            status: 1,
            catstop: 0,
        },
    };
    let record = TaxiwayHoldingPosition::from_feature(feature).unwrap();
    assert_eq!(record.category, CatStop::NoCategory);
    assert_eq!(record.taxiway_id, None);
    assert_eq!(
        record.holding_point_target,
        Some(HoldingPointTarget::Taxiway(String::from("D")))
    );
}

#[test]
fn holding_position_without_a_target() {
    for idp in [None, text(""), text("$UNK")] {
        let feature = geo_json::LineString {
            geometry: along(),
            properties: layers::TaxiwayHoldingPosition {
                id: 113,
                idp,
                idlin: None,
                status: 1,
                catstop: 1,
            },
        };
        let record = TaxiwayHoldingPosition::from_feature(feature).unwrap();
        assert_eq!(record.holding_point_target, None);
        assert_eq!(record.category, CatStop::Cat1);
    }
}

#[test]
fn holding_position_with_a_malformed_runway_is_refused() {
    let feature = geo_json::LineString {
        geometry: along(),
        properties: layers::TaxiwayHoldingPosition {
            id: 114,
            idp: text("09L."),
            idlin: None,
            status: 1,
            catstop: 1,
        },
    };
    assert_eq!(
        TaxiwayHoldingPosition::from_feature(feature),
        Err(DecodeError::MalformedRunwayId(FormatError::EmptyPart))
    );
}

#[test]
fn runway_threshold_fields() {
    let feature = geo_json::Point {
        geometry: at(8.55, 47.45),
        properties: layers::RunwayThreshold {
            id: 121,
            idthr: String::from("16"),
            tdze: number(1402.0),
            tdzslope: number(-0.25),
            brngtrue: number(154.0),
            brngmag: number(151.5),
            rwyslope: number(0.1),
            tora: number(3700.0),
            toda: number(3760.0),
            asda: number(3700.0),
            lda: number(3700.0),
            cat: 3,
            status: 1,
            thrtype: 1,
            vasis: 1,
        },
    };
    let record = RunwayThreshold::from_feature(feature).unwrap();
    assert_eq!(record.id, 121);
    assert_eq!(record.threshold_id, "16");
    assert_eq!(value_of(record.touch_down_zone_elevation), 1402.0);
    assert_eq!(value_of(record.touch_down_zone_slope), -0.25);
    assert_eq!(value_of(record.true_bearing), 154.0);
    assert_eq!(value_of(record.magnetic_bearing), 151.5);
    assert_eq!(value_of(record.runway_slope), 0.1);
    assert_eq!(record.category, LandingCategory::Cat3A);
    assert_eq!(record.papivasi, PapiVasi::Papi);
    assert_eq!(record.status, Status::Open);
    assert_eq!(record.threshold_type, ThresholdType::DisplacedThreshold);
    assert_eq!(record.location, point(8.55, 47.45));
}

#[test]
fn parking_stand_location_fields() {
    let feature = geo_json::Point {
        geometry: at(8.5, 47.4),
        properties: layers::ParkingStandLocation {
            id: 131,
            idstd: text("B31"),
            acn: text("A320"),
            termref: text("T1"),
        },
    };
    let record = ParkingStandLocation::from_feature(feature).unwrap();
    assert_eq!(record.id, 131);
    assert_eq!(record.stand_id, text("B31"));
    assert_eq!(record.aircraft_types, vec![String::from("A320")]);
    assert_eq!(record.location, point(8.5, 47.4));
}

#[test]
fn parking_stand_location_without_aircraft_types() {
    for acn in [None, text(""), text("$UNK")] {
        let feature = geo_json::Point {
            geometry: at(8.5, 47.4),
            properties: layers::ParkingStandLocation {
                id: 132,
                idstd: text(""),
                acn,
                termref: None,
            },
        };
        let record = ParkingStandLocation::from_feature(feature).unwrap();
        assert_eq!(record.stand_id, None);
        assert!(record.aircraft_types.is_empty());
    }
}

#[test]
fn painted_centerline_fields() {
    let feature = geo_json::LineString {
        geometry: along(),
        properties: layers::PaintedCenterline { id: 141, idrwy: String::from("10.28") },
    };
    let record = PaintedCenterline::from_feature(feature).unwrap();
    assert_eq!(record.id, 141);
    assert_eq!(record.runway_id, RunwayId(String::from("10"), String::from("28")));
    assert_eq!(record.geometry, path());
    let feature = geo_json::LineString {
        geometry: along(),
        properties: layers::PaintedCenterline { id: 142, idrwy: String::from("1028") },
    };
    assert_eq!(
        PaintedCenterline::from_feature(feature),
        Err(DecodeError::MalformedRunwayId(FormatError::MissingSeparator))
    );
}

#[test]
fn records_are_equal_by_identity() {
    let first = TaxiwayShoulder::from_feature(geo_json::Polygon {
        geometry: triangle(),
        properties: layers::TaxiwayShoulder { id: 5, gsurftyp: 0, status: 1 },
    })
    .unwrap();
    let same_identity = TaxiwayShoulder::from_feature(geo_json::Polygon {
        geometry: Geometry { type_: String::from("Polygon"), coordinates: vec![vec![]] },
        properties: layers::TaxiwayShoulder { id: 5, gsurftyp: 3, status: 0 },
    })
    .unwrap();
    let other = TaxiwayShoulder::from_feature(geo_json::Polygon {
        geometry: triangle(),
        properties: layers::TaxiwayShoulder { id: 6, gsurftyp: 0, status: 1 },
    })
    .unwrap();
    assert_eq!(first, same_identity);
    assert_ne!(first, other);
    assert_eq!(hash_of(&first), hash_of(&same_identity));
    assert_eq!(hash_of(&first), hash_of(&5u64));
    assert_ne!(hash_of(&first), hash_of(&other));
}

#[test]
fn id_gives_the_identity() {
    let record = TaxiwayShoulder::from_feature(geo_json::Polygon {
        geometry: triangle(),
        properties: layers::TaxiwayShoulder { id: 77, gsurftyp: 0, status: 1 },
    })
    .unwrap();
    assert_eq!(record.id(), 77);
    let record = AerodromeReferencePoint::from_feature(geo_json::Point {
        geometry: at(0.0, 0.0),
        properties: layers::AerodromeReferencePoint {
            id: u64::MAX,
            idarpt: String::new(),
            iata: String::new(),
            name: String::new(),
            elev: number(0.0),
        },
    })
    .unwrap();
    assert_eq!(record.id(), u64::MAX);
}
