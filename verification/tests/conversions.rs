use amdb_parser::amdb::geo_json::{Coordinate, Geometry};
use amdb_parser::error::DecodeError;
use amdb_parser::geometry::{Coord, LineString, Polygon};
use amdb_parser::implementations::normalize_string;
use amdb_parser::number::Double;

fn number(value: f64) -> Double {
    Double { bits: value.to_bits() }
}

fn coordinate(lon: f64, lat: f64) -> Coordinate {
    Coordinate { lat: number(lat), lon: number(lon) }
}

fn point(x: f64, y: f64) -> Coord {
    Coord { x: number(x), y: number(y) }
}

#[test]
fn empty_text_is_absent() {
    assert_eq!(normalize_string(Some(String::new())), None);
}

#[test]
fn unknown_mark_is_absent() {
    assert_eq!(normalize_string(Some(String::from("$UNK"))), None);
}

#[test]
fn missing_text_is_absent() {
    assert_eq!(normalize_string(None), None);
}

#[test]
fn other_text_is_unchanged() {
    assert_eq!(normalize_string(Some(String::from("A12"))), Some(String::from("A12")));
    assert_eq!(normalize_string(Some(String::from(" "))), Some(String::from(" ")));
    assert_eq!(normalize_string(Some(String::from("$unk"))), Some(String::from("$unk")));
    assert_eq!(normalize_string(Some(String::from("$UNK "))), Some(String::from("$UNK ")));
    assert_eq!(normalize_string(Some(String::from("UNK"))), Some(String::from("UNK")));
    assert_eq!(normalize_string(Some(String::from("$UNKNOWN"))), Some(String::from("$UNKNOWN")));
}

#[test]
fn position_gives_longitude_first() {
    let decoded = Coordinate::from_position(&vec![number(-80.0), number(40.0)]).unwrap();
    assert_eq!(f64::from_bits(decoded.lon.bits), -80.0);
    assert_eq!(f64::from_bits(decoded.lat.bits), 40.0);
    assert_eq!(decoded, coordinate(-80.0, 40.0));
}

#[test]
fn position_with_altitude_is_read_to_the_latitude() {
    let decoded = Coordinate::from_position(&vec![number(8.5), number(47.4), number(432.0)]);
    assert_eq!(decoded, Ok(coordinate(8.5, 47.4)));
}

#[test]
fn short_position_is_refused() {
    assert_eq!(Coordinate::from_position(&vec![]), Err(DecodeError::MalformedPosition));
    assert_eq!(Coordinate::from_position(&vec![number(1.0)]), Err(DecodeError::MalformedPosition));
}

#[test]
fn coordinates_are_equal_by_their_bits() {
    assert_ne!(coordinate(0.0, 0.0), coordinate(-0.0, 0.0));
    assert_eq!(coordinate(f64::NAN, 1.0), coordinate(f64::NAN, 1.0));
    assert_eq!(coordinate(1.5, 2.5), coordinate(1.5, 2.5));
}

#[test]
fn point_has_longitude_as_x() {
    let converted = Coord::from(coordinate(-80.0, 40.0));
    assert_eq!(converted, point(-80.0, 40.0));
    assert_eq!(f64::from_bits(converted.x.bits), -80.0);
    assert_eq!(f64::from_bits(converted.y.bits), 40.0);
}

#[test]
fn position_to_point_keeps_axis_order() {
    let decoded = Coordinate::from_position(&vec![number(12.25), number(-45.5)]).unwrap();
    let converted: Coord = decoded.into();
    assert_eq!(converted, point(12.25, -45.5));
}

#[test]
fn path_keeps_order_and_repeats() {
    let geometry = Geometry {
        type_: String::from("LineString"),
        coordinates: vec![
            coordinate(1.0, 10.0),
            coordinate(2.0, 20.0),
            coordinate(2.0, 20.0),
            coordinate(3.0, 30.0),
        ],
    };
    let path = LineString::from_geometry(&geometry);
    assert_eq!(
        path,
        LineString(vec![point(1.0, 10.0), point(2.0, 20.0), point(2.0, 20.0), point(3.0, 30.0)])
    );
}

#[test]
fn empty_path_is_empty() {
    let geometry = Geometry { type_: String::from("LineString"), coordinates: vec![] };
    assert_eq!(LineString::from_geometry(&geometry), LineString(vec![]));
}

#[test]
fn area_takes_the_first_ring_only() {
    let outer = vec![
        coordinate(0.0, 0.0),
        coordinate(4.0, 0.0),
        coordinate(4.0, 4.0),
        coordinate(0.0, 0.0),
    ];
    let hole = vec![
        coordinate(1.0, 1.0),
        coordinate(2.0, 1.0),
        coordinate(2.0, 2.0),
        coordinate(1.0, 1.0),
    ];
    let geometry = Geometry { type_: String::from("Polygon"), coordinates: vec![outer, hole] };
    let area = Polygon::from_geometry(&geometry).unwrap();
    assert_eq!(
        area.exterior,
        LineString(vec![point(0.0, 0.0), point(4.0, 0.0), point(4.0, 4.0), point(0.0, 0.0)])
    );
    assert!(area.interiors.is_empty());
}

#[test]
fn area_keeps_the_winding_and_an_open_ring() {
    let ring = vec![coordinate(0.0, 0.0), coordinate(0.0, 4.0), coordinate(4.0, 4.0)];
    let geometry = Geometry { type_: String::from("Polygon"), coordinates: vec![ring] };
    let area = Polygon::from_geometry(&geometry).unwrap();
    assert_eq!(
        area.exterior,
        LineString(vec![point(0.0, 0.0), point(0.0, 4.0), point(4.0, 4.0)])
    );
}

#[test]
fn area_without_a_ring_is_refused() {
    let geometry = Geometry { type_: String::from("Polygon"), coordinates: vec![] };
    assert_eq!(Polygon::from_geometry(&geometry), Err(DecodeError::MissingOuterRing));
}

#[test]
fn area_with_an_empty_ring_is_empty() {
    let geometry = Geometry { type_: String::from("Polygon"), coordinates: vec![vec![]] };
    let area = Polygon::from_geometry(&geometry).unwrap();
    assert_eq!(area.exterior, LineString(vec![]));
    assert!(area.interiors.is_empty());
}
