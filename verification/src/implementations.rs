//! The conversions from a document to the airport model: of texts, of
//! geometries, and of the features of each group.

use crate::amdb::geo_json::{self, Coordinate, Geometry};
use crate::amdb::layers;
use crate::enums::{
    decode, decoded, Availability, Bridge, CatStop, Direction, GroundSurfaceType, LandingCategory,
    LineColour, PapiVasi, Status, Style, SurfaceType, ThresholdType,
};
use crate::error::DecodeError;
use crate::geometry::{Coord, LineString, Polygon, PolygonView};
use crate::identifiers::{
    resolve_target, split_compound, HoldingPointTarget, HoldingPointTargetView, RunwayId,
};
use crate::number::Double;
use crate::output_types::{
    target_view, text_of, texts_of, AerodromeReferencePoint, AerodromeReferencePointView,
    ApronElement, ApronElementView, PaintedCenterline, PaintedCenterlineView, ParkingStandArea,
    ParkingStandAreaView, ParkingStandLocation, ParkingStandLocationView, RunwayDisplacedArea,
    RunwayDisplacedAreaView, RunwayElement, RunwayElementView, RunwayExitLine, RunwayExitLineView,
    RunwayMarking, RunwayMarkingView, RunwayShoulder, RunwayShoulderView, RunwayThreshold,
    RunwayThresholdView, StandGuidanceLine, StandGuidanceLineView, TaxiwayElement,
    TaxiwayElementView, TaxiwayGuidanceLine, TaxiwayGuidanceLineView, TaxiwayHoldingPosition,
    TaxiwayHoldingPositionView, TaxiwayShoulder, TaxiwayShoulderView,
};
use vstd::prelude::*;
use vstd::std_specs::convert::FromSpecImpl;
use vstd::string::*;

verus! {

/// The text by which a document marks a value as unknown.
pub open spec fn unknown_mark() -> Seq<char> {
    seq!['$', 'U', 'N', 'K']
}

/// The value that a text field stands for: none where the field is missing,
/// empty or the unknown mark, else its text.
pub open spec fn normalized(field: Option<Seq<char>>) -> Option<Seq<char>> {
    match field {
        Some(text) => if text.len() == 0 || text == unknown_mark() {
            None
        } else {
            Some(text)
        },
        None => None,
    }
}

/// Replaces an empty text and the unknown mark `$UNK` by no text at all.
/// Any other text is handed back as it is.
pub fn normalize_string(s: Option<String>) -> (value: Option<String>)
    ensures
        text_of(value) == normalized(text_of(s)),
        value is Some ==> value == s,
{
    match s {
        Some(text) => {
            proof {
                reveal_strlit("$UNK");
                assert("$UNK"@ =~= unknown_mark());
            }
            let mark = String::from_str("$UNK");
            if text.as_str().is_empty() || text == mark {
                None
            } else {
                Some(text)
            }
        },
        None => None,
    }
}

/// The point of a coordinate: its longitude as `x`, its latitude as `y`.
pub open spec fn point_of(coordinate: Coordinate) -> Coord {
    Coord { x: coordinate.lon, y: coordinate.lat }
}

impl From<Coordinate> for Coord {
    fn from(coordinate: Coordinate) -> (point: Coord) {
        Coord { x: coordinate.lon, y: coordinate.lat }
    }
}

impl FromSpecImpl<Coordinate> for Coord {
    open spec fn obeys_from_spec() -> bool {
        true
    }

    open spec fn from_spec(coordinate: Coordinate) -> Coord {
        point_of(coordinate)
    }
}

/// A position that gives a longitude and then a latitude stands for the
/// coordinate of that latitude and longitude, and its point has the
/// longitude as `x` and the latitude as `y`.
pub proof fn lemma_point_of_position(longitude: Double, latitude: Double)
    ensures
        Coordinate::of_position(seq![longitude, latitude]) == Ok::<_, DecodeError>(
            Coordinate { lat: latitude, lon: longitude },
        ),
        point_of(Coordinate { lat: latitude, lon: longitude }) == (Coord {
            x: longitude,
            y: latitude,
        }),
{
}

/// The path through the given coordinates: the point of each, in the same
/// order, with none left out.
pub open spec fn path_of(coordinates: Seq<Coordinate>) -> Seq<Coord> {
    Seq::new(coordinates.len(), |i: int| point_of(coordinates[i]))
}

/// The area bounded by the first of the given rings. The rings after the
/// first, which cut holes, are not kept.
pub open spec fn area_of(rings: Seq<Vec<Coordinate>>) -> Result<PolygonView, DecodeError> {
    if rings.len() == 0 {
        Err(DecodeError::MissingOuterRing)
    } else {
        Ok(PolygonView { exterior: path_of(rings[0]@), interiors: Seq::empty() })
    }
}

/// What a decoding gave, with the decoded value taken by its view.
pub open spec fn outcome_view<R: View>(outcome: Result<R, DecodeError>) -> Result<
    R::V,
    DecodeError,
> {
    match outcome {
        Ok(value) => Ok(value@),
        Err(e) => Err(e),
    }
}

impl LineString {
    /// Converts the geometry of a path.
    pub fn from_geometry(geometry: &Geometry<Vec<Coordinate>>) -> (path: LineString)
        ensures
            path@ == path_of(geometry.coordinates@),
    {
        LineString(convert_path(&geometry.coordinates))
    }
}

impl Polygon {
    /// Converts the geometry of an area.
    pub fn from_geometry(geometry: &Geometry<Vec<Vec<Coordinate>>>) -> (outcome: Result<
        Polygon,
        DecodeError,
    >)
        ensures
            outcome_view(outcome) == area_of(geometry.coordinates@),
    {
        if geometry.coordinates.len() == 0 {
            Err(DecodeError::MissingOuterRing)
        } else {
            let exterior = LineString(convert_path(&geometry.coordinates[0]));
            let polygon = Polygon { exterior, interiors: Vec::new() };
            assert(polygon@.interiors =~= Seq::empty());
            Ok(polygon)
        }
    }
}

fn convert_path(coordinates: &Vec<Coordinate>) -> (points: Vec<Coord>)
    ensures
        points@ == path_of(coordinates@),
{
    let mut points: Vec<Coord> = Vec::new();
    let mut index: usize = 0;
    while index < coordinates.len()
        invariant
            index <= coordinates.len(),
            points@ == path_of(coordinates@.take(index as int)),
        decreases coordinates.len() - index,
    {
        points.push(Coord::from(coordinates[index]));
        index = index + 1;
        assert(points@ =~= path_of(coordinates@.take(index as int)));
    }
    assert(coordinates@.take(index as int) =~= coordinates@);
    points
}

/// The runway identifier that `text` names, or the reason it names none.
pub open spec fn runway_id_of(text: Seq<char>) -> Result<(Seq<char>, Seq<char>), DecodeError> {
    match split_compound(text) {
        Ok(pair) => Ok(pair),
        Err(e) => Err(DecodeError::MalformedRunwayId(e)),
    }
}

/// The target that a reference field stands for: none where the field stands
/// for no text, else the target that its text refers to.
pub open spec fn target_of(field: Option<Seq<char>>) -> Result<
    Option<HoldingPointTargetView>,
    DecodeError,
> {
    match normalized(field) {
        None => Ok(None),
        Some(text) => match resolve_target(text) {
            Ok(target) => Ok(Some(target)),
            Err(e) => Err(DecodeError::MalformedRunwayId(e)),
        },
    }
}

/// The aircraft types that a field stands for: the text of the field as the
/// one entry of the list, or no entry where the field stands for no text.
pub open spec fn aircraft_types_of(field: Option<Seq<char>>) -> Seq<Seq<char>> {
    match normalized(field) {
        None => Seq::empty(),
        Some(text) => seq![text],
    }
}

fn decode_runway_id(text: String) -> (outcome: Result<RunwayId, DecodeError>)
    ensures
        outcome_view(outcome) == runway_id_of(text@),
{
    match RunwayId::parse(text) {
        Ok(id) => Ok(id),
        Err(e) => Err(DecodeError::MalformedRunwayId(e)),
    }
}

fn decode_target(field: Option<String>) -> (outcome: Result<
    Option<HoldingPointTarget>,
    DecodeError,
>)
    ensures
        match outcome {
            Ok(target) => target_of(text_of(field)) == Ok::<_, DecodeError>(target_view(target)),
            Err(e) => target_of(text_of(field)) == Err::<Option<HoldingPointTargetView>, _>(e),
        },
{
    match normalize_string(field) {
        None => Ok(None),
        Some(text) => match HoldingPointTarget::parse(text) {
            Ok(target) => Ok(Some(target)),
            Err(e) => Err(DecodeError::MalformedRunwayId(e)),
        },
    }
}

fn decode_aircraft_types(field: Option<String>) -> (types: Vec<String>)
    ensures
        texts_of(types) == aircraft_types_of(text_of(field)),
{
    let mut types: Vec<String> = Vec::new();
    match normalize_string(field) {
        None => {},
        Some(text) => {
            types.push(text);
        },
    }
    assert(texts_of(types) =~= aircraft_types_of(text_of(field)));
    types
}

/// A record of the airport model that is decoded from one feature of a
/// document.
pub trait FromFeature<F>: Sized + View {
    /// The record that `feature` stands for, or the reason it stands for none.
    spec fn decoded(feature: F) -> Result<Self::V, DecodeError>;

    /// Decodes one feature.
    fn from_feature(feature: F) -> (outcome: Result<Self, DecodeError>)
        ensures
            outcome_view(outcome) == Self::decoded(feature),
    ;
}

impl FromFeature<geo_json::Point<layers::AerodromeReferencePoint>> for AerodromeReferencePoint {
    open spec fn decoded(feature: geo_json::Point<layers::AerodromeReferencePoint>) -> Result<
        AerodromeReferencePointView,
        DecodeError,
    > {
        Ok(
            AerodromeReferencePointView {
                id: feature.properties.id,
                airport_id: feature.properties.idarpt@,
                iata_id: feature.properties.iata@,
                airport_name: feature.properties.name@,
                elevation: feature.properties.elev,
                location: point_of(feature.geometry.coordinates),
            },
        )
    }

    fn from_feature(feature: geo_json::Point<layers::AerodromeReferencePoint>) -> (outcome: Result<
        Self,
        DecodeError,
    >) {
        let properties = feature.properties;
        Ok(
            AerodromeReferencePoint {
                id: properties.id,
                airport_id: properties.idarpt,
                iata_id: properties.iata,
                airport_name: properties.name,
                elevation: properties.elev,
                location: Coord::from(feature.geometry.coordinates),
            },
        )
    }
}

impl FromFeature<geo_json::Polygon<layers::ApronElement>> for ApronElement {
    open spec fn decoded(feature: geo_json::Polygon<layers::ApronElement>) -> Result<
        ApronElementView,
        DecodeError,
    > {
        match area_of(feature.geometry.coordinates@) {
            Err(e) => Err(e),
            Ok(geometry) => Ok(
                ApronElementView {
                    id: feature.properties.id,
                    surface_type: decoded::<GroundSurfaceType>(feature.properties.gsurftyp),
                    apron_id: normalized(text_of(feature.properties.idapron)),
                    geometry,
                },
            ),
        }
    }

    fn from_feature(feature: geo_json::Polygon<layers::ApronElement>) -> (outcome: Result<
        Self,
        DecodeError,
    >) {
        let properties = feature.properties;
        let geometry = Polygon::from_geometry(&feature.geometry)?;
        Ok(
            ApronElement {
                id: properties.id,
                surface_type: decode(properties.gsurftyp),
                apron_id: normalize_string(properties.idapron),
                geometry,
            },
        )
    }
}

impl FromFeature<geo_json::Polygon<layers::RunwayElement>> for RunwayElement {
    open spec fn decoded(feature: geo_json::Polygon<layers::RunwayElement>) -> Result<
        RunwayElementView,
        DecodeError,
    > {
        match runway_id_of(feature.properties.idrwy@) {
            Err(e) => Err(e),
            Ok(runway_id) => match area_of(feature.geometry.coordinates@) {
                Err(e) => Err(e),
                Ok(geometry) => Ok(
                    RunwayElementView {
                        id: feature.properties.id,
                        runway_id,
                        width: feature.properties.width,
                        length: feature.properties.length,
                        surface_type: decoded::<SurfaceType>(feature.properties.surftype),
                        geometry,
                    },
                ),
            },
        }
    }

    fn from_feature(feature: geo_json::Polygon<layers::RunwayElement>) -> (outcome: Result<
        Self,
        DecodeError,
    >) {
        let properties = feature.properties;
        let runway_id = decode_runway_id(properties.idrwy)?;
        let geometry = Polygon::from_geometry(&feature.geometry)?;
        Ok(
            RunwayElement {
                id: properties.id,
                runway_id,
                width: properties.width,
                length: properties.length,
                surface_type: decode(properties.surftype),
                geometry,
            },
        )
    }
}

impl FromFeature<geo_json::Polygon<layers::RunwayMarking>> for RunwayMarking {
    open spec fn decoded(feature: geo_json::Polygon<layers::RunwayMarking>) -> Result<
        RunwayMarkingView,
        DecodeError,
    > {
        match runway_id_of(feature.properties.idrwy@) {
            Err(e) => Err(e),
            Ok(runway_id) => match area_of(feature.geometry.coordinates@) {
                Err(e) => Err(e),
                Ok(geometry) => Ok(
                    RunwayMarkingView {
                        id: feature.properties.id,
                        runway_id,
                        geometry,
                    },
                ),
            },
        }
    }

    fn from_feature(feature: geo_json::Polygon<layers::RunwayMarking>) -> (outcome: Result<
        Self,
        DecodeError,
    >) {
        let properties = feature.properties;
        let runway_id = decode_runway_id(properties.idrwy)?;
        let geometry = Polygon::from_geometry(&feature.geometry)?;
        Ok(
            RunwayMarking {
                id: properties.id,
                runway_id,
                geometry,
            },
        )
    }
}

impl FromFeature<geo_json::Polygon<layers::RunwayShoulder>> for RunwayShoulder {
    open spec fn decoded(feature: geo_json::Polygon<layers::RunwayShoulder>) -> Result<
        RunwayShoulderView,
        DecodeError,
    > {
        match runway_id_of(feature.properties.idrwy@) {
            Err(e) => Err(e),
            Ok(runway_id) => match area_of(feature.geometry.coordinates@) {
                Err(e) => Err(e),
                Ok(geometry) => Ok(
                    RunwayShoulderView {
                        id: feature.properties.id,
                        runway_id,
                        status: decoded::<Status>(feature.properties.status),
                        surface_type: decoded::<GroundSurfaceType>(feature.properties.gsurftyp),
                        geometry,
                    },
                ),
            },
        }
    }

    fn from_feature(feature: geo_json::Polygon<layers::RunwayShoulder>) -> (outcome: Result<
        Self,
        DecodeError,
    >) {
        let properties = feature.properties;
        let runway_id = decode_runway_id(properties.idrwy)?;
        let geometry = Polygon::from_geometry(&feature.geometry)?;
        Ok(
            RunwayShoulder {
                id: properties.id,
                runway_id,
                status: decode(properties.status),
                surface_type: decode(properties.gsurftyp),
                geometry,
            },
        )
    }
}

impl FromFeature<geo_json::Polygon<layers::RunwayDisplacedArea>> for RunwayDisplacedArea {
    open spec fn decoded(feature: geo_json::Polygon<layers::RunwayDisplacedArea>) -> Result<
        RunwayDisplacedAreaView,
        DecodeError,
    > {
        match area_of(feature.geometry.coordinates@) {
            Err(e) => Err(e),
            Ok(geometry) => Ok(
                RunwayDisplacedAreaView {
                    id: feature.properties.id,
                    threshold_id: feature.properties.idthr@,
                    status: decoded::<Status>(feature.properties.status),
                    surface_type: decoded::<SurfaceType>(feature.properties.surftype),
                    geometry,
                },
            ),
        }
    }

    fn from_feature(feature: geo_json::Polygon<layers::RunwayDisplacedArea>) -> (outcome: Result<
        Self,
        DecodeError,
    >) {
        let properties = feature.properties;
        let geometry = Polygon::from_geometry(&feature.geometry)?;
        Ok(
            RunwayDisplacedArea {
                id: properties.id,
                threshold_id: properties.idthr,
                status: decode(properties.status),
                surface_type: decode(properties.surftype),
                geometry,
            },
        )
    }
}

impl FromFeature<geo_json::Polygon<layers::ParkingStandArea>> for ParkingStandArea {
    open spec fn decoded(feature: geo_json::Polygon<layers::ParkingStandArea>) -> Result<
        ParkingStandAreaView,
        DecodeError,
    > {
        match area_of(feature.geometry.coordinates@) {
            Err(e) => Err(e),
            Ok(geometry) => Ok(
                ParkingStandAreaView {
                    id: feature.properties.id,
                    stand_id: normalized(text_of(feature.properties.idstd)),
                    apron_id: normalized(text_of(feature.properties.idapron)),
                    surface_type: decoded::<GroundSurfaceType>(feature.properties.gsurftyp),
                    jetway: decoded::<Availability>(feature.properties.jetway),
                    fuel: feature.properties.fuel@,
                    towing: decoded::<Availability>(feature.properties.towing),
                    ground_power: decoded::<Availability>(feature.properties.gndpower),
                    terminal_name: normalized(text_of(feature.properties.termref)),
                    geometry,
                },
            ),
        }
    }

    fn from_feature(feature: geo_json::Polygon<layers::ParkingStandArea>) -> (outcome: Result<
        Self,
        DecodeError,
    >) {
        let properties = feature.properties;
        let geometry = Polygon::from_geometry(&feature.geometry)?;
        Ok(
            ParkingStandArea {
                id: properties.id,
                stand_id: normalize_string(properties.idstd),
                apron_id: normalize_string(properties.idapron),
                surface_type: decode(properties.gsurftyp),
                jetway: decode(properties.jetway),
                fuel: properties.fuel,
                towing: decode(properties.towing),
                ground_power: decode(properties.gndpower),
                terminal_name: normalize_string(properties.termref),
                geometry,
            },
        )
    }
}

impl FromFeature<geo_json::Polygon<layers::TaxiwayElement>> for TaxiwayElement {
    open spec fn decoded(feature: geo_json::Polygon<layers::TaxiwayElement>) -> Result<
        TaxiwayElementView,
        DecodeError,
    > {
        match area_of(feature.geometry.coordinates@) {
            Err(e) => Err(e),
            Ok(geometry) => Ok(
                TaxiwayElementView {
                    id: feature.properties.id,
                    taxiway_id: normalized(text_of(feature.properties.idlin)),
                    apron_id: normalized(text_of(feature.properties.idapron)),
                    surface_type: decoded::<GroundSurfaceType>(feature.properties.gsurftyp),
                    bridge: decoded::<Bridge>(feature.properties.bridge),
                    geometry,
                },
            ),
        }
    }

    fn from_feature(feature: geo_json::Polygon<layers::TaxiwayElement>) -> (outcome: Result<
        Self,
        DecodeError,
    >) {
        let properties = feature.properties;
        let geometry = Polygon::from_geometry(&feature.geometry)?;
        Ok(
            TaxiwayElement {
                id: properties.id,
                taxiway_id: normalize_string(properties.idlin),
                apron_id: normalize_string(properties.idapron),
                surface_type: decode(properties.gsurftyp),
                bridge: decode(properties.bridge),
                geometry,
            },
        )
    }
}

impl FromFeature<geo_json::Polygon<layers::TaxiwayShoulder>> for TaxiwayShoulder {
    open spec fn decoded(feature: geo_json::Polygon<layers::TaxiwayShoulder>) -> Result<
        TaxiwayShoulderView,
        DecodeError,
    > {
        match area_of(feature.geometry.coordinates@) {
            Err(e) => Err(e),
            Ok(geometry) => Ok(
                TaxiwayShoulderView {
                    id: feature.properties.id,
                    surface_type: decoded::<GroundSurfaceType>(feature.properties.gsurftyp),
                    geometry,
                },
            ),
        }
    }

    fn from_feature(feature: geo_json::Polygon<layers::TaxiwayShoulder>) -> (outcome: Result<
        Self,
        DecodeError,
    >) {
        let properties = feature.properties;
        let geometry = Polygon::from_geometry(&feature.geometry)?;
        Ok(
            TaxiwayShoulder {
                id: properties.id,
                surface_type: decode(properties.gsurftyp),
                geometry,
            },
        )
    }
}

impl FromFeature<geo_json::LineString<layers::StandGuidanceLine>> for StandGuidanceLine {
    open spec fn decoded(feature: geo_json::LineString<layers::StandGuidanceLine>) -> Result<
        StandGuidanceLineView,
        DecodeError,
    > {
        Ok(
            StandGuidanceLineView {
                id: feature.properties.id,
                color: decoded::<LineColour>(feature.properties.color),
                direction: decoded::<Direction>(feature.properties.direc),
                style: decoded::<Style>(feature.properties.style),
                stand_id: normalized(text_of(feature.properties.idstd)),
                terminal_name: normalized(text_of(feature.properties.termref)),
                geometry: path_of(feature.geometry.coordinates@),
            },
        )
    }

    fn from_feature(feature: geo_json::LineString<layers::StandGuidanceLine>) -> (outcome: Result<
        Self,
        DecodeError,
    >) {
        let properties = feature.properties;
        Ok(
            StandGuidanceLine {
                id: properties.id,
                color: decode(properties.color),
                direction: decode(properties.direc),
                style: decode(properties.style),
                stand_id: normalize_string(properties.idstd),
                terminal_name: normalize_string(properties.termref),
                geometry: LineString::from_geometry(&feature.geometry),
            },
        )
    }
}

impl FromFeature<geo_json::LineString<layers::TaxiwayGuidanceLine>> for TaxiwayGuidanceLine {
    open spec fn decoded(feature: geo_json::LineString<layers::TaxiwayGuidanceLine>) -> Result<
        TaxiwayGuidanceLineView,
        DecodeError,
    > {
        Ok(
            TaxiwayGuidanceLineView {
                id: feature.properties.id,
                color: decoded::<LineColour>(feature.properties.color),
                direction: decoded::<Direction>(feature.properties.direc),
                style: decoded::<Style>(feature.properties.style),
                status: decoded::<Status>(feature.properties.status),
                taxiway_id: normalized(text_of(feature.properties.idlin)),
                geometry: path_of(feature.geometry.coordinates@),
            },
        )
    }

    fn from_feature(feature: geo_json::LineString<layers::TaxiwayGuidanceLine>) -> (outcome: Result<
        Self,
        DecodeError,
    >) {
        let properties = feature.properties;
        Ok(
            TaxiwayGuidanceLine {
                id: properties.id,
                color: decode(properties.color),
                direction: decode(properties.direc),
                style: decode(properties.style),
                status: decode(properties.status),
                taxiway_id: normalize_string(properties.idlin),
                geometry: LineString::from_geometry(&feature.geometry),
            },
        )
    }
}

impl FromFeature<geo_json::LineString<layers::RunwayExitLine>> for RunwayExitLine {
    open spec fn decoded(feature: geo_json::LineString<layers::RunwayExitLine>) -> Result<
        RunwayExitLineView,
        DecodeError,
    > {
        Ok(
            RunwayExitLineView {
                id: feature.properties.id,
                color: decoded::<LineColour>(feature.properties.color),
                direction: decoded::<Direction>(feature.properties.direc),
                style: decoded::<Style>(feature.properties.style),
                status: decoded::<Status>(feature.properties.status),
                taxiway_id: Some(feature.properties.idlin@),
                geometry: path_of(feature.geometry.coordinates@),
            },
        )
    }

    fn from_feature(feature: geo_json::LineString<layers::RunwayExitLine>) -> (outcome: Result<
        Self,
        DecodeError,
    >) {
        let properties = feature.properties;
        Ok(
            RunwayExitLine {
                id: properties.id,
                color: decode(properties.color),
                direction: decode(properties.direc),
                style: decode(properties.style),
                status: decode(properties.status),
                taxiway_id: Some(properties.idlin),
                geometry: LineString::from_geometry(&feature.geometry),
            },
        )
    }
}

impl FromFeature<geo_json::LineString<layers::TaxiwayHoldingPosition>> for TaxiwayHoldingPosition {
    open spec fn decoded(feature: geo_json::LineString<layers::TaxiwayHoldingPosition>) -> Result<
        TaxiwayHoldingPositionView,
        DecodeError,
    > {
        match target_of(text_of(feature.properties.idp)) {
            Err(e) => Err(e),
            Ok(holding_point_target) => Ok(
                TaxiwayHoldingPositionView {
                    id: feature.properties.id,
                    status: decoded::<Status>(feature.properties.status),
                    taxiway_id: normalized(text_of(feature.properties.idlin)),
                    category: decoded::<CatStop>(feature.properties.catstop),
                    holding_point_target,
                    geometry: path_of(feature.geometry.coordinates@),
                },
            ),
        }
    }

    fn from_feature(feature: geo_json::LineString<layers::TaxiwayHoldingPosition>) -> (outcome: Result<
        Self,
        DecodeError,
    >) {
        let properties = feature.properties;
        let holding_point_target = decode_target(properties.idp)?;
        Ok(
            TaxiwayHoldingPosition {
                id: properties.id,
                status: decode(properties.status),
                taxiway_id: normalize_string(properties.idlin),
                category: decode(properties.catstop),
                holding_point_target,
                geometry: LineString::from_geometry(&feature.geometry),
            },
        )
    }
}

impl FromFeature<geo_json::Point<layers::RunwayThreshold>> for RunwayThreshold {
    open spec fn decoded(feature: geo_json::Point<layers::RunwayThreshold>) -> Result<
        RunwayThresholdView,
        DecodeError,
    > {
        Ok(
            RunwayThresholdView {
                id: feature.properties.id,
                threshold_id: feature.properties.idthr@,
                touch_down_zone_elevation: feature.properties.tdze,
                touch_down_zone_slope: feature.properties.tdzslope,
                true_bearing: feature.properties.brngtrue,
                magnetic_bearing: feature.properties.brngmag,
                runway_slope: feature.properties.rwyslope,
                category: decoded::<LandingCategory>(feature.properties.cat),
                papivasi: decoded::<PapiVasi>(feature.properties.vasis),
                status: decoded::<Status>(feature.properties.status),
                threshold_type: decoded::<ThresholdType>(feature.properties.thrtype),
                location: point_of(feature.geometry.coordinates),
            },
        )
    }

    fn from_feature(feature: geo_json::Point<layers::RunwayThreshold>) -> (outcome: Result<
        Self,
        DecodeError,
    >) {
        let properties = feature.properties;
        Ok(
            RunwayThreshold {
                id: properties.id,
                threshold_id: properties.idthr,
                touch_down_zone_elevation: properties.tdze,
                touch_down_zone_slope: properties.tdzslope,
                true_bearing: properties.brngtrue,
                magnetic_bearing: properties.brngmag,
                runway_slope: properties.rwyslope,
                category: decode(properties.cat),
                papivasi: decode(properties.vasis),
                status: decode(properties.status),
                threshold_type: decode(properties.thrtype),
                location: Coord::from(feature.geometry.coordinates),
            },
        )
    }
}

impl FromFeature<geo_json::Point<layers::ParkingStandLocation>> for ParkingStandLocation {
    open spec fn decoded(feature: geo_json::Point<layers::ParkingStandLocation>) -> Result<
        ParkingStandLocationView,
        DecodeError,
    > {
        Ok(
            ParkingStandLocationView {
                id: feature.properties.id,
                stand_id: normalized(text_of(feature.properties.idstd)),
                aircraft_types: aircraft_types_of(text_of(feature.properties.acn)),
                location: point_of(feature.geometry.coordinates),
            },
        )
    }

    fn from_feature(feature: geo_json::Point<layers::ParkingStandLocation>) -> (outcome: Result<
        Self,
        DecodeError,
    >) {
        let properties = feature.properties;
        Ok(
            ParkingStandLocation {
                id: properties.id,
                stand_id: normalize_string(properties.idstd),
                aircraft_types: decode_aircraft_types(properties.acn),
                location: Coord::from(feature.geometry.coordinates),
            },
        )
    }
}

impl FromFeature<geo_json::LineString<layers::PaintedCenterline>> for PaintedCenterline {
    open spec fn decoded(feature: geo_json::LineString<layers::PaintedCenterline>) -> Result<
        PaintedCenterlineView,
        DecodeError,
    > {
        match runway_id_of(feature.properties.idrwy@) {
            Err(e) => Err(e),
            Ok(runway_id) => Ok(
                PaintedCenterlineView {
                    id: feature.properties.id,
                    runway_id,
                    geometry: path_of(feature.geometry.coordinates@),
                },
            ),
        }
    }

    fn from_feature(feature: geo_json::LineString<layers::PaintedCenterline>) -> (outcome: Result<
        Self,
        DecodeError,
    >) {
        let properties = feature.properties;
        let runway_id = decode_runway_id(properties.idrwy)?;
        Ok(
            PaintedCenterline {
                id: properties.id,
                runway_id,
                geometry: LineString::from_geometry(&feature.geometry),
            },
        )
    }
}

} // verus!
