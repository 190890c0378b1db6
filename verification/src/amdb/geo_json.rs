//! The frame of a document: collections of features, each a geometry with a
//! property record.

use crate::amdb::layers::{
    AerodromeReferencePoint, ApronElement, Blastpad, ConstructionArea, DeicingArea,
    FinalApproachAndTakeoffArea, FrequencyArea, Hotspot, LandAndHoldShortOperationLocation,
    PaintedCenterline, ParkingStandArea, ParkingStandLocation, RunwayDisplacedArea, RunwayElement,
    RunwayExitLine, RunwayIntersection, RunwayMarking, RunwayShoulder, RunwayThreshold,
    ServiceRoad, StandGuidanceLine, Stopway, TaxiwayElement, TaxiwayGuidanceLine,
    TaxiwayHoldingPosition, TaxiwayIntersectionMarking, TaxiwayShoulder, TouchdownLiftoffArea,
    VerticalLineStructure, VerticalPointStructure, VerticalPolygonalStructure, Water,
};
use crate::error::DecodeError;
use crate::number::Double;
use vstd::prelude::*;

verus! {

/// A geographic position.
#[derive(Debug, PartialEq, Eq, Hash, Copy, Clone, Structural)]
pub struct Coordinate {
    pub lat: Double,
    pub lon: Double,
}

impl Coordinate {
    /// The coordinate that a position of a document stands for. A position
    /// gives the longitude first and the latitude second; what follows them
    /// is not read.
    pub open spec fn of_position(position: Seq<Double>) -> Result<Coordinate, DecodeError> {
        if position.len() >= 2 {
            Ok(Coordinate { lat: position[1], lon: position[0] })
        } else {
            Err(DecodeError::MalformedPosition)
        }
    }

    /// Decodes a position of a document.
    pub fn from_position(position: &Vec<Double>) -> (outcome: Result<Coordinate, DecodeError>)
        ensures
            outcome == Self::of_position(position@),
    {
        if position.len() >= 2 {
            Ok(Coordinate { lat: position[1], lon: position[0] })
        } else {
            Err(DecodeError::MalformedPosition)
        }
    }
}

/// The features of one group, in the order of the document.
#[derive(Debug, PartialEq)]
pub struct FeatureCollection<T> {
    pub type_: String,
    pub features: Vec<T>,
}

/// A geometry: the name of its shape, and its coordinates.
#[derive(Debug, PartialEq)]
pub struct Geometry<T> {
    pub type_: String,
    pub coordinates: T,
}

/// A feature that lies at one position.
#[derive(Debug, PartialEq)]
pub struct Point<T> {
    pub geometry: Geometry<Coordinate>,
    pub properties: T,
}

/// A feature that covers an area. The area is given by its rings: the outer
/// boundary first, then the holes.
#[derive(Debug, PartialEq)]
pub struct Polygon<T> {
    pub geometry: Geometry<Vec<Vec<Coordinate>>>,
    pub properties: T,
}

/// A feature that runs along a path.
#[derive(Debug, PartialEq)]
pub struct LineString<T> {
    pub geometry: Geometry<Vec<Coordinate>>,
    pub properties: T,
}

/// A whole document: one collection for each feature group of the schema.
#[derive(Debug, PartialEq)]
pub struct AirportMapData {
    pub aerodrome_reference_point: FeatureCollection<Point<AerodromeReferencePoint>>,
    pub apron_element: FeatureCollection<Polygon<ApronElement>>,
    pub blastpad: FeatureCollection<Polygon<Blastpad>>,
    pub construction_area: FeatureCollection<Polygon<ConstructionArea>>,
    pub deicing_area: FeatureCollection<Polygon<DeicingArea>>,
    pub final_approach_and_takeoff_area: FeatureCollection<Polygon<FinalApproachAndTakeoffArea>>,
    pub frequency_area: FeatureCollection<Polygon<FrequencyArea>>,
    pub hotspot: FeatureCollection<Polygon<Hotspot>>,
    pub land_and_hold_short_operation_location: FeatureCollection<
        LineString<LandAndHoldShortOperationLocation>,
    >,
    pub painted_centerline: FeatureCollection<LineString<PaintedCenterline>>,
    pub parking_stand_area: FeatureCollection<Polygon<ParkingStandArea>>,
    pub parking_stand_location: FeatureCollection<Point<ParkingStandLocation>>,
    pub runway_displaced_area: FeatureCollection<Polygon<RunwayDisplacedArea>>,
    pub runway_element: FeatureCollection<Polygon<RunwayElement>>,
    pub runway_exit_line: FeatureCollection<LineString<RunwayExitLine>>,
    pub runway_intersection: FeatureCollection<Polygon<RunwayIntersection>>,
    pub runway_marking: FeatureCollection<Polygon<RunwayMarking>>,
    pub runway_shoulder: FeatureCollection<Polygon<RunwayShoulder>>,
    pub runway_threshold: FeatureCollection<Point<RunwayThreshold>>,
    pub service_road: FeatureCollection<Polygon<ServiceRoad>>,
    pub stand_guidance_line: FeatureCollection<LineString<StandGuidanceLine>>,
    pub stopway: FeatureCollection<Polygon<Stopway>>,
    pub taxiway_element: FeatureCollection<Polygon<TaxiwayElement>>,
    pub taxiway_guidance_line: FeatureCollection<LineString<TaxiwayGuidanceLine>>,
    pub taxiway_holding_position: FeatureCollection<LineString<TaxiwayHoldingPosition>>,
    pub taxiway_intersection_marking: FeatureCollection<LineString<TaxiwayIntersectionMarking>>,
    pub taxiway_shoulder: FeatureCollection<Polygon<TaxiwayShoulder>>,
    pub touchdown_liftoff_area: FeatureCollection<Polygon<TouchdownLiftoffArea>>,
    pub vertical_line_structure: FeatureCollection<LineString<VerticalLineStructure>>,
    pub vertical_point_structure: FeatureCollection<Point<VerticalPointStructure>>,
    pub vertical_polygonal_structure: FeatureCollection<Polygon<VerticalPolygonalStructure>>,
    pub water: FeatureCollection<Polygon<Water>>,
}

} // verus!
