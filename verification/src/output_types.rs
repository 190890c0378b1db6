//! The records of the airport model, one kind for each feature group.
//!
//! Every record has an identity, which the document assigns, and two records
//! of one kind are equal when their identities are.

use crate::enums::{
    Availability, Bridge, CatStop, Direction, GroundSurfaceType, LandingCategory, LineColour,
    PapiVasi, Status, Style, SurfaceType, ThresholdType,
};
use crate::geometry::{Coord, LineString, Polygon, PolygonView};
pub use crate::identifiers::{HoldingPointTarget, HoldingPointTargetView, RunwayId};
use crate::identity::{hash_identity, AmdbElement};
use crate::number::Double;
use core::hash::{Hash, Hasher};
use vstd::prelude::*;
use vstd::std_specs::cmp::PartialEqSpecImpl;

verus! {

/// The text of an optional field, if the field holds one.
pub open spec fn text_of(field: Option<String>) -> Option<Seq<char>> {
    match field {
        Some(text) => Some(text@),
        None => None,
    }
}

/// The texts of a list, in its order.
pub open spec fn texts_of(list: Vec<String>) -> Seq<Seq<char>> {
    Seq::new(list@.len(), |i: int| list@[i]@)
}

/// The target of an optional reference, if there is one.
pub open spec fn target_view(target: Option<HoldingPointTarget>) -> Option<HoldingPointTargetView> {
    match target {
        Some(target) => Some(target@),
        None => None,
    }
}

/// The reference point of the aerodrome.
#[derive(Debug, Clone)]
pub struct AerodromeReferencePoint {
    pub id: u64,
    pub airport_id: String,
    pub iata_id: String,
    pub airport_name: String,
    pub elevation: Double,
    pub location: Coord,
}

/// The mathematical value of an [`AerodromeReferencePoint`].
pub struct AerodromeReferencePointView {
    pub id: u64,
    pub airport_id: Seq<char>,
    pub iata_id: Seq<char>,
    pub airport_name: Seq<char>,
    pub elevation: Double,
    pub location: Coord,
}

impl View for AerodromeReferencePoint {
    type V = AerodromeReferencePointView;

    open spec fn view(&self) -> AerodromeReferencePointView {
        AerodromeReferencePointView {
            id: self.id,
            airport_id: self.airport_id@,
            iata_id: self.iata_id@,
            airport_name: self.airport_name@,
            elevation: self.elevation,
            location: self.location,
        }
    }
}

impl AmdbElement for AerodromeReferencePoint {
    open spec fn identity(&self) -> u64 {
        self.id
    }

    fn id(&self) -> (id: u64) {
        self.id
    }
}

impl PartialEq for AerodromeReferencePoint {
    fn eq(&self, other: &Self) -> (equal: bool) {
        self.id == other.id
    }
}

impl PartialEqSpecImpl for AerodromeReferencePoint {
    open spec fn obeys_eq_spec() -> bool {
        true
    }

    open spec fn eq_spec(&self, other: &Self) -> bool {
        self.id == other.id
    }
}

impl Eq for AerodromeReferencePoint {

}

impl Hash for AerodromeReferencePoint {
    fn hash<H: Hasher>(&self, state: &mut H) {
        hash_identity(self.id, state)
    }
}

/// A part of an apron.
#[derive(Debug, Clone)]
pub struct ApronElement {
    pub id: u64,
    pub surface_type: GroundSurfaceType,
    pub apron_id: Option<String>,
    pub geometry: Polygon,
}

/// The mathematical value of an [`ApronElement`].
pub struct ApronElementView {
    pub id: u64,
    pub surface_type: GroundSurfaceType,
    pub apron_id: Option<Seq<char>>,
    pub geometry: PolygonView,
}

impl View for ApronElement {
    type V = ApronElementView;

    open spec fn view(&self) -> ApronElementView {
        ApronElementView {
            id: self.id,
            surface_type: self.surface_type,
            apron_id: text_of(self.apron_id),
            geometry: self.geometry@,
        }
    }
}

impl AmdbElement for ApronElement {
    open spec fn identity(&self) -> u64 {
        self.id
    }

    fn id(&self) -> (id: u64) {
        self.id
    }
}

impl PartialEq for ApronElement {
    fn eq(&self, other: &Self) -> (equal: bool) {
        self.id == other.id
    }
}

impl PartialEqSpecImpl for ApronElement {
    open spec fn obeys_eq_spec() -> bool {
        true
    }

    open spec fn eq_spec(&self, other: &Self) -> bool {
        self.id == other.id
    }
}

impl Eq for ApronElement {

}

impl Hash for ApronElement {
    fn hash<H: Hasher>(&self, state: &mut H) {
        hash_identity(self.id, state)
    }
}

/// A part of a runway.
#[derive(Debug, Clone)]
pub struct RunwayElement {
    pub id: u64,
    pub runway_id: RunwayId,
    pub width: Double,
    pub length: Double,
    pub surface_type: SurfaceType,
    pub geometry: Polygon,
}

/// The mathematical value of a [`RunwayElement`].
pub struct RunwayElementView {
    pub id: u64,
    pub runway_id: (Seq<char>, Seq<char>),
    pub width: Double,
    pub length: Double,
    pub surface_type: SurfaceType,
    pub geometry: PolygonView,
}

impl View for RunwayElement {
    type V = RunwayElementView;

    open spec fn view(&self) -> RunwayElementView {
        RunwayElementView {
            id: self.id,
            runway_id: self.runway_id@,
            width: self.width,
            length: self.length,
            surface_type: self.surface_type,
            geometry: self.geometry@,
        }
    }
}

impl AmdbElement for RunwayElement {
    open spec fn identity(&self) -> u64 {
        self.id
    }

    fn id(&self) -> (id: u64) {
        self.id
    }
}

impl PartialEq for RunwayElement {
    fn eq(&self, other: &Self) -> (equal: bool) {
        self.id == other.id
    }
}

impl PartialEqSpecImpl for RunwayElement {
    open spec fn obeys_eq_spec() -> bool {
        true
    }

    open spec fn eq_spec(&self, other: &Self) -> bool {
        self.id == other.id
    }
}

impl Eq for RunwayElement {

}

impl Hash for RunwayElement {
    fn hash<H: Hasher>(&self, state: &mut H) {
        hash_identity(self.id, state)
    }
}

/// A marking painted on a runway.
#[derive(Debug, Clone)]
pub struct RunwayMarking {
    pub id: u64,
    pub runway_id: RunwayId,
    pub geometry: Polygon,
}

/// The mathematical value of a [`RunwayMarking`].
pub struct RunwayMarkingView {
    pub id: u64,
    pub runway_id: (Seq<char>, Seq<char>),
    pub geometry: PolygonView,
}

impl View for RunwayMarking {
    type V = RunwayMarkingView;

    open spec fn view(&self) -> RunwayMarkingView {
        RunwayMarkingView {
            id: self.id,
            runway_id: self.runway_id@,
            geometry: self.geometry@,
        }
    }
}

impl AmdbElement for RunwayMarking {
    open spec fn identity(&self) -> u64 {
        self.id
    }

    fn id(&self) -> (id: u64) {
        self.id
    }
}

impl PartialEq for RunwayMarking {
    fn eq(&self, other: &Self) -> (equal: bool) {
        self.id == other.id
    }
}

impl PartialEqSpecImpl for RunwayMarking {
    open spec fn obeys_eq_spec() -> bool {
        true
    }

    open spec fn eq_spec(&self, other: &Self) -> bool {
        self.id == other.id
    }
}

impl Eq for RunwayMarking {

}

impl Hash for RunwayMarking {
    fn hash<H: Hasher>(&self, state: &mut H) {
        hash_identity(self.id, state)
    }
}

/// A shoulder of a runway.
#[derive(Debug, Clone)]
pub struct RunwayShoulder {
    pub id: u64,
    pub runway_id: RunwayId,
    pub status: Status,
    pub surface_type: GroundSurfaceType,
    pub geometry: Polygon,
}

/// The mathematical value of a [`RunwayShoulder`].
pub struct RunwayShoulderView {
    pub id: u64,
    pub runway_id: (Seq<char>, Seq<char>),
    pub status: Status,
    pub surface_type: GroundSurfaceType,
    pub geometry: PolygonView,
}

impl View for RunwayShoulder {
    type V = RunwayShoulderView;

    open spec fn view(&self) -> RunwayShoulderView {
        RunwayShoulderView {
            id: self.id,
            runway_id: self.runway_id@,
            status: self.status,
            surface_type: self.surface_type,
            geometry: self.geometry@,
        }
    }
}

impl AmdbElement for RunwayShoulder {
    open spec fn identity(&self) -> u64 {
        self.id
    }

    fn id(&self) -> (id: u64) {
        self.id
    }
}

impl PartialEq for RunwayShoulder {
    fn eq(&self, other: &Self) -> (equal: bool) {
        self.id == other.id
    }
}

impl PartialEqSpecImpl for RunwayShoulder {
    open spec fn obeys_eq_spec() -> bool {
        true
    }

    open spec fn eq_spec(&self, other: &Self) -> bool {
        self.id == other.id
    }
}

impl Eq for RunwayShoulder {

}

impl Hash for RunwayShoulder {
    fn hash<H: Hasher>(&self, state: &mut H) {
        hash_identity(self.id, state)
    }
}

/// The area before a displaced threshold.
#[derive(Debug, Clone)]
pub struct RunwayDisplacedArea {
    pub id: u64,
    pub threshold_id: String,
    pub status: Status,
    pub surface_type: SurfaceType,
    pub geometry: Polygon,
}

/// The mathematical value of a [`RunwayDisplacedArea`].
pub struct RunwayDisplacedAreaView {
    pub id: u64,
    pub threshold_id: Seq<char>,
    pub status: Status,
    pub surface_type: SurfaceType,
    pub geometry: PolygonView,
}

impl View for RunwayDisplacedArea {
    type V = RunwayDisplacedAreaView;

    open spec fn view(&self) -> RunwayDisplacedAreaView {
        RunwayDisplacedAreaView {
            id: self.id,
            threshold_id: self.threshold_id@,
            status: self.status,
            surface_type: self.surface_type,
            geometry: self.geometry@,
        }
    }
}

impl AmdbElement for RunwayDisplacedArea {
    open spec fn identity(&self) -> u64 {
        self.id
    }

    fn id(&self) -> (id: u64) {
        self.id
    }
}

impl PartialEq for RunwayDisplacedArea {
    fn eq(&self, other: &Self) -> (equal: bool) {
        self.id == other.id
    }
}

impl PartialEqSpecImpl for RunwayDisplacedArea {
    open spec fn obeys_eq_spec() -> bool {
        true
    }

    open spec fn eq_spec(&self, other: &Self) -> bool {
        self.id == other.id
    }
}

impl Eq for RunwayDisplacedArea {

}

impl Hash for RunwayDisplacedArea {
    fn hash<H: Hasher>(&self, state: &mut H) {
        hash_identity(self.id, state)
    }
}

/// The area of a parking stand.
#[derive(Debug, Clone)]
pub struct ParkingStandArea {
    pub id: u64,
    pub stand_id: Option<String>,
    pub apron_id: Option<String>,
    pub surface_type: GroundSurfaceType,
    pub jetway: Availability,
    pub fuel: String,
    pub towing: Availability,
    pub ground_power: Availability,
    pub terminal_name: Option<String>,
    pub geometry: Polygon,
}

/// The mathematical value of a [`ParkingStandArea`].
pub struct ParkingStandAreaView {
    pub id: u64,
    pub stand_id: Option<Seq<char>>,
    pub apron_id: Option<Seq<char>>,
    pub surface_type: GroundSurfaceType,
    pub jetway: Availability,
    pub fuel: Seq<char>,
    pub towing: Availability,
    pub ground_power: Availability,
    pub terminal_name: Option<Seq<char>>,
    pub geometry: PolygonView,
}

impl View for ParkingStandArea {
    type V = ParkingStandAreaView;

    open spec fn view(&self) -> ParkingStandAreaView {
        ParkingStandAreaView {
            id: self.id,
            stand_id: text_of(self.stand_id),
            apron_id: text_of(self.apron_id),
            surface_type: self.surface_type,
            jetway: self.jetway,
            fuel: self.fuel@,
            towing: self.towing,
            ground_power: self.ground_power,
            terminal_name: text_of(self.terminal_name),
            geometry: self.geometry@,
        }
    }
}

impl AmdbElement for ParkingStandArea {
    open spec fn identity(&self) -> u64 {
        self.id
    }

    fn id(&self) -> (id: u64) {
        self.id
    }
}

impl PartialEq for ParkingStandArea {
    fn eq(&self, other: &Self) -> (equal: bool) {
        self.id == other.id
    }
}

impl PartialEqSpecImpl for ParkingStandArea {
    open spec fn obeys_eq_spec() -> bool {
        true
    }

    open spec fn eq_spec(&self, other: &Self) -> bool {
        self.id == other.id
    }
}

impl Eq for ParkingStandArea {

}

impl Hash for ParkingStandArea {
    fn hash<H: Hasher>(&self, state: &mut H) {
        hash_identity(self.id, state)
    }
}

/// A part of a taxiway.
#[derive(Debug, Clone)]
pub struct TaxiwayElement {
    pub id: u64,
    pub taxiway_id: Option<String>,
    pub apron_id: Option<String>,
    pub surface_type: GroundSurfaceType,
    pub bridge: Bridge,
    pub geometry: Polygon,
}

/// The mathematical value of a [`TaxiwayElement`].
pub struct TaxiwayElementView {
    pub id: u64,
    pub taxiway_id: Option<Seq<char>>,
    pub apron_id: Option<Seq<char>>,
    pub surface_type: GroundSurfaceType,
    pub bridge: Bridge,
    pub geometry: PolygonView,
}

impl View for TaxiwayElement {
    type V = TaxiwayElementView;

    open spec fn view(&self) -> TaxiwayElementView {
        TaxiwayElementView {
            id: self.id,
            taxiway_id: text_of(self.taxiway_id),
            apron_id: text_of(self.apron_id),
            surface_type: self.surface_type,
            bridge: self.bridge,
            geometry: self.geometry@,
        }
    }
}

impl AmdbElement for TaxiwayElement {
    open spec fn identity(&self) -> u64 {
        self.id
    }

    fn id(&self) -> (id: u64) {
        self.id
    }
}

impl PartialEq for TaxiwayElement {
    fn eq(&self, other: &Self) -> (equal: bool) {
        self.id == other.id
    }
}

impl PartialEqSpecImpl for TaxiwayElement {
    open spec fn obeys_eq_spec() -> bool {
        true
    }

    open spec fn eq_spec(&self, other: &Self) -> bool {
        self.id == other.id
    }
}

impl Eq for TaxiwayElement {

}

impl Hash for TaxiwayElement {
    fn hash<H: Hasher>(&self, state: &mut H) {
        hash_identity(self.id, state)
    }
}

/// A shoulder of a taxiway.
#[derive(Debug, Clone)]
pub struct TaxiwayShoulder {
    pub id: u64,
    pub surface_type: GroundSurfaceType,
    pub geometry: Polygon,
}

/// The mathematical value of a [`TaxiwayShoulder`].
pub struct TaxiwayShoulderView {
    pub id: u64,
    pub surface_type: GroundSurfaceType,
    pub geometry: PolygonView,
}

impl View for TaxiwayShoulder {
    type V = TaxiwayShoulderView;

    open spec fn view(&self) -> TaxiwayShoulderView {
        TaxiwayShoulderView {
            id: self.id,
            surface_type: self.surface_type,
            geometry: self.geometry@,
        }
    }
}

impl AmdbElement for TaxiwayShoulder {
    open spec fn identity(&self) -> u64 {
        self.id
    }

    fn id(&self) -> (id: u64) {
        self.id
    }
}

impl PartialEq for TaxiwayShoulder {
    fn eq(&self, other: &Self) -> (equal: bool) {
        self.id == other.id
    }
}

impl PartialEqSpecImpl for TaxiwayShoulder {
    open spec fn obeys_eq_spec() -> bool {
        true
    }

    open spec fn eq_spec(&self, other: &Self) -> bool {
        self.id == other.id
    }
}

impl Eq for TaxiwayShoulder {

}

impl Hash for TaxiwayShoulder {
    fn hash<H: Hasher>(&self, state: &mut H) {
        hash_identity(self.id, state)
    }
}

/// A line that guides an aircraft onto a stand.
#[derive(Debug, Clone)]
pub struct StandGuidanceLine {
    pub id: u64,
    pub color: LineColour,
    pub direction: Direction,
    pub style: Style,
    pub stand_id: Option<String>,
    pub terminal_name: Option<String>,
    pub geometry: LineString,
}

/// The mathematical value of a [`StandGuidanceLine`].
pub struct StandGuidanceLineView {
    pub id: u64,
    pub color: LineColour,
    pub direction: Direction,
    pub style: Style,
    pub stand_id: Option<Seq<char>>,
    pub terminal_name: Option<Seq<char>>,
    pub geometry: Seq<Coord>,
}

impl View for StandGuidanceLine {
    type V = StandGuidanceLineView;

    open spec fn view(&self) -> StandGuidanceLineView {
        StandGuidanceLineView {
            id: self.id,
            color: self.color,
            direction: self.direction,
            style: self.style,
            stand_id: text_of(self.stand_id),
            terminal_name: text_of(self.terminal_name),
            geometry: self.geometry@,
        }
    }
}

impl AmdbElement for StandGuidanceLine {
    open spec fn identity(&self) -> u64 {
        self.id
    }

    fn id(&self) -> (id: u64) {
        self.id
    }
}

impl PartialEq for StandGuidanceLine {
    fn eq(&self, other: &Self) -> (equal: bool) {
        self.id == other.id
    }
}

impl PartialEqSpecImpl for StandGuidanceLine {
    open spec fn obeys_eq_spec() -> bool {
        true
    }

    open spec fn eq_spec(&self, other: &Self) -> bool {
        self.id == other.id
    }
}

impl Eq for StandGuidanceLine {

}

impl Hash for StandGuidanceLine {
    fn hash<H: Hasher>(&self, state: &mut H) {
        hash_identity(self.id, state)
    }
}

/// A line that guides an aircraft along a taxiway.
#[derive(Debug, Clone)]
pub struct TaxiwayGuidanceLine {
    pub id: u64,
    pub color: LineColour,
    pub direction: Direction,
    pub style: Style,
    pub status: Status,
    pub taxiway_id: Option<String>,
    pub geometry: LineString,
}

/// The mathematical value of a [`TaxiwayGuidanceLine`].
pub struct TaxiwayGuidanceLineView {
    pub id: u64,
    pub color: LineColour,
    pub direction: Direction,
    pub style: Style,
    pub status: Status,
    pub taxiway_id: Option<Seq<char>>,
    pub geometry: Seq<Coord>,
}

impl View for TaxiwayGuidanceLine {
    type V = TaxiwayGuidanceLineView;

    open spec fn view(&self) -> TaxiwayGuidanceLineView {
        TaxiwayGuidanceLineView {
            id: self.id,
            color: self.color,
            direction: self.direction,
            style: self.style,
            status: self.status,
            taxiway_id: text_of(self.taxiway_id),
            geometry: self.geometry@,
        }
    }
}

impl AmdbElement for TaxiwayGuidanceLine {
    open spec fn identity(&self) -> u64 {
        self.id
    }

    fn id(&self) -> (id: u64) {
        self.id
    }
}

impl PartialEq for TaxiwayGuidanceLine {
    fn eq(&self, other: &Self) -> (equal: bool) {
        self.id == other.id
    }
}

impl PartialEqSpecImpl for TaxiwayGuidanceLine {
    open spec fn obeys_eq_spec() -> bool {
        true
    }

    open spec fn eq_spec(&self, other: &Self) -> bool {
        self.id == other.id
    }
}

impl Eq for TaxiwayGuidanceLine {

}

impl Hash for TaxiwayGuidanceLine {
    fn hash<H: Hasher>(&self, state: &mut H) {
        hash_identity(self.id, state)
    }
}

/// A line that guides an aircraft off a runway.
#[derive(Debug, Clone)]
pub struct RunwayExitLine {
    pub id: u64,
    pub color: LineColour,
    pub direction: Direction,
    pub style: Style,
    pub status: Status,
    /// The taxiway that the line leads to, as the document names it.
    pub taxiway_id: Option<String>,
    pub geometry: LineString,
}

/// The mathematical value of a [`RunwayExitLine`].
pub struct RunwayExitLineView {
    pub id: u64,
    pub color: LineColour,
    pub direction: Direction,
    pub style: Style,
    pub status: Status,
    pub taxiway_id: Option<Seq<char>>,
    pub geometry: Seq<Coord>,
}

impl View for RunwayExitLine {
    type V = RunwayExitLineView;

    open spec fn view(&self) -> RunwayExitLineView {
        RunwayExitLineView {
            id: self.id,
            color: self.color,
            direction: self.direction,
            style: self.style,
            status: self.status,
            taxiway_id: text_of(self.taxiway_id),
            geometry: self.geometry@,
        }
    }
}

impl AmdbElement for RunwayExitLine {
    open spec fn identity(&self) -> u64 {
        self.id
    }

    fn id(&self) -> (id: u64) {
        self.id
    }
}

impl PartialEq for RunwayExitLine {
    fn eq(&self, other: &Self) -> (equal: bool) {
        self.id == other.id
    }
}

impl PartialEqSpecImpl for RunwayExitLine {
    open spec fn obeys_eq_spec() -> bool {
        true
    }

    open spec fn eq_spec(&self, other: &Self) -> bool {
        self.id == other.id
    }
}

impl Eq for RunwayExitLine {

}

impl Hash for RunwayExitLine {
    fn hash<H: Hasher>(&self, state: &mut H) {
        hash_identity(self.id, state)
    }
}

/// A position at which an aircraft holds on a taxiway.
#[derive(Debug, Clone)]
pub struct TaxiwayHoldingPosition {
    pub id: u64,
    pub status: Status,
    pub taxiway_id: Option<String>,
    pub category: CatStop,
    pub holding_point_target: Option<HoldingPointTarget>,
    pub geometry: LineString,
}

/// The mathematical value of a [`TaxiwayHoldingPosition`].
pub struct TaxiwayHoldingPositionView {
    pub id: u64,
    pub status: Status,
    pub taxiway_id: Option<Seq<char>>,
    pub category: CatStop,
    pub holding_point_target: Option<HoldingPointTargetView>,
    pub geometry: Seq<Coord>,
}

impl View for TaxiwayHoldingPosition {
    type V = TaxiwayHoldingPositionView;

    open spec fn view(&self) -> TaxiwayHoldingPositionView {
        TaxiwayHoldingPositionView {
            id: self.id,
            status: self.status,
            taxiway_id: text_of(self.taxiway_id),
            category: self.category,
            holding_point_target: target_view(self.holding_point_target),
            geometry: self.geometry@,
        }
    }
}

impl AmdbElement for TaxiwayHoldingPosition {
    open spec fn identity(&self) -> u64 {
        self.id
    }

    fn id(&self) -> (id: u64) {
        self.id
    }
}

impl PartialEq for TaxiwayHoldingPosition {
    fn eq(&self, other: &Self) -> (equal: bool) {
        self.id == other.id
    }
}

impl PartialEqSpecImpl for TaxiwayHoldingPosition {
    open spec fn obeys_eq_spec() -> bool {
        true
    }

    open spec fn eq_spec(&self, other: &Self) -> bool {
        self.id == other.id
    }
}

impl Eq for TaxiwayHoldingPosition {

}

impl Hash for TaxiwayHoldingPosition {
    fn hash<H: Hasher>(&self, state: &mut H) {
        hash_identity(self.id, state)
    }
}

/// A threshold of a runway.
#[derive(Debug, Clone)]
pub struct RunwayThreshold {
    pub id: u64,
    pub threshold_id: String,
    pub touch_down_zone_elevation: Double,
    pub touch_down_zone_slope: Double,
    pub true_bearing: Double,
    pub magnetic_bearing: Double,
    pub runway_slope: Double,
    pub category: LandingCategory,
    pub papivasi: PapiVasi,
    pub status: Status,
    pub threshold_type: ThresholdType,
    pub location: Coord,
}

/// The mathematical value of a [`RunwayThreshold`].
pub struct RunwayThresholdView {
    pub id: u64,
    pub threshold_id: Seq<char>,
    pub touch_down_zone_elevation: Double,
    pub touch_down_zone_slope: Double,
    pub true_bearing: Double,
    pub magnetic_bearing: Double,
    pub runway_slope: Double,
    pub category: LandingCategory,
    pub papivasi: PapiVasi,
    pub status: Status,
    pub threshold_type: ThresholdType,
    pub location: Coord,
}

impl View for RunwayThreshold {
    type V = RunwayThresholdView;

    open spec fn view(&self) -> RunwayThresholdView {
        RunwayThresholdView {
            id: self.id,
            threshold_id: self.threshold_id@,
            touch_down_zone_elevation: self.touch_down_zone_elevation,
            touch_down_zone_slope: self.touch_down_zone_slope,
            true_bearing: self.true_bearing,
            magnetic_bearing: self.magnetic_bearing,
            runway_slope: self.runway_slope,
            category: self.category,
            papivasi: self.papivasi,
            status: self.status,
            threshold_type: self.threshold_type,
            location: self.location,
        }
    }
}

impl AmdbElement for RunwayThreshold {
    open spec fn identity(&self) -> u64 {
        self.id
    }

    fn id(&self) -> (id: u64) {
        self.id
    }
}

impl PartialEq for RunwayThreshold {
    fn eq(&self, other: &Self) -> (equal: bool) {
        self.id == other.id
    }
}

impl PartialEqSpecImpl for RunwayThreshold {
    open spec fn obeys_eq_spec() -> bool {
        true
    }

    open spec fn eq_spec(&self, other: &Self) -> bool {
        self.id == other.id
    }
}

impl Eq for RunwayThreshold {

}

impl Hash for RunwayThreshold {
    fn hash<H: Hasher>(&self, state: &mut H) {
        hash_identity(self.id, state)
    }
}

/// The location of a parking stand.
#[derive(Debug, Clone)]
pub struct ParkingStandLocation {
    pub id: u64,
    pub stand_id: Option<String>,
    /// The aircraft types that may use the stand: the text in which the
    /// document lists them, as one entry, or no entry where it lists none.
    pub aircraft_types: Vec<String>,
    pub location: Coord,
}

/// The mathematical value of a [`ParkingStandLocation`].
pub struct ParkingStandLocationView {
    pub id: u64,
    pub stand_id: Option<Seq<char>>,
    pub aircraft_types: Seq<Seq<char>>,
    pub location: Coord,
}

impl View for ParkingStandLocation {
    type V = ParkingStandLocationView;

    open spec fn view(&self) -> ParkingStandLocationView {
        ParkingStandLocationView {
            id: self.id,
            stand_id: text_of(self.stand_id),
            aircraft_types: texts_of(self.aircraft_types),
            location: self.location,
        }
    }
}

impl AmdbElement for ParkingStandLocation {
    open spec fn identity(&self) -> u64 {
        self.id
    }

    fn id(&self) -> (id: u64) {
        self.id
    }
}

impl PartialEq for ParkingStandLocation {
    fn eq(&self, other: &Self) -> (equal: bool) {
        self.id == other.id
    }
}

impl PartialEqSpecImpl for ParkingStandLocation {
    open spec fn obeys_eq_spec() -> bool {
        true
    }

    open spec fn eq_spec(&self, other: &Self) -> bool {
        self.id == other.id
    }
}

impl Eq for ParkingStandLocation {

}

impl Hash for ParkingStandLocation {
    fn hash<H: Hasher>(&self, state: &mut H) {
        hash_identity(self.id, state)
    }
}

/// The painted centerline of a runway.
#[derive(Debug, Clone)]
pub struct PaintedCenterline {
    pub id: u64,
    pub runway_id: RunwayId,
    pub geometry: LineString,
}

/// The mathematical value of a [`PaintedCenterline`].
pub struct PaintedCenterlineView {
    pub id: u64,
    pub runway_id: (Seq<char>, Seq<char>),
    pub geometry: Seq<Coord>,
}

impl View for PaintedCenterline {
    type V = PaintedCenterlineView;

    open spec fn view(&self) -> PaintedCenterlineView {
        PaintedCenterlineView {
            id: self.id,
            runway_id: self.runway_id@,
            geometry: self.geometry@,
        }
    }
}

impl AmdbElement for PaintedCenterline {
    open spec fn identity(&self) -> u64 {
        self.id
    }

    fn id(&self) -> (id: u64) {
        self.id
    }
}

impl PartialEq for PaintedCenterline {
    fn eq(&self, other: &Self) -> (equal: bool) {
        self.id == other.id
    }
}

impl PartialEqSpecImpl for PaintedCenterline {
    open spec fn obeys_eq_spec() -> bool {
        true
    }

    open spec fn eq_spec(&self, other: &Self) -> bool {
        self.id == other.id
    }
}

impl Eq for PaintedCenterline {

}

impl Hash for PaintedCenterline {
    fn hash<H: Hasher>(&self, state: &mut H) {
        hash_identity(self.id, state)
    }
}

} // verus!
