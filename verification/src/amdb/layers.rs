//! The property record of each feature group, as a document gives it.
//!
//! A category is held by its index and a number by its bit pattern; texts are
//! held as they stand, with the marks that a document uses for a missing value.

use crate::number::Double;
use vstd::prelude::*;

verus! {

/// The properties of an aerodrome reference point.
#[derive(Debug, PartialEq)]
pub struct AerodromeReferencePoint {
    pub id: u64,
    pub idarpt: String,
    pub iata: String,
    pub name: String,
    pub elev: Double,
}

/// The properties of a part of an apron.
#[derive(Debug, PartialEq)]
pub struct ApronElement {
    pub id: u64,
    pub idapron: Option<String>,
    pub gsurftyp: i32,
    pub status: i32,
}

/// The properties of a blast pad.
#[derive(Debug, PartialEq)]
pub struct Blastpad {
    pub id: u64,
    pub idthr: String,
}

/// The properties of an area under construction.
#[derive(Debug, PartialEq)]
pub struct ConstructionArea {
    pub id: u64,
    pub pstdate: String,
    pub pendate: String,
    pub piocdate: String,
}

/// The properties of a de-icing area.
#[derive(Debug, PartialEq)]
pub struct DeicingArea {
    pub id: u64,
    pub idbase: Option<String>,
    pub gsurftyp: i32,
    pub ident: String,
    pub status: i32,
    pub restacn: Option<String>,
}

/// The properties of a final approach and take-off area.
#[derive(Debug, PartialEq)]
pub struct FinalApproachAndTakeoffArea {
    pub id: u64,
    pub idrwy: Option<String>,
}

/// The properties of an area served by one radio frequency.
#[derive(Debug, PartialEq)]
pub struct FrequencyArea {
    pub id: u64,
    pub frq: Double,
    pub station: Option<String>,
}

/// The properties of a hot spot.
#[derive(Debug, PartialEq)]
pub struct Hotspot {
    pub id: u64,
    pub idhot: Option<String>,
}

/// The properties of a land-and-hold-short location.
#[derive(Debug, PartialEq)]
pub struct LandAndHoldShortOperationLocation {
    pub id: u64,
    pub idp: String,
    pub idthr: String,
}

/// The properties of a painted runway centerline.
#[derive(Debug, PartialEq)]
pub struct PaintedCenterline {
    pub id: u64,
    pub idrwy: String,
}

/// The properties of the area of a parking stand.
#[derive(Debug, PartialEq)]
pub struct ParkingStandArea {
    pub id: u64,
    pub idstd: Option<String>,
    pub gsurftyp: i32,
    pub idapron: Option<String>,
    pub jetway: i32,
    pub fuel: String,
    pub restacn: Option<String>,
    pub towing: i32,
    pub gndpower: i32,
    pub termref: Option<String>,
}

/// The properties of the location of a parking stand.
#[derive(Debug, PartialEq)]
pub struct ParkingStandLocation {
    pub id: u64,
    pub idstd: Option<String>,
    pub acn: Option<String>,
    pub termref: Option<String>,
}

/// The properties of a displaced area of a runway.
#[derive(Debug, PartialEq)]
pub struct RunwayDisplacedArea {
    pub id: u64,
    pub idthr: String,
    pub status: i32,
    pub surftype: i32,
}

/// The properties of a part of a runway.
#[derive(Debug, PartialEq)]
pub struct RunwayElement {
    pub id: u64,
    pub idrwy: String,
    pub width: Double,
    pub length: Double,
    pub surftype: i32,
}

/// The properties of a runway exit line.
#[derive(Debug, PartialEq)]
pub struct RunwayExitLine {
    pub id: u64,
    pub idlin: String,
    pub status: i32,
    pub direc: i32,
    pub color: i32,
    pub style: i32,
}

/// The properties of an intersection of runways.
#[derive(Debug, PartialEq)]
pub struct RunwayIntersection {
    pub id: u64,
    pub idrwi: String,
    pub surftype: i32,
}

/// The properties of a runway marking.
#[derive(Debug, PartialEq)]
pub struct RunwayMarking {
    pub id: u64,
    pub idrwy: String,
}

/// The properties of a runway shoulder.
#[derive(Debug, PartialEq)]
pub struct RunwayShoulder {
    pub id: u64,
    pub idrwy: String,
    pub status: i32,
    pub gsurftyp: i32,
}

/// The properties of a runway threshold.
#[derive(Debug, PartialEq)]
pub struct RunwayThreshold {
    pub id: u64,
    pub idthr: String,
    pub tdze: Double,
    pub tdzslope: Double,
    pub brngtrue: Double,
    pub brngmag: Double,
    pub rwyslope: Double,
    pub tora: Double,
    pub toda: Double,
    pub asda: Double,
    pub lda: Double,
    pub cat: i32,
    pub status: i32,
    pub thrtype: i32,
    pub vasis: i32,
}

/// The properties of a service road.
#[derive(Debug, PartialEq)]
pub struct ServiceRoad {
    pub id: u64,
    pub gsurftyp: i32,
    pub idbase: Option<String>,
}

/// The properties of a stand guidance line.
#[derive(Debug, PartialEq)]
pub struct StandGuidanceLine {
    pub id: u64,
    pub idstd: Option<String>,
    pub status: i32,
    pub direc: i32,
    pub color: i32,
    pub style: i32,
    pub termref: Option<String>,
}

/// The properties of a stopway.
#[derive(Debug, PartialEq)]
pub struct Stopway {
    pub id: u64,
    pub idthr: String,
    pub status: Double,
    pub surftype: i32,
}

/// The properties of a part of a taxiway.
#[derive(Debug, PartialEq)]
pub struct TaxiwayElement {
    pub id: u64,
    pub idlin: Option<String>,
    pub idapron: Option<String>,
    pub gsurftyp: i32,
    pub bridge: i32,
}

/// The properties of a taxiway guidance line.
#[derive(Debug, PartialEq)]
pub struct TaxiwayGuidanceLine {
    pub id: u64,
    pub idlin: Option<String>,
    pub status: i32,
    pub direc: i32,
    pub color: i32,
    pub style: i32,
}

/// The properties of a taxiway holding position.
#[derive(Debug, PartialEq)]
pub struct TaxiwayHoldingPosition {
    pub id: u64,
    pub idp: Option<String>,
    pub idlin: Option<String>,
    pub status: i32,
    pub catstop: i32,
}

/// The properties of a taxiway intersection marking.
#[derive(Debug, PartialEq)]
pub struct TaxiwayIntersectionMarking {
    pub id: u64,
    pub idlin: String,
}

/// The properties of a taxiway shoulder.
#[derive(Debug, PartialEq)]
pub struct TaxiwayShoulder {
    pub id: u64,
    pub gsurftyp: i32,
    pub status: i32,
}

/// The properties of a touchdown and lift-off area.
#[derive(Debug, PartialEq)]
pub struct TouchdownLiftoffArea {
    pub id: u64,
    pub idrwy: Option<String>,
    pub surftype: i32,
}

/// The properties of a vertical structure drawn as a line.
#[derive(Debug, PartialEq)]
pub struct VerticalLineStructure {
    pub id: u64,
    pub linsttyp: i32,
    pub material: i32,
    pub height: Double,
    pub elev: Double,
    pub lighting: i32,
    pub marking: i32,
}

/// The properties of a vertical structure drawn as a point.
#[derive(Debug, PartialEq)]
pub struct VerticalPointStructure {
    pub id: u64,
    pub pntsttyp: i32,
    pub material: i32,
    pub height: Double,
    pub elev: Double,
    pub lighting: i32,
    pub radius: Double,
    pub marking: i32,
}

/// The properties of a vertical structure drawn as an area.
#[derive(Debug, PartialEq)]
pub struct VerticalPolygonalStructure {
    pub id: u64,
    pub ident: Option<String>,
    pub plysttyp: i32,
    pub material: i32,
    pub height: Double,
    pub elev: Double,
}

/// The properties of a body of water: none.
#[derive(Debug, PartialEq)]
pub struct Water {}

} // verus!
