//! Decoding of airport mapping database (AMDB) documents into a typed model of
//! an airport's movement area.
//!
//! A document holds one collection of features for each feature group of the
//! schema. [`parse_airport`] turns a document into an [`Airport`]: the one
//! aerodrome reference point, and the records of every group that the model
//! keeps, in the order of the document. A document either decodes as a whole
//! or is refused with the first fault found in it.

use crate::amdb::geo_json::{AirportMapData, LineString, Point, Polygon};
use crate::amdb::layers;
use crate::error::DecodeError;
use crate::implementations::{outcome_view, FromFeature};
use crate::output_types::{
    AerodromeReferencePoint, AerodromeReferencePointView, ApronElement, ApronElementView,
    PaintedCenterline, PaintedCenterlineView, ParkingStandArea, ParkingStandAreaView,
    ParkingStandLocation, ParkingStandLocationView, RunwayDisplacedArea, RunwayDisplacedAreaView,
    RunwayElement, RunwayElementView, RunwayExitLine, RunwayExitLineView, RunwayMarking,
    RunwayMarkingView, RunwayShoulder, RunwayShoulderView, RunwayThreshold, RunwayThresholdView,
    StandGuidanceLine, StandGuidanceLineView, TaxiwayElement, TaxiwayElementView,
    TaxiwayGuidanceLine, TaxiwayGuidanceLineView, TaxiwayHoldingPosition,
    TaxiwayHoldingPositionView, TaxiwayShoulder, TaxiwayShoulderView,
};
use vstd::prelude::*;

pub mod amdb;
pub mod enums;
pub mod error;
pub mod geometry;
pub mod identifiers;
pub mod identity;
pub mod implementations;
pub mod number;
pub mod output_types;
pub mod text;

verus! {

/// The movement area of one airport.
pub struct Airport {
    pub aerodrome_reference_point: AerodromeReferencePoint,
    pub apron_elements: Vec<ApronElement>,
    pub painted_centerlines: Vec<PaintedCenterline>,
    pub parking_stand_areas: Vec<ParkingStandArea>,
    pub parking_stand_locations: Vec<ParkingStandLocation>,
    pub runway_displaced_areas: Vec<RunwayDisplacedArea>,
    pub runway_elements: Vec<RunwayElement>,
    pub runway_exit_lines: Vec<RunwayExitLine>,
    pub runway_markings: Vec<RunwayMarking>,
    pub runway_shoulders: Vec<RunwayShoulder>,
    pub runway_thresholds: Vec<RunwayThreshold>,
    pub stand_guidance_lines: Vec<StandGuidanceLine>,
    pub taxiway_elements: Vec<TaxiwayElement>,
    pub taxiway_guidance_lines: Vec<TaxiwayGuidanceLine>,
    pub taxiway_holding_positions: Vec<TaxiwayHoldingPosition>,
    pub taxiway_shoulders: Vec<TaxiwayShoulder>,
}

/// The mathematical value of an [`Airport`].
pub struct AirportView {
    pub aerodrome_reference_point: AerodromeReferencePointView,
    pub apron_elements: Seq<ApronElementView>,
    pub painted_centerlines: Seq<PaintedCenterlineView>,
    pub parking_stand_areas: Seq<ParkingStandAreaView>,
    pub parking_stand_locations: Seq<ParkingStandLocationView>,
    pub runway_displaced_areas: Seq<RunwayDisplacedAreaView>,
    pub runway_elements: Seq<RunwayElementView>,
    pub runway_exit_lines: Seq<RunwayExitLineView>,
    pub runway_markings: Seq<RunwayMarkingView>,
    pub runway_shoulders: Seq<RunwayShoulderView>,
    pub runway_thresholds: Seq<RunwayThresholdView>,
    pub stand_guidance_lines: Seq<StandGuidanceLineView>,
    pub taxiway_elements: Seq<TaxiwayElementView>,
    pub taxiway_guidance_lines: Seq<TaxiwayGuidanceLineView>,
    pub taxiway_holding_positions: Seq<TaxiwayHoldingPositionView>,
    pub taxiway_shoulders: Seq<TaxiwayShoulderView>,
}

/// The values of the given records, in their order.
pub open spec fn views_of<R: View>(records: Seq<R>) -> Seq<R::V> {
    Seq::new(records.len(), |i: int| records[i]@)
}

impl View for Airport {
    type V = AirportView;

    open spec fn view(&self) -> AirportView {
        AirportView {
            aerodrome_reference_point: self.aerodrome_reference_point@,
            apron_elements: views_of(self.apron_elements@),
            painted_centerlines: views_of(self.painted_centerlines@),
            parking_stand_areas: views_of(self.parking_stand_areas@),
            parking_stand_locations: views_of(self.parking_stand_locations@),
            runway_displaced_areas: views_of(self.runway_displaced_areas@),
            runway_elements: views_of(self.runway_elements@),
            runway_exit_lines: views_of(self.runway_exit_lines@),
            runway_markings: views_of(self.runway_markings@),
            runway_shoulders: views_of(self.runway_shoulders@),
            runway_thresholds: views_of(self.runway_thresholds@),
            stand_guidance_lines: views_of(self.stand_guidance_lines@),
            taxiway_elements: views_of(self.taxiway_elements@),
            taxiway_guidance_lines: views_of(self.taxiway_guidance_lines@),
            taxiway_holding_positions: views_of(self.taxiway_holding_positions@),
            taxiway_shoulders: views_of(self.taxiway_shoulders@),
        }
    }
}

/// The feature at `at` is the first of `input` that does not decode.
pub open spec fn is_first_failure<T, O: FromFeature<T>>(input: Seq<T>, at: int) -> bool {
    &&& 0 <= at < input.len()
    &&& O::decoded(input[at]) is Err
    &&& forall|j: int| 0 <= j < at ==> O::decoded(input[j]) is Ok
}

/// `output` holds the record of each feature of `input`, at the same index.
pub open spec fn in_order<T, O: FromFeature<T>>(input: Seq<T>, output: Seq<O::V>) -> bool {
    &&& output.len() == input.len()
    &&& forall|i: int| 0 <= i < input.len() ==> O::decoded(input[i]) == Ok::<_, DecodeError>(output[i])
}

/// The records of a group: the record of each feature, in the order of the
/// features, where every feature decodes; else the fault of the first feature
/// that does not.
pub open spec fn decoded_all<T, O: FromFeature<T>>(input: Seq<T>) -> Result<Seq<O::V>, DecodeError> {
    if forall|i: int| 0 <= i < input.len() ==> O::decoded(input[i]) is Ok {
        Ok(Seq::new(input.len(), |i: int| O::decoded(input[i])->Ok_0))
    } else {
        let at = choose|at: int| is_first_failure::<T, O>(input, at);
        Err(O::decoded(input[at])->Err_0)
    }
}

/// Where a feature does not decode, there is a first one that does not.
proof fn lemma_first_failure_exists<T, O: FromFeature<T>>(input: Seq<T>, at: int)
    requires
        0 <= at < input.len(),
        O::decoded(input[at]) is Err,
    ensures
        exists|first: int| is_first_failure::<T, O>(input, first),
    decreases at,
{
    if exists|j: int| 0 <= j < at && O::decoded(input[j]) is Err {
        let j = choose|j: int| 0 <= j < at && O::decoded(input[j]) is Err;
        lemma_first_failure_exists::<T, O>(input, j);
    } else {
        assert(is_first_failure::<T, O>(input, at));
    }
}

/// The records of a group stand in the order of its features: the record at
/// an index is the one that the feature at that index decodes to.
pub proof fn lemma_decoded_all_keeps_order<T, O: FromFeature<T>>(input: Seq<T>)
    ensures
        decoded_all::<T, O>(input) matches Ok(output) ==> in_order::<T, O>(input, output),
        decoded_all::<T, O>(input) matches Err(e) ==> exists|at: int|
            is_first_failure::<T, O>(input, at) && O::decoded(input[at]) == Err::<O::V, _>(e),
{
    if !(forall|i: int| 0 <= i < input.len() ==> O::decoded(input[i]) is Ok) {
        let i = choose|i: int| 0 <= i < input.len() && !(O::decoded(input[i]) is Ok);
        lemma_first_failure_exists::<T, O>(input, i);
    }
}

/// Decodes the features of one group, in their order. The first feature that
/// does not decode ends the decoding with its fault.
pub fn map_vec<T, O: FromFeature<T>>(input: Vec<T>) -> (outcome: Result<Vec<O>, DecodeError>)
    ensures
        match outcome {
            Ok(output) => {
                &&& decoded_all::<T, O>(input@) == Ok::<_, DecodeError>(views_of(output@))
                &&& in_order::<T, O>(input@, views_of(output@))
            },
            Err(e) => {
                &&& decoded_all::<T, O>(input@) == Err::<Seq<O::V>, _>(e)
                &&& exists|at: int|
                    is_first_failure::<T, O>(input@, at) && O::decoded(input@[at]) == Err::<
                        O::V,
                        _,
                    >(e)
            },
        },
{
    let ghost source = input@;
    let mut output: Vec<O> = Vec::new();
    for feature in it: input
        invariant
            it.seq() == source,
            output@.len() == it.index(),
            forall|j: int|
                #![trigger O::decoded(source[j])]
                #![trigger output@[j]]
                0 <= j < it.index() ==> O::decoded(source[j]) == Ok::<_, DecodeError>(output@[j]@),
    {
        let ghost at = it.index() as int;
        match O::from_feature(feature) {
            Ok(record) => {
                output.push(record);
            },
            Err(e) => {
                proof {
                    assert(is_first_failure::<T, O>(source, at));
                    lemma_first_failure_is_unique::<T, O>(source, at);
                }
                return Err(e);
            },
        }
    }
    proof {
        assert(output@.len() == source.len());
        assert forall|i: int| 0 <= i < source.len() implies O::decoded(source[i]) == Ok::<
            _,
            DecodeError,
        >(views_of(output@)[i]) by {
            assert(views_of(output@)[i] == output@[i]@);
        }
        assert(views_of(output@) =~= Seq::new(
            source.len(),
            |i: int| O::decoded(source[i])->Ok_0,
        ));
    }
    Ok(output)
}

/// The first failure of a group is the fault that the group is refused with.
proof fn lemma_first_failure_is_unique<T, O: FromFeature<T>>(input: Seq<T>, at: int)
    requires
        is_first_failure::<T, O>(input, at),
    ensures
        decoded_all::<T, O>(input) == Err::<Seq<O::V>, _>(O::decoded(input[at])->Err_0),
{
    let other = choose|other: int| is_first_failure::<T, O>(input, other);
    assert(is_first_failure::<T, O>(input, other));
    if other < at {
        assert(O::decoded(input[other]) is Ok);
    } else if at < other {
        assert(O::decoded(input[at]) is Ok);
    }
}

/// The reference point of a document: the record of the first feature of its
/// group. The features after the first are not read; a group without a
/// feature is a fault.
pub open spec fn reference_point_of(
    features: Seq<Point<layers::AerodromeReferencePoint>>,
) -> Result<AerodromeReferencePointView, DecodeError> {
    if features.len() == 0 {
        Err(DecodeError::MissingReferencePoint)
    } else {
        AerodromeReferencePoint::decoded(features[0])
    }
}

/// The fault found so far: the earlier one if there is one, else that of
/// `next`, if it is one.
pub open spec fn or_failure<A>(earlier: Option<DecodeError>, next: Result<A, DecodeError>) -> Option<
    DecodeError,
> {
    match earlier {
        Some(e) => Some(e),
        None => match next {
            Ok(_) => None,
            Err(e) => Some(e),
        },
    }
}

/// The airport that a document stands for, or the first fault in it.
///
/// The reference point is decoded first, then the groups in the order in
/// which they are listed here, each in the order of its features.
pub open spec fn airport_of(data: AirportMapData) -> Result<AirportView, DecodeError> {
    let aerodrome_reference_point = reference_point_of(data.aerodrome_reference_point.features@);
    let apron_elements = decoded_all::<Polygon<layers::ApronElement>, ApronElement>(
        data.apron_element.features@,
    );
    let runway_elements = decoded_all::<Polygon<layers::RunwayElement>, RunwayElement>(
        data.runway_element.features@,
    );
    let painted_centerlines = decoded_all::<LineString<layers::PaintedCenterline>, PaintedCenterline>(
        data.painted_centerline.features@,
    );
    let parking_stand_areas = decoded_all::<Polygon<layers::ParkingStandArea>, ParkingStandArea>(
        data.parking_stand_area.features@,
    );
    let parking_stand_locations = decoded_all::<Point<layers::ParkingStandLocation>, ParkingStandLocation>(
        data.parking_stand_location.features@,
    );
    let runway_displaced_areas = decoded_all::<Polygon<layers::RunwayDisplacedArea>, RunwayDisplacedArea>(
        data.runway_displaced_area.features@,
    );
    let runway_exit_lines = decoded_all::<LineString<layers::RunwayExitLine>, RunwayExitLine>(
        data.runway_exit_line.features@,
    );
    let runway_markings = decoded_all::<Polygon<layers::RunwayMarking>, RunwayMarking>(
        data.runway_marking.features@,
    );
    let runway_shoulders = decoded_all::<Polygon<layers::RunwayShoulder>, RunwayShoulder>(
        data.runway_shoulder.features@,
    );
    let runway_thresholds = decoded_all::<Point<layers::RunwayThreshold>, RunwayThreshold>(
        data.runway_threshold.features@,
    );
    let stand_guidance_lines = decoded_all::<LineString<layers::StandGuidanceLine>, StandGuidanceLine>(
        data.stand_guidance_line.features@,
    );
    let taxiway_elements = decoded_all::<Polygon<layers::TaxiwayElement>, TaxiwayElement>(
        data.taxiway_element.features@,
    );
    let taxiway_guidance_lines = decoded_all::<LineString<layers::TaxiwayGuidanceLine>, TaxiwayGuidanceLine>(
        data.taxiway_guidance_line.features@,
    );
    let taxiway_holding_positions = decoded_all::<LineString<layers::TaxiwayHoldingPosition>, TaxiwayHoldingPosition>(
        data.taxiway_holding_position.features@,
    );
    let taxiway_shoulders = decoded_all::<Polygon<layers::TaxiwayShoulder>, TaxiwayShoulder>(
        data.taxiway_shoulder.features@,
    );
    let failure = or_failure(None, aerodrome_reference_point);
    let failure = or_failure(failure, apron_elements);
    let failure = or_failure(failure, runway_elements);
    let failure = or_failure(failure, painted_centerlines);
    let failure = or_failure(failure, parking_stand_areas);
    let failure = or_failure(failure, parking_stand_locations);
    let failure = or_failure(failure, runway_displaced_areas);
    let failure = or_failure(failure, runway_exit_lines);
    let failure = or_failure(failure, runway_markings);
    let failure = or_failure(failure, runway_shoulders);
    let failure = or_failure(failure, runway_thresholds);
    let failure = or_failure(failure, stand_guidance_lines);
    let failure = or_failure(failure, taxiway_elements);
    let failure = or_failure(failure, taxiway_guidance_lines);
    let failure = or_failure(failure, taxiway_holding_positions);
    let failure = or_failure(failure, taxiway_shoulders);
    match failure {
        Some(e) => Err(e),
        None => Ok(
            AirportView {
                aerodrome_reference_point: aerodrome_reference_point->Ok_0,
                apron_elements: apron_elements->Ok_0,
                painted_centerlines: painted_centerlines->Ok_0,
                parking_stand_areas: parking_stand_areas->Ok_0,
                parking_stand_locations: parking_stand_locations->Ok_0,
                runway_displaced_areas: runway_displaced_areas->Ok_0,
                runway_elements: runway_elements->Ok_0,
                runway_exit_lines: runway_exit_lines->Ok_0,
                runway_markings: runway_markings->Ok_0,
                runway_shoulders: runway_shoulders->Ok_0,
                runway_thresholds: runway_thresholds->Ok_0,
                stand_guidance_lines: stand_guidance_lines->Ok_0,
                taxiway_elements: taxiway_elements->Ok_0,
                taxiway_guidance_lines: taxiway_guidance_lines->Ok_0,
                taxiway_holding_positions: taxiway_holding_positions->Ok_0,
                taxiway_shoulders: taxiway_shoulders->Ok_0,
            },
        ),
    }
}

/// Decodes a document into the airport that it stands for.
///
/// The document is refused as a whole with the first fault found in it: a
/// group of reference points without a feature, an area without a ring, or a
/// runway identifier that is no compound identifier.
pub fn parse_airport(data: AirportMapData) -> (outcome: Result<Airport, DecodeError>)
    ensures
        outcome_view(outcome) == airport_of(data),
{
    let mut reference_points = data.aerodrome_reference_point.features;
    if reference_points.len() == 0 {
        return Err(DecodeError::MissingReferencePoint);
    }
    let aerodrome_reference_point = AerodromeReferencePoint::from_feature(
        reference_points.remove(0),
    )?;
    let apron_elements: Vec<ApronElement> = map_vec(data.apron_element.features)?;
    let runway_elements: Vec<RunwayElement> = map_vec(data.runway_element.features)?;
    let painted_centerlines: Vec<PaintedCenterline> = map_vec(data.painted_centerline.features)?;
    let parking_stand_areas: Vec<ParkingStandArea> = map_vec(data.parking_stand_area.features)?;
    let parking_stand_locations: Vec<ParkingStandLocation> = map_vec(data.parking_stand_location.features)?;
    let runway_displaced_areas: Vec<RunwayDisplacedArea> = map_vec(data.runway_displaced_area.features)?;
    let runway_exit_lines: Vec<RunwayExitLine> = map_vec(data.runway_exit_line.features)?;
    let runway_markings: Vec<RunwayMarking> = map_vec(data.runway_marking.features)?;
    let runway_shoulders: Vec<RunwayShoulder> = map_vec(data.runway_shoulder.features)?;
    let runway_thresholds: Vec<RunwayThreshold> = map_vec(data.runway_threshold.features)?;
    let stand_guidance_lines: Vec<StandGuidanceLine> = map_vec(data.stand_guidance_line.features)?;
    let taxiway_elements: Vec<TaxiwayElement> = map_vec(data.taxiway_element.features)?;
    let taxiway_guidance_lines: Vec<TaxiwayGuidanceLine> = map_vec(data.taxiway_guidance_line.features)?;
    let taxiway_holding_positions: Vec<TaxiwayHoldingPosition> = map_vec(data.taxiway_holding_position.features)?;
    let taxiway_shoulders: Vec<TaxiwayShoulder> = map_vec(data.taxiway_shoulder.features)?;
    Ok(
        Airport {
            aerodrome_reference_point,
            apron_elements,
            painted_centerlines,
            parking_stand_areas,
            parking_stand_locations,
            runway_displaced_areas,
            runway_elements,
            runway_exit_lines,
            runway_markings,
            runway_shoulders,
            runway_thresholds,
            stand_guidance_lines,
            taxiway_elements,
            taxiway_guidance_lines,
            taxiway_holding_positions,
            taxiway_shoulders,
        },
    )
}

/// Decoding is a function of the document: two decodings of one document
/// give the same airport, or the same fault.
pub proof fn lemma_parse_is_deterministic(
    data: AirportMapData,
    first: Result<Airport, DecodeError>,
    second: Result<Airport, DecodeError>,
)
    requires
        outcome_view(first) == airport_of(data),
        outcome_view(second) == airport_of(data),
    ensures
        outcome_view(first) == outcome_view(second),
{
}

/// The records of every group of an airport stand in the order of the
/// features of that group in the document.
pub proof fn lemma_airport_keeps_order(data: AirportMapData)
    ensures
        airport_of(data) matches Ok(airport) ==> {
            &&& in_order::<Polygon<layers::ApronElement>, ApronElement>(
                data.apron_element.features@,
                airport.apron_elements,
            )
            &&& in_order::<Polygon<layers::RunwayElement>, RunwayElement>(
                data.runway_element.features@,
                airport.runway_elements,
            )
            &&& in_order::<LineString<layers::PaintedCenterline>, PaintedCenterline>(
                data.painted_centerline.features@,
                airport.painted_centerlines,
            )
            &&& in_order::<Polygon<layers::ParkingStandArea>, ParkingStandArea>(
                data.parking_stand_area.features@,
                airport.parking_stand_areas,
            )
            &&& in_order::<Point<layers::ParkingStandLocation>, ParkingStandLocation>(
                data.parking_stand_location.features@,
                airport.parking_stand_locations,
            )
            &&& in_order::<Polygon<layers::RunwayDisplacedArea>, RunwayDisplacedArea>(
                data.runway_displaced_area.features@,
                airport.runway_displaced_areas,
            )
            &&& in_order::<LineString<layers::RunwayExitLine>, RunwayExitLine>(
                data.runway_exit_line.features@,
                airport.runway_exit_lines,
            )
            &&& in_order::<Polygon<layers::RunwayMarking>, RunwayMarking>(
                data.runway_marking.features@,
                airport.runway_markings,
            )
            &&& in_order::<Polygon<layers::RunwayShoulder>, RunwayShoulder>(
                data.runway_shoulder.features@,
                airport.runway_shoulders,
            )
            &&& in_order::<Point<layers::RunwayThreshold>, RunwayThreshold>(
                data.runway_threshold.features@,
                airport.runway_thresholds,
            )
            &&& in_order::<LineString<layers::StandGuidanceLine>, StandGuidanceLine>(
                data.stand_guidance_line.features@,
                airport.stand_guidance_lines,
            )
            &&& in_order::<Polygon<layers::TaxiwayElement>, TaxiwayElement>(
                data.taxiway_element.features@,
                airport.taxiway_elements,
            )
            &&& in_order::<LineString<layers::TaxiwayGuidanceLine>, TaxiwayGuidanceLine>(
                data.taxiway_guidance_line.features@,
                airport.taxiway_guidance_lines,
            )
            &&& in_order::<LineString<layers::TaxiwayHoldingPosition>, TaxiwayHoldingPosition>(
                data.taxiway_holding_position.features@,
                airport.taxiway_holding_positions,
            )
            &&& in_order::<Polygon<layers::TaxiwayShoulder>, TaxiwayShoulder>(
                data.taxiway_shoulder.features@,
                airport.taxiway_shoulders,
            )
        },
{
    lemma_decoded_all_keeps_order::<Polygon<layers::ApronElement>, ApronElement>(data.apron_element.features@);
    lemma_decoded_all_keeps_order::<Polygon<layers::RunwayElement>, RunwayElement>(data.runway_element.features@);
    lemma_decoded_all_keeps_order::<LineString<layers::PaintedCenterline>, PaintedCenterline>(data.painted_centerline.features@);
    lemma_decoded_all_keeps_order::<Polygon<layers::ParkingStandArea>, ParkingStandArea>(data.parking_stand_area.features@);
    lemma_decoded_all_keeps_order::<Point<layers::ParkingStandLocation>, ParkingStandLocation>(data.parking_stand_location.features@);
    lemma_decoded_all_keeps_order::<Polygon<layers::RunwayDisplacedArea>, RunwayDisplacedArea>(data.runway_displaced_area.features@);
    lemma_decoded_all_keeps_order::<LineString<layers::RunwayExitLine>, RunwayExitLine>(data.runway_exit_line.features@);
    lemma_decoded_all_keeps_order::<Polygon<layers::RunwayMarking>, RunwayMarking>(data.runway_marking.features@);
    lemma_decoded_all_keeps_order::<Polygon<layers::RunwayShoulder>, RunwayShoulder>(data.runway_shoulder.features@);
    lemma_decoded_all_keeps_order::<Point<layers::RunwayThreshold>, RunwayThreshold>(data.runway_threshold.features@);
    lemma_decoded_all_keeps_order::<LineString<layers::StandGuidanceLine>, StandGuidanceLine>(data.stand_guidance_line.features@);
    lemma_decoded_all_keeps_order::<Polygon<layers::TaxiwayElement>, TaxiwayElement>(data.taxiway_element.features@);
    lemma_decoded_all_keeps_order::<LineString<layers::TaxiwayGuidanceLine>, TaxiwayGuidanceLine>(data.taxiway_guidance_line.features@);
    lemma_decoded_all_keeps_order::<LineString<layers::TaxiwayHoldingPosition>, TaxiwayHoldingPosition>(data.taxiway_holding_position.features@);
    lemma_decoded_all_keeps_order::<Polygon<layers::TaxiwayShoulder>, TaxiwayShoulder>(data.taxiway_shoulder.features@);
}

/// An airport has the reference point of the first feature of the group, and
/// a document without one stands for no airport.
pub proof fn lemma_airport_needs_reference_point(data: AirportMapData)
    ensures
        data.aerodrome_reference_point.features@.len() == 0 ==> airport_of(data) == Err::<
            AirportView,
            _,
        >(DecodeError::MissingReferencePoint),
        airport_of(data) matches Ok(airport) ==> AerodromeReferencePoint::decoded(
            data.aerodrome_reference_point.features@[0],
        ) == Ok::<_, DecodeError>(airport.aerodrome_reference_point),
{
}

} // verus!
