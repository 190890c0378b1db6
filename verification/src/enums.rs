//! The categories of the schema, and their decoding from the indices of a
//! document.
//!
//! A document gives a category as an index into the list of names that the
//! schema fixes for the field. An index without a name is kept as it is, in the
//! `Unknown` variant, so that documents of a later schema still decode.

use vstd::prelude::*;

verus! {

/// A category of the schema: a fixed list of named variants, and one more
/// variant that keeps an index without a name.
pub trait Categorical: Sized + Copy {
    /// The named variants, in the order of the schema.
    spec fn variants() -> Seq<Self>;

    /// The value that keeps an index without a name.
    spec fn unknown(index: i32) -> Self;

    /// The named variant at `position`, if the schema names one there.
    fn named(position: usize) -> (variant: Option<Self>)
        ensures
            variant == if position < Self::variants().len() {
                Some(Self::variants()[position as int])
            } else {
                None
            },
    ;

    /// The value that keeps `index`.
    fn unnamed(index: i32) -> (value: Self)
        ensures
            value == Self::unknown(index),
    ;
}

/// The category that `index` stands for: the variant at that position of the
/// schema's list, or the unknown value that keeps the index.
pub open spec fn decoded<C: Categorical>(index: i32) -> C {
    if 0 <= index < C::variants().len() {
        C::variants()[index as int]
    } else {
        C::unknown(index)
    }
}

/// Decodes a category from its index. Every index decodes.
pub fn decode<C: Categorical>(index: i32) -> (value: C)
    ensures
        value == decoded::<C>(index),
{
    if index < 0 {
        C::unnamed(index)
    } else {
        match C::named(index as usize) {
            Some(variant) => variant,
            None => C::unnamed(index),
        }
    }
}

/// The material of a ground surface.
#[derive(Debug, PartialEq, Eq, Copy, Clone, Structural)]
pub enum GroundSurfaceType {
    Concrete,
    Asphalt,
    DesertOrSandOrDirt,
    BareEarth,
    SnowOrIce,
    Water,
    GrassOrTurf,
    GravelOrCinders,
    PiercedSteelPlanks,
    Bitumen,
    Brick,
    Macadam,
    Stone,
    Coral,
    Clay,
    Laterite,
    LandingMats,
    Membrane,
    Wood,
    Unknown(i32),
}

impl Categorical for GroundSurfaceType {
    open spec fn variants() -> Seq<Self> {
        seq![
            GroundSurfaceType::Concrete,
            GroundSurfaceType::Asphalt,
            GroundSurfaceType::DesertOrSandOrDirt,
            GroundSurfaceType::BareEarth,
            GroundSurfaceType::SnowOrIce,
            GroundSurfaceType::Water,
            GroundSurfaceType::GrassOrTurf,
            GroundSurfaceType::GravelOrCinders,
            GroundSurfaceType::PiercedSteelPlanks,
            GroundSurfaceType::Bitumen,
            GroundSurfaceType::Brick,
            GroundSurfaceType::Macadam,
            GroundSurfaceType::Stone,
            GroundSurfaceType::Coral,
            GroundSurfaceType::Clay,
            GroundSurfaceType::Laterite,
            GroundSurfaceType::LandingMats,
            GroundSurfaceType::Membrane,
            GroundSurfaceType::Wood,
        ]
    }

    open spec fn unknown(index: i32) -> Self {
        GroundSurfaceType::Unknown(index)
    }

    fn named(position: usize) -> (variant: Option<Self>) {
        match position {
            0 => Some(GroundSurfaceType::Concrete),
            1 => Some(GroundSurfaceType::Asphalt),
            2 => Some(GroundSurfaceType::DesertOrSandOrDirt),
            3 => Some(GroundSurfaceType::BareEarth),
            4 => Some(GroundSurfaceType::SnowOrIce),
            5 => Some(GroundSurfaceType::Water),
            6 => Some(GroundSurfaceType::GrassOrTurf),
            7 => Some(GroundSurfaceType::GravelOrCinders),
            8 => Some(GroundSurfaceType::PiercedSteelPlanks),
            9 => Some(GroundSurfaceType::Bitumen),
            10 => Some(GroundSurfaceType::Brick),
            11 => Some(GroundSurfaceType::Macadam),
            12 => Some(GroundSurfaceType::Stone),
            13 => Some(GroundSurfaceType::Coral),
            14 => Some(GroundSurfaceType::Clay),
            15 => Some(GroundSurfaceType::Laterite),
            16 => Some(GroundSurfaceType::LandingMats),
            17 => Some(GroundSurfaceType::Membrane),
            18 => Some(GroundSurfaceType::Wood),
            _ => None,
        }
    }

    fn unnamed(index: i32) -> (value: Self) {
        GroundSurfaceType::Unknown(index)
    }
}

/// The material and finish of a paved surface.
#[derive(Debug, PartialEq, Eq, Copy, Clone, Structural)]
pub enum SurfaceType {
    ConcreteGrooved,
    ConcreteNoneGrooved,
    AsphaltGrooved,
    AsphaltNonGrooved,
    DesertOrSandOrDirt,
    BareEarth,
    SnowOrIce,
    Water,
    GrassOrTurf,
    AggregateFrictionSealCoat,
    GravelOrCinders,
    PorousFrictionCourses,
    PiercedSteelPlanks,
    RubberizedFrictionSealCoat,
    Bitumen,
    Brick,
    Macadam,
    Stone,
    Coral,
    Clay,
    Laterite,
    LandingMats,
    Membrane,
    Wood,
    Unknown(i32),
}

impl Categorical for SurfaceType {
    open spec fn variants() -> Seq<Self> {
        seq![
            SurfaceType::ConcreteGrooved,
            SurfaceType::ConcreteNoneGrooved,
            SurfaceType::AsphaltGrooved,
            SurfaceType::AsphaltNonGrooved,
            SurfaceType::DesertOrSandOrDirt,
            SurfaceType::BareEarth,
            SurfaceType::SnowOrIce,
            SurfaceType::Water,
            SurfaceType::GrassOrTurf,
            SurfaceType::AggregateFrictionSealCoat,
            SurfaceType::GravelOrCinders,
            SurfaceType::PorousFrictionCourses,
            SurfaceType::PiercedSteelPlanks,
            SurfaceType::RubberizedFrictionSealCoat,
            SurfaceType::Bitumen,
            SurfaceType::Brick,
            SurfaceType::Macadam,
            SurfaceType::Stone,
            SurfaceType::Coral,
            SurfaceType::Clay,
            SurfaceType::Laterite,
            SurfaceType::LandingMats,
            SurfaceType::Membrane,
            SurfaceType::Wood,
        ]
    }

    open spec fn unknown(index: i32) -> Self {
        SurfaceType::Unknown(index)
    }

    fn named(position: usize) -> (variant: Option<Self>) {
        match position {
            0 => Some(SurfaceType::ConcreteGrooved),
            1 => Some(SurfaceType::ConcreteNoneGrooved),
            2 => Some(SurfaceType::AsphaltGrooved),
            3 => Some(SurfaceType::AsphaltNonGrooved),
            4 => Some(SurfaceType::DesertOrSandOrDirt),
            5 => Some(SurfaceType::BareEarth),
            6 => Some(SurfaceType::SnowOrIce),
            7 => Some(SurfaceType::Water),
            8 => Some(SurfaceType::GrassOrTurf),
            9 => Some(SurfaceType::AggregateFrictionSealCoat),
            10 => Some(SurfaceType::GravelOrCinders),
            11 => Some(SurfaceType::PorousFrictionCourses),
            12 => Some(SurfaceType::PiercedSteelPlanks),
            13 => Some(SurfaceType::RubberizedFrictionSealCoat),
            14 => Some(SurfaceType::Bitumen),
            15 => Some(SurfaceType::Brick),
            16 => Some(SurfaceType::Macadam),
            17 => Some(SurfaceType::Stone),
            18 => Some(SurfaceType::Coral),
            19 => Some(SurfaceType::Clay),
            20 => Some(SurfaceType::Laterite),
            21 => Some(SurfaceType::LandingMats),
            22 => Some(SurfaceType::Membrane),
            23 => Some(SurfaceType::Wood),
            _ => None,
        }
    }

    fn unnamed(index: i32) -> (value: Self) {
        SurfaceType::Unknown(index)
    }
}

/// Whether a feature is open to traffic.
#[derive(Debug, PartialEq, Eq, Copy, Clone, Structural)]
pub enum Status {
    Closed,
    Open,
    Unknown(i32),
}

impl Categorical for Status {
    open spec fn variants() -> Seq<Self> {
        seq![
            Status::Closed,
            Status::Open,
        ]
    }

    open spec fn unknown(index: i32) -> Self {
        Status::Unknown(index)
    }

    fn named(position: usize) -> (variant: Option<Self>) {
        match position {
            0 => Some(Status::Closed),
            1 => Some(Status::Open),
            _ => None,
        }
    }

    fn unnamed(index: i32) -> (value: Self) {
        Status::Unknown(index)
    }
}

/// Whether a service is offered at a stand.
#[derive(Debug, PartialEq, Eq, Copy, Clone, Structural)]
pub enum Availability {
    Unavailable,
    Available,
    Unknown(i32),
}

impl Categorical for Availability {
    open spec fn variants() -> Seq<Self> {
        seq![
            Availability::Unavailable,
            Availability::Available,
        ]
    }

    open spec fn unknown(index: i32) -> Self {
        Availability::Unknown(index)
    }

    fn named(position: usize) -> (variant: Option<Self>) {
        match position {
            0 => Some(Availability::Unavailable),
            1 => Some(Availability::Available),
            _ => None,
        }
    }

    fn unnamed(index: i32) -> (value: Self) {
        Availability::Unknown(index)
    }
}

/// The precision-approach category of a runway end.
#[derive(Debug, PartialEq, Eq, Copy, Clone, Structural)]
pub enum LandingCategory {
    Npa,
    Cat1,
    Cat2,
    Cat3A,
    Cat3B,
    Cat3C,
    Unknown(i32),
}

impl Categorical for LandingCategory {
    open spec fn variants() -> Seq<Self> {
        seq![
            LandingCategory::Npa,
            LandingCategory::Cat1,
            LandingCategory::Cat2,
            LandingCategory::Cat3A,
            LandingCategory::Cat3B,
            LandingCategory::Cat3C,
        ]
    }

    open spec fn unknown(index: i32) -> Self {
        LandingCategory::Unknown(index)
    }

    fn named(position: usize) -> (variant: Option<Self>) {
        match position {
            0 => Some(LandingCategory::Npa),
            1 => Some(LandingCategory::Cat1),
            2 => Some(LandingCategory::Cat2),
            3 => Some(LandingCategory::Cat3A),
            4 => Some(LandingCategory::Cat3B),
            5 => Some(LandingCategory::Cat3C),
            _ => None,
        }
    }

    fn unnamed(index: i32) -> (value: Self) {
        LandingCategory::Unknown(index)
    }
}

/// The low-visibility category of a holding position.
#[derive(Debug, PartialEq, Eq, Copy, Clone, Structural)]
pub enum CatStop {
    NoCategory,
    Cat1,
    Cat2Or3,
    Unknown(i32),
}

impl Categorical for CatStop {
    open spec fn variants() -> Seq<Self> {
        seq![
            CatStop::NoCategory,
            CatStop::Cat1,
            CatStop::Cat2Or3,
        ]
    }

    open spec fn unknown(index: i32) -> Self {
        CatStop::Unknown(index)
    }

    fn named(position: usize) -> (variant: Option<Self>) {
        match position {
            0 => Some(CatStop::NoCategory),
            1 => Some(CatStop::Cat1),
            2 => Some(CatStop::Cat2Or3),
            _ => None,
        }
    }

    fn unnamed(index: i32) -> (value: Self) {
        CatStop::Unknown(index)
    }
}

/// Whether a threshold is displaced.
#[derive(Debug, PartialEq, Eq, Copy, Clone, Structural)]
pub enum ThresholdType {
    Threshold,
    DisplacedThreshold,
    Unknown(i32),
}

impl Categorical for ThresholdType {
    open spec fn variants() -> Seq<Self> {
        seq![
            ThresholdType::Threshold,
            ThresholdType::DisplacedThreshold,
        ]
    }

    open spec fn unknown(index: i32) -> Self {
        ThresholdType::Unknown(index)
    }

    fn named(position: usize) -> (variant: Option<Self>) {
        match position {
            0 => Some(ThresholdType::Threshold),
            1 => Some(ThresholdType::DisplacedThreshold),
            _ => None,
        }
    }

    fn unnamed(index: i32) -> (value: Self) {
        ThresholdType::Unknown(index)
    }
}

/// The visual approach slope indicator of a runway end.
#[derive(Debug, PartialEq, Eq, Copy, Clone, Structural)]
pub enum PapiVasi {
    NoIndicator,
    Papi,
    Apapi,
    Vasis,
    Avasis,
    Unknown(i32),
}

impl Categorical for PapiVasi {
    open spec fn variants() -> Seq<Self> {
        seq![
            PapiVasi::NoIndicator,
            PapiVasi::Papi,
            PapiVasi::Apapi,
            PapiVasi::Vasis,
            PapiVasi::Avasis,
        ]
    }

    open spec fn unknown(index: i32) -> Self {
        PapiVasi::Unknown(index)
    }

    fn named(position: usize) -> (variant: Option<Self>) {
        match position {
            0 => Some(PapiVasi::NoIndicator),
            1 => Some(PapiVasi::Papi),
            2 => Some(PapiVasi::Apapi),
            3 => Some(PapiVasi::Vasis),
            4 => Some(PapiVasi::Avasis),
            _ => None,
        }
    }

    fn unnamed(index: i32) -> (value: Self) {
        PapiVasi::Unknown(index)
    }
}

/// The colour of a painted line.
#[derive(Debug, PartialEq, Eq, Copy, Clone, Structural)]
pub enum LineColour {
    Yellow,
    Orange,
    Blue,
    White,
    Unknown(i32),
}

impl Categorical for LineColour {
    open spec fn variants() -> Seq<Self> {
        seq![
            LineColour::Yellow,
            LineColour::Orange,
            LineColour::Blue,
            LineColour::White,
        ]
    }

    open spec fn unknown(index: i32) -> Self {
        LineColour::Unknown(index)
    }

    fn named(position: usize) -> (variant: Option<Self>) {
        match position {
            0 => Some(LineColour::Yellow),
            1 => Some(LineColour::Orange),
            2 => Some(LineColour::Blue),
            3 => Some(LineColour::White),
            _ => None,
        }
    }

    fn unnamed(index: i32) -> (value: Self) {
        LineColour::Unknown(index)
    }
}

/// The stroke of a painted line.
#[derive(Debug, PartialEq, Eq, Copy, Clone, Structural)]
pub enum Style {
    Solid,
    Dashed,
    Dotted,
    Unknown(i32),
}

impl Categorical for Style {
    open spec fn variants() -> Seq<Self> {
        seq![
            Style::Solid,
            Style::Dashed,
            Style::Dotted,
        ]
    }

    open spec fn unknown(index: i32) -> Self {
        Style::Unknown(index)
    }

    fn named(position: usize) -> (variant: Option<Self>) {
        match position {
            0 => Some(Style::Solid),
            1 => Some(Style::Dashed),
            2 => Some(Style::Dotted),
            _ => None,
        }
    }

    fn unnamed(index: i32) -> (value: Self) {
        Style::Unknown(index)
    }
}

/// The direction in which a line may be followed.
#[derive(Debug, PartialEq, Eq, Copy, Clone, Structural)]
pub enum Direction {
    Bidirectional,
    StartToEndpoint,
    EndToStartpoint,
    Unknown(i32),
}

impl Categorical for Direction {
    open spec fn variants() -> Seq<Self> {
        seq![
            Direction::Bidirectional,
            Direction::StartToEndpoint,
            Direction::EndToStartpoint,
        ]
    }

    open spec fn unknown(index: i32) -> Self {
        Direction::Unknown(index)
    }

    fn named(position: usize) -> (variant: Option<Self>) {
        match position {
            0 => Some(Direction::Bidirectional),
            1 => Some(Direction::StartToEndpoint),
            2 => Some(Direction::EndToStartpoint),
            _ => None,
        }
    }

    fn unnamed(index: i32) -> (value: Self) {
        Direction::Unknown(index)
    }
}

/// Whether a taxiway passes under or over another way.
#[derive(Debug, PartialEq, Eq, Copy, Clone, Structural)]
pub enum Bridge {
    NoBridge,
    Underpass,
    Overpass,
    Unknown(i32),
}

impl Categorical for Bridge {
    open spec fn variants() -> Seq<Self> {
        seq![
            Bridge::NoBridge,
            Bridge::Underpass,
            Bridge::Overpass,
        ]
    }

    open spec fn unknown(index: i32) -> Self {
        Bridge::Unknown(index)
    }

    fn named(position: usize) -> (variant: Option<Self>) {
        match position {
            0 => Some(Bridge::NoBridge),
            1 => Some(Bridge::Underpass),
            2 => Some(Bridge::Overpass),
            _ => None,
        }
    }

    fn unnamed(index: i32) -> (value: Self) {
        Bridge::Unknown(index)
    }
}

/// The kind of a vertical structure drawn as a line.
#[derive(Debug, PartialEq, Eq, Copy, Clone, Structural)]
pub enum LineStructureType {
    PowerLine,
    CableRailway,
    BushesOrTrees,
    Wall,
    Unknown(i32),
}

impl Categorical for LineStructureType {
    open spec fn variants() -> Seq<Self> {
        seq![
            LineStructureType::PowerLine,
            LineStructureType::CableRailway,
            LineStructureType::BushesOrTrees,
            LineStructureType::Wall,
        ]
    }

    open spec fn unknown(index: i32) -> Self {
        LineStructureType::Unknown(index)
    }

    fn named(position: usize) -> (variant: Option<Self>) {
        match position {
            0 => Some(LineStructureType::PowerLine),
            1 => Some(LineStructureType::CableRailway),
            2 => Some(LineStructureType::BushesOrTrees),
            3 => Some(LineStructureType::Wall),
            _ => None,
        }
    }

    fn unnamed(index: i32) -> (value: Self) {
        LineStructureType::Unknown(index)
    }
}

/// The kind of a vertical structure drawn as a point.
#[derive(Debug, PartialEq, Eq, Copy, Clone, Structural)]
pub enum PointStructureType {
    Smokestack,
    PowerlinePylon,
    Antenna,
    Windsock,
    Tree,
    Lightpole,
    LightStanchion,
    Unknown(i32),
}

impl Categorical for PointStructureType {
    open spec fn variants() -> Seq<Self> {
        seq![
            PointStructureType::Smokestack,
            PointStructureType::PowerlinePylon,
            PointStructureType::Antenna,
            PointStructureType::Windsock,
            PointStructureType::Tree,
            PointStructureType::Lightpole,
            PointStructureType::LightStanchion,
        ]
    }

    open spec fn unknown(index: i32) -> Self {
        PointStructureType::Unknown(index)
    }

    fn named(position: usize) -> (variant: Option<Self>) {
        match position {
            0 => Some(PointStructureType::Smokestack),
            1 => Some(PointStructureType::PowerlinePylon),
            2 => Some(PointStructureType::Antenna),
            3 => Some(PointStructureType::Windsock),
            4 => Some(PointStructureType::Tree),
            5 => Some(PointStructureType::Lightpole),
            6 => Some(PointStructureType::LightStanchion),
            _ => None,
        }
    }

    fn unnamed(index: i32) -> (value: Self) {
        PointStructureType::Unknown(index)
    }
}

/// The kind of a vertical structure drawn as an area.
#[derive(Debug, PartialEq, Eq, Copy, Clone, Structural)]
pub enum PolygonalStructureType {
    TerminalBuilding,
    Hangar,
    ControlTower,
    NonTerminalBuilding,
    Tank,
    Tree,
    Bush,
    Forest,
    EarthenWorks,
    Unknown(i32),
}

impl Categorical for PolygonalStructureType {
    open spec fn variants() -> Seq<Self> {
        seq![
            PolygonalStructureType::TerminalBuilding,
            PolygonalStructureType::Hangar,
            PolygonalStructureType::ControlTower,
            PolygonalStructureType::NonTerminalBuilding,
            PolygonalStructureType::Tank,
            PolygonalStructureType::Tree,
            PolygonalStructureType::Bush,
            PolygonalStructureType::Forest,
            PolygonalStructureType::EarthenWorks,
        ]
    }

    open spec fn unknown(index: i32) -> Self {
        PolygonalStructureType::Unknown(index)
    }

    fn named(position: usize) -> (variant: Option<Self>) {
        match position {
            0 => Some(PolygonalStructureType::TerminalBuilding),
            1 => Some(PolygonalStructureType::Hangar),
            2 => Some(PolygonalStructureType::ControlTower),
            3 => Some(PolygonalStructureType::NonTerminalBuilding),
            4 => Some(PolygonalStructureType::Tank),
            5 => Some(PolygonalStructureType::Tree),
            6 => Some(PolygonalStructureType::Bush),
            7 => Some(PolygonalStructureType::Forest),
            8 => Some(PolygonalStructureType::EarthenWorks),
            _ => None,
        }
    }

    fn unnamed(index: i32) -> (value: Self) {
        PolygonalStructureType::Unknown(index)
    }
}

/// The material of a vertical structure.
#[derive(Debug, PartialEq, Eq, Copy, Clone, Structural)]
pub enum Material {
    Concrete,
    Metal,
    StoneOrBrick,
    Composition,
    Rock,
    EarthenWorks,
    Wood,
    Unknown(i32),
}

impl Categorical for Material {
    open spec fn variants() -> Seq<Self> {
        seq![
            Material::Concrete,
            Material::Metal,
            Material::StoneOrBrick,
            Material::Composition,
            Material::Rock,
            Material::EarthenWorks,
            Material::Wood,
        ]
    }

    open spec fn unknown(index: i32) -> Self {
        Material::Unknown(index)
    }

    fn named(position: usize) -> (variant: Option<Self>) {
        match position {
            0 => Some(Material::Concrete),
            1 => Some(Material::Metal),
            2 => Some(Material::StoneOrBrick),
            3 => Some(Material::Composition),
            4 => Some(Material::Rock),
            5 => Some(Material::EarthenWorks),
            6 => Some(Material::Wood),
            _ => None,
        }
    }

    fn unnamed(index: i32) -> (value: Self) {
        Material::Unknown(index)
    }
}

/// Whether lighting or marking conforms to the standard.
#[derive(Debug, PartialEq, Eq, Copy, Clone, Structural)]
pub enum Conformance {
    NonConformant,
    Conformant,
    Unknown(i32),
}

impl Categorical for Conformance {
    open spec fn variants() -> Seq<Self> {
        seq![
            Conformance::NonConformant,
            Conformance::Conformant,
        ]
    }

    open spec fn unknown(index: i32) -> Self {
        Conformance::Unknown(index)
    }

    fn named(position: usize) -> (variant: Option<Self>) {
        match position {
            0 => Some(Conformance::NonConformant),
            1 => Some(Conformance::Conformant),
            _ => None,
        }
    }

    fn unnamed(index: i32) -> (value: Self) {
        Conformance::Unknown(index)
    }
}

} // verus!
