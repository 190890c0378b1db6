//! The reasons for which a document is refused.

use vstd::prelude::*;

verus! {

/// Why a text is not a compound identifier.
#[derive(Debug, Clone, Copy, PartialEq, Eq, Hash, Structural)]
pub enum FormatError {
    /// The text holds no separator.
    MissingSeparator,
    /// The text holds more than one separator.
    ExtraSeparator,
    /// The text holds one separator, with nothing before it or nothing after it.
    EmptyPart,
}

/// Why a document does not decode to an airport.
#[derive(Debug, Clone, Copy, PartialEq, Eq, Hash, Structural)]
pub enum DecodeError {
    /// A position holds fewer than two numbers.
    MalformedPosition,
    /// An area holds no ring, so it has no outer boundary.
    MissingOuterRing,
    /// A runway identifier is not a compound identifier.
    MalformedRunwayId(FormatError),
    /// The group of aerodrome reference points holds no feature.
    MissingReferencePoint,
}

} // verus!
