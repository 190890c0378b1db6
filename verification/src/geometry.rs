//! The shapes of the airport model.
//!
//! Shapes are compared point by point, and points by the bit patterns of
//! their numbers.

use crate::number::Double;
use vstd::prelude::*;
use vstd::std_specs::cmp::PartialEqSpecImpl;

verus! {

/// A point of the plane. For a geographic point `x` is the longitude and `y`
/// the latitude.
#[derive(Debug, PartialEq, Eq, Hash, Copy, Clone, Structural)]
pub struct Coord {
    pub x: Double,
    pub y: Double,
}

/// A path: points in the order in which they are passed.
#[derive(Debug, Eq, Hash, Clone)]
pub struct LineString(pub Vec<Coord>);

impl View for LineString {
    type V = Seq<Coord>;

    open spec fn view(&self) -> Seq<Coord> {
        self.0@
    }
}

impl PartialEq for LineString {
    fn eq(&self, other: &Self) -> (equal: bool) {
        if self.0.len() != other.0.len() {
            return false;
        }
        let mut index: usize = 0;
        while index < self.0.len()
            invariant
                index <= self.0.len(),
                self.0.len() == other.0.len(),
                forall|i: int| 0 <= i < index ==> self.0@[i] == other.0@[i],
            decreases self.0.len() - index,
        {
            if self.0[index] != other.0[index] {
                return false;
            }
            index = index + 1;
        }
        assert(self@ =~= other@);
        true
    }
}

impl PartialEqSpecImpl for LineString {
    open spec fn obeys_eq_spec() -> bool {
        true
    }

    open spec fn eq_spec(&self, other: &Self) -> bool {
        self@ == other@
    }
}

/// An area: the ring that bounds it, and the rings of its holes.
#[derive(Debug, Eq, Hash, Clone)]
pub struct Polygon {
    pub exterior: LineString,
    pub interiors: Vec<LineString>,
}

/// The mathematical value of a [`Polygon`].
pub struct PolygonView {
    pub exterior: Seq<Coord>,
    pub interiors: Seq<Seq<Coord>>,
}

impl View for Polygon {
    type V = PolygonView;

    open spec fn view(&self) -> PolygonView {
        PolygonView {
            exterior: self.exterior@,
            interiors: Seq::new(self.interiors@.len(), |i: int| self.interiors@[i]@),
        }
    }
}

impl PartialEq for Polygon {
    fn eq(&self, other: &Self) -> (equal: bool) {
        if !(self.exterior == other.exterior) {
            return false;
        }
        if self.interiors.len() != other.interiors.len() {
            assert(self@.interiors.len() != other@.interiors.len());
            return false;
        }
        let mut index: usize = 0;
        while index < self.interiors.len()
            invariant
                index <= self.interiors.len(),
                self.interiors.len() == other.interiors.len(),
                self.exterior@ == other.exterior@,
                forall|i: int| 0 <= i < index ==> self.interiors@[i]@ == other.interiors@[i]@,
            decreases self.interiors.len() - index,
        {
            if !(self.interiors[index] == other.interiors[index]) {
                assert(self@.interiors[index as int] != other@.interiors[index as int]);
                return false;
            }
            index = index + 1;
        }
        assert(self@.interiors =~= other@.interiors);
        true
    }
}

impl PartialEqSpecImpl for Polygon {
    open spec fn obeys_eq_spec() -> bool {
        true
    }

    open spec fn eq_spec(&self, other: &Self) -> bool {
        self@ == other@
    }
}

} // verus!
