//! Numbers that the library carries and never computes with.

use vstd::prelude::*;

verus! {

/// A binary64 number of IEEE 754, held by its bit pattern.
///
/// Two such numbers are equal when their bit patterns are: no tolerance is
/// applied, a zero is told apart from its negative, and a NaN equals itself.
#[derive(Debug, Clone, Copy, PartialEq, Eq, Hash, Structural)]
pub struct Double {
    pub bits: u64,
}

} // verus!
