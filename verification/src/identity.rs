//! The identity of a record.

use core::hash::{Hash, Hasher};
use vstd::prelude::*;

verus! {

/// A record of the airport model, known by the identity that the document
/// gives it.
pub trait AmdbElement {
    /// The identity of the record.
    spec fn identity(&self) -> u64;

    /// The identity of the record.
    fn id(&self) -> (id: u64)
        ensures
            id == self.identity(),
    ;
}

/// Feeds an identity to a hasher, by `Hash::hash` of std on `u64`. Nothing is
/// claimed of the hasher's state.
#[verifier::external_body]
pub(crate) fn hash_identity<H: Hasher>(id: u64, state: &mut H) {
    id.hash(state)
}

} // verus!
