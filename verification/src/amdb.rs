//! The document as it is read: feature collections, and the property record
//! of each feature group.

pub mod geo_json;
pub mod layers;
