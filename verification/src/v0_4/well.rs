//! "well" metadata: the fields of view under one well.

use vstd::prelude::*;

verus! {

/// All fields of view under a given well.
#[derive(Debug)]
pub struct Well {
    /// The fields of view of the well.
    pub images: Vec<WellImage>,
}

/// One field of view of a well.
#[derive(Debug, Clone)]
pub struct WellImage {
    /// The path to the field of view: alphanumeric, case-sensitive,
    /// unique within the images list.
    pub path: String,
    /// The acquisition this field of view belongs to (optional).
    pub acquisition: Option<u64>,
}

} // verus!
