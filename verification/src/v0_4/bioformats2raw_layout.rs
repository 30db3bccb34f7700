//! Transitional "bioformats2raw.layout" metadata.

use vstd::prelude::*;

verus! {

/// Top-level group metadata written by the bioformats2raw converter. The
/// layout marker itself is fixed to 3 and checked when decoding.
#[derive(Debug, Clone)]
pub struct Bioformats2Raw {
    /// Paths to image groups.
    pub series: Option<Vec<String>>,
}

} // verus!
