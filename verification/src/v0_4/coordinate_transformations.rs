//! "coordinateTransformations" metadata: the per-level scale/translation
//! chains of this schema era.

use vstd::prelude::*;

use crate::floats::Float64;
use crate::ndim::MaybeNDim;

verus! {

/// A single coordinate transformation of this era: identity, translation
/// or scale.
#[derive(Debug, Clone)]
pub enum CoordinateTransform {
    /// The identity transformation.
    Identity,
    /// A translation vector.
    Translation(CoordinateTransformTranslation),
    /// A scale vector.
    Scale(CoordinateTransformScale),
}

/// A translation, either explicit or stored at a path in the container.
#[derive(Debug, Clone)]
pub enum CoordinateTransformTranslation {
    /// An explicit vector of offsets.
    List {
        /// The offsets.
        translation: Vec<Float64>,
    },
    /// A path to binary data at a location in this container.
    Path {
        /// The path.
        path: String,
    },
}

/// A scale, either explicit or stored at a path in the container.
#[derive(Debug, Clone)]
pub enum CoordinateTransformScale {
    /// An explicit vector of factors.
    List {
        /// The factors.
        scale: Vec<Float64>,
    },
    /// A path to binary data at a location in this container.
    Path {
        /// The path.
        path: String,
    },
}

impl MaybeNDim for CoordinateTransformTranslation {
    open spec fn spec_ndim(&self) -> Option<usize> {
        match self {
            CoordinateTransformTranslation::List { translation } => Some(
                translation@.len() as usize,
            ),
            CoordinateTransformTranslation::Path { .. } => None,
        }
    }

    fn maybe_ndim(&self) -> (r: Option<usize>) {
        match self {
            CoordinateTransformTranslation::List { translation } => Some(translation.len()),
            CoordinateTransformTranslation::Path { .. } => None,
        }
    }
}

impl MaybeNDim for CoordinateTransformScale {
    open spec fn spec_ndim(&self) -> Option<usize> {
        match self {
            CoordinateTransformScale::List { scale } => Some(scale@.len() as usize),
            CoordinateTransformScale::Path { .. } => None,
        }
    }

    fn maybe_ndim(&self) -> (r: Option<usize>) {
        match self {
            CoordinateTransformScale::List { scale } => Some(scale.len()),
            CoordinateTransformScale::Path { .. } => None,
        }
    }
}

impl MaybeNDim for CoordinateTransform {
    open spec fn spec_ndim(&self) -> Option<usize> {
        match self {
            CoordinateTransform::Identity => None,
            CoordinateTransform::Translation(t) => t.spec_ndim(),
            CoordinateTransform::Scale(s) => s.spec_ndim(),
        }
    }

    fn maybe_ndim(&self) -> (r: Option<usize>) {
        match self {
            CoordinateTransform::Identity => None,
            CoordinateTransform::Translation(t) => t.maybe_ndim(),
            CoordinateTransform::Scale(s) => s.maybe_ndim(),
        }
    }
}

} // verus!
