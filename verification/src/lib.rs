//! Validation of OME-Zarr metadata documents.
//!
//! The crate models a decoded metadata document as a tree of plain values,
//! resolves which schema version the document conforms to, decodes it into
//! typed metadata structures, and checks the internal consistency rules of
//! each version: axis ordering, coordinate-transformation chains, plate/well
//! grid topology, and cross-field dimensionality agreement.
//!
//! Every rule violation is collected as a path-tagged failure; validation
//! never stops at the first problem.

pub mod any;
pub mod errors;
pub mod floats;
pub mod json;
pub mod ndim;
pub mod next;
pub mod text;
pub mod validation;
pub mod version;

pub mod v0_4;
pub mod v0_5;
pub mod v0_6;

pub use any::AnyOme;
pub use errors::{DecodeError, Error};
pub use ndim::MaybeNDim;
pub use validation::Validate;
