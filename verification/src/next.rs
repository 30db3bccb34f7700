//! Draft metadata for a future schema era.
//!
//! Holds the composable coordinate-transformation algebra: a closed set of
//! transformation kinds, each answering dimensionality, invertibility and
//! coordinate-system queries, possibly with "unknown".

pub mod coordinate_systems;
pub mod coordinate_transformations;
pub mod multiscales;
