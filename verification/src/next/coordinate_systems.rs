//! Named coordinate systems and their axes.

use vstd::prelude::*;

use crate::v0_4::axes::AxisUnit;

verus! {

/// A named set of axes representing a known space.
#[derive(Debug, Clone)]
pub struct CoordinateSystem {
    /// Name of the coordinate system.
    pub name: String,
    /// Ordered axes of the coordinate system.
    pub axes: Vec<Axis>,
}

/// The type of an axis.
#[derive(Debug, Clone)]
pub enum AxisType {
    /// The `array` axis type.
    Array,
    /// The `space` axis type.
    Space,
    /// The `time` axis type.
    Time,
    /// The `channel` axis type.
    Channel,
    /// The `coordinate` axis type.
    Coordinate,
    /// The `displacement` axis type.
    Displacement,
    /// A custom axis type.
    Custom(String),
}

/// One dimension (axis) of a physical coordinate space.
#[derive(Debug, Clone)]
pub struct Axis {
    /// The name for this dimension.
    pub name: String,
    /// A longer, more descriptive name for the axis.
    pub long_name: Option<String>,
    /// Whether this axis is discrete (i.e. may not be interpolated).
    pub discrete: Option<bool>,
    /// The optional type of this dimension.
    pub axis_type: Option<AxisType>,
    /// The optional physical unit of this dimension.
    pub unit: Option<AxisUnit>,
}

} // verus!
