//! "axes" metadata of this era: each axis type is its own variant with
//! its own fields.

use vstd::prelude::*;

pub use crate::v0_4::axes::{AxisUnit, AxisUnitSpace, AxisUnitTime};

verus! {

/// One dimension (axis) of a physical coordinate space, tagged by type.
#[derive(Debug, Clone)]
pub enum Axis {
    /// A `space` axis.
    Space(AxisSpace),
    /// A `time` axis.
    Time(AxisTime),
    /// A `channel` axis.
    Channel(AxisChannel),
    /// A custom axis.
    Custom(AxisCustom),
}

impl Axis {
    /// The name of the axis, whatever its type.
    pub open spec fn spec_name(&self) -> Seq<char> {
        match self {
            Axis::Space(a) => a.name@,
            Axis::Time(a) => a.name@,
            Axis::Channel(a) => a.name@,
            Axis::Custom(a) => a.name@,
        }
    }

    /// The name of the axis, whatever its type.
    pub fn name(&self) -> (r: &str)
        ensures
            r@ == self.spec_name(),
    {
        match self {
            Axis::Space(a) => a.name.as_str(),
            Axis::Time(a) => a.name.as_str(),
            Axis::Channel(a) => a.name.as_str(),
            Axis::Custom(a) => a.name.as_str(),
        }
    }
}

/// A `space` axis.
#[derive(Debug, Clone)]
pub struct AxisSpace {
    /// The name for this dimension.
    pub name: String,
    /// The optional physical unit of this dimension.
    pub unit: Option<AxisUnitSpace>,
    /// The anatomical orientation of the dimension (optional).
    pub orientation: Option<Orientation>,
}

/// A `time` axis.
#[derive(Debug, Clone)]
pub struct AxisTime {
    /// The name for this dimension.
    pub name: String,
    /// The optional physical unit of this dimension.
    pub unit: Option<AxisUnitTime>,
}

/// A `channel` axis.
#[derive(Debug, Clone)]
pub struct AxisChannel {
    /// The name for this dimension.
    pub name: String,
}

/// A custom axis.
#[derive(Debug, Clone)]
pub struct AxisCustom {
    /// The name for this dimension.
    pub name: String,
    /// The optional physical unit of this dimension.
    pub unit: Option<String>,
}

/// Orientation information for a space axis.
#[derive(Debug, Clone, Copy)]
pub enum Orientation {
    /// An anatomical orientation.
    Anatomical(AnatomicalOrientation),
}

/// An anatomical orientation of a space axis.
#[allow(missing_docs)]
#[derive(Debug, Clone, Copy, PartialEq, Eq, Structural)]
pub enum AnatomicalOrientation {
    LeftToRight,
    RightToLeft,
    AnteriorToPosterior,
    PosteriorToAnterior,
    InferiorToSuperior,
    SuperiorToInferior,
    DorsalToVentral,
    VentralToDorsal,
    DorsalToPalmar,
    PalmarToDorsal,
    DorsalToPlantar,
    PlantarToDorsal,
    RostralToCaudal,
    CaudalToRostral,
    CranialToCaudal,
    CaudalToCranial,
    ProximalToDistal,
    DistalToProximal,
}

} // verus!
