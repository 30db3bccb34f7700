//! Composable coordinate transformations.
//!
//! Each transformation kind answers `input_ndim`, `output_ndim`,
//! `invertible`, `input_system` and `output_system`, returning `None`
//! where the metadata leaves the answer open. Sequences, bijections and
//! inverses own their children exclusively, so the trees are acyclic by
//! construction.

use vstd::prelude::*;

use crate::floats::{Float64, f64_gt_zero, f64_is_infinite, f64_is_nan, f64_lt_zero};
use crate::text::{opt_str_view, opt_string_view, str_eq};
use crate::validation::{
    Accumulator, Key, Problem, Segment, SpecFailure, Validate, fail, fail_at,
    lemma_with_prefix_add, lemma_with_prefix_nested, with_prefix,
};

verus! {

/// Core metadata present in most coordinate transformations.
#[derive(Debug, Clone)]
pub struct Common {
    /// Optional name of the transform.
    pub name: Option<String>,
    /// Input coordinate system.
    pub input: Option<String>,
    /// Output coordinate system.
    pub output: Option<String>,
}

/// Transformation between input/output spaces.
#[derive(Debug)]
pub struct CoordinateTransformOuter {
    /// Optional name of the transform.
    pub name: Option<String>,
    /// Input coordinate system. Prefer accessing through [`TransformationType::input_system`].
    pub input: Option<String>,
    /// Output coordinate system. Prefer accessing through [`TransformationType::output_system`].
    pub output: Option<String>,
    /// Configuration specific to this transform type.
    pub config: CoordinateTransform,
}

/// A single coordinate transformation, one of a closed set of kinds.
#[derive(Debug)]
pub enum CoordinateTransform {
    /// The identity transformation.
    Identity(Identity),
    /// An axis permutation given as indices into the input axes.
    MapAxis(MapAxis),
    /// A translation vector.
    Translation(Translation),
    /// A scale vector.
    Scale(Scale),
    /// Affine transformation matrix.
    Affine(Affine),
    /// Rotation matrix.
    Rotation(Rotation),
    /// Sequence of other transformations.
    Sequence(Sequence),
    /// Displacement field.
    Displacements(Displacements),
    /// Coordinate field.
    Coordinates(Coordinates),
    /// Inverse of another transformation.
    InverseOf(InverseOf),
    /// Explicit forward/inverse pair.
    Bijection(Bijection),
    /// Built from lower-dimensional transformations on subsets of dimensions.
    ByDimension(ByDimension),
}

/// A no-op transformation.
#[derive(Debug, Clone, Copy)]
pub struct Identity;

/// Axis permutation: the value at position `i` names the input axis that
/// becomes the `i`-th output axis.
#[derive(Debug, Clone)]
pub struct MapAxis {
    /// The permutation vector.
    pub map_axis: Vec<usize>,
}

/// A translation, either explicit or stored at a path in the container.
#[derive(Debug, Clone)]
pub enum Translation {
    /// An explicit vector of offsets.
    Translation(Vec<Float64>),
    /// A path to binary data at a location in this container.
    Path(String),
}

/// A scale, either explicit or stored at a path in the container.
#[derive(Debug, Clone)]
pub enum Scale {
    /// An explicit vector of factors.
    Scale(Vec<Float64>),
    /// A path to binary data at a location in this container.
    Path(String),
}

/// Matrix transformation from N-dimensional inputs to M-dimensional outputs.
#[derive(Debug, Clone)]
pub enum Affine {
    /// Path to an array holding the matrix.
    Path(String),
    /// Length-M list of rows.
    Affine(Vec<Vec<Float64>>),
}

/// Rotation matrix; an unresolved extension point.
#[derive(Debug, Clone, Copy)]
pub struct Rotation;

/// A coordinate field which looks up locations in another array; an
/// unresolved extension point.
#[derive(Debug, Clone, Copy)]
pub struct Coordinates;

/// A displacement field; an unresolved extension point.
#[derive(Debug, Clone, Copy)]
pub struct Displacements;

/// Built from lower-dimensional transformations; an unresolved extension
/// point.
#[derive(Debug, Clone, Copy)]
pub struct ByDimension;

/// Sequence of other transformations, applied in order.
#[derive(Debug)]
pub struct Sequence {
    /// List of transformations to be applied.
    pub transformations: Vec<CoordinateTransformOuter>,
}

/// Explicitly defined forward and inverse transformations.
#[derive(Debug)]
pub struct Bijection {
    /// Forward transformation.
    pub forward: Box<CoordinateTransformOuter>,
    /// Inverse transformation.
    pub inverse: Box<CoordinateTransformOuter>,
}

/// Transform which is the inverse of another transform.
#[derive(Debug)]
pub struct InverseOf {
    /// Transform to invert.
    pub transformation: Box<CoordinateTransformOuter>,
}

/// Whether every explicit scale component admits an inverse: finite and
/// strictly positive.
pub open spec fn scale_invertible(v: Seq<Float64>) -> bool {
    forall|i: int|
        0 <= i < v.len() ==> f64_gt_zero(#[trigger] v[i].bits) && !f64_is_infinite(v[i].bits)
}

/// Invertibility of a transformation, by kind.
pub open spec fn ct_invertible(c: CoordinateTransform) -> Option<bool>
    decreases c,
{
    match c {
        CoordinateTransform::Identity(_) => Some(true),
        CoordinateTransform::MapAxis(_) => Some(true),
        CoordinateTransform::Translation(_) => Some(true),
        CoordinateTransform::Scale(s) => match s {
            Scale::Scale(v) => Some(scale_invertible(v@)),
            Scale::Path(_) => None,
        },
        CoordinateTransform::Affine(_) => None,
        CoordinateTransform::Rotation(_) => None,
        CoordinateTransform::Sequence(s) => seq_invertible(s.transformations@),
        CoordinateTransform::Displacements(_) => None,
        CoordinateTransform::Coordinates(_) => None,
        CoordinateTransform::InverseOf(_) => Some(true),
        CoordinateTransform::Bijection(_) => Some(true),
        CoordinateTransform::ByDimension(_) => None,
    }
}

/// Invertibility of a transformation with its declared systems.
pub open spec fn outer_invertible(o: CoordinateTransformOuter) -> Option<bool>
    decreases o,
{
    ct_invertible(o.config)
}

/// The first invertibility answer among the children that is not an
/// explicit yes; an explicit yes only when the list is exhausted.
pub open spec fn seq_invertible(ts: Seq<CoordinateTransformOuter>) -> Option<bool>
    decreases ts,
{
    if ts.len() == 0 {
        Some(true)
    } else if outer_invertible(ts.first()) == Some(true) {
        seq_invertible(ts.drop_first())
    } else {
        outer_invertible(ts.first())
    }
}

/// Law: a sequence answers an explicit yes to `invertible` exactly when
/// every child answers an explicit yes.
pub proof fn lemma_sequence_invertible_all_true(ts: Seq<CoordinateTransformOuter>)
    ensures
        seq_invertible(ts) == Some(true) <==> (forall|i: int|
            0 <= i < ts.len() ==> outer_invertible(#[trigger] ts[i]) == Some(true)),
    decreases ts,
{
    if ts.len() > 0 {
        lemma_sequence_invertible_all_true(ts.drop_first());
        assert forall|i: int|
            0 <= i < ts.len() && outer_invertible(ts.first()) == Some(true) && (forall|j: int|
                0 <= j < ts.drop_first().len() ==> outer_invertible(
                    #[trigger] ts.drop_first()[j],
                ) == Some(true)) implies outer_invertible(#[trigger] ts[i]) == Some(true) by {
            if i > 0 {
                assert(ts.drop_first()[i - 1] == ts[i]);
            }
        }
        if forall|i: int| 0 <= i < ts.len() ==> outer_invertible(#[trigger] ts[i]) == Some(true) {
            assert forall|j: int| 0 <= j < ts.drop_first().len() implies outer_invertible(
                #[trigger] ts.drop_first()[j],
            ) == Some(true) by {
                assert(ts.drop_first()[j] == ts[j + 1]);
            }
        }
    }
}

/// Law: a sequence answers an explicit no to `invertible` only when some
/// child answers an explicit no.
pub proof fn lemma_sequence_invertible_false_witness(ts: Seq<CoordinateTransformOuter>)
    ensures
        seq_invertible(ts) == Some(false) ==> exists|i: int|
            0 <= i < ts.len() && outer_invertible(#[trigger] ts[i]) == Some(false),
    decreases ts,
{
    if ts.len() > 0 {
        lemma_sequence_invertible_false_witness(ts.drop_first());
        if seq_invertible(ts) == Some(false) {
            if outer_invertible(ts.first()) == Some(true) {
                let j = choose|j: int|
                    0 <= j < ts.drop_first().len() && outer_invertible(
                        #[trigger] ts.drop_first()[j],
                    ) == Some(false);
                assert(ts.drop_first()[j] == ts[j + 1]);
            } else {
                assert(outer_invertible(ts[0]) == Some(false));
            }
        }
    }
}

/// Law: a sequence answers unknown to `invertible` only when some child
/// answers unknown.
pub proof fn lemma_sequence_invertible_unknown_witness(ts: Seq<CoordinateTransformOuter>)
    ensures
        seq_invertible(ts) is None ==> exists|i: int|
            0 <= i < ts.len() && outer_invertible(#[trigger] ts[i]) is None,
    decreases ts,
{
    if ts.len() > 0 {
        lemma_sequence_invertible_unknown_witness(ts.drop_first());
        if seq_invertible(ts) is None {
            if outer_invertible(ts.first()) == Some(true) {
                let j = choose|j: int|
                    0 <= j < ts.drop_first().len() && outer_invertible(
                        #[trigger] ts.drop_first()[j],
                    ) is None;
                assert(ts.drop_first()[j] == ts[j + 1]);
            } else {
                assert(outer_invertible(ts[0]) is None);
            }
        }
    }
}

/// Law: when every child answers `invertible` explicitly, the sequence
/// answers an explicit no exactly when some child does. (When a child
/// with an unknown answer stands before the first explicit no, the scan
/// reports unknown instead.)
pub proof fn lemma_sequence_invertible_decided(ts: Seq<CoordinateTransformOuter>)
    requires
        forall|i: int| 0 <= i < ts.len() ==> outer_invertible(#[trigger] ts[i]) is Some,
    ensures
        seq_invertible(ts) == Some(false) <==> exists|i: int|
            0 <= i < ts.len() && outer_invertible(#[trigger] ts[i]) == Some(false),
    decreases ts,
{
    lemma_sequence_invertible_false_witness(ts);
    if ts.len() > 0 {
        assert forall|j: int| 0 <= j < ts.drop_first().len() implies outer_invertible(
            #[trigger] ts.drop_first()[j],
        ) is Some by {
            assert(ts.drop_first()[j] == ts[j + 1]);
        }
        lemma_sequence_invertible_decided(ts.drop_first());
        if exists|i: int| 0 <= i < ts.len() && outer_invertible(#[trigger] ts[i]) == Some(false) {
            let i = choose|i: int|
                0 <= i < ts.len() && outer_invertible(#[trigger] ts[i]) == Some(false);
            if outer_invertible(ts.first()) == Some(true) {
                assert(i > 0);
                assert(ts.drop_first()[i - 1] == ts[i]);
                assert(seq_invertible(ts.drop_first()) == Some(false));
            } else {
                assert(outer_invertible(ts.first()) == Some(false));
            }
        }
    }
}

/// Input dimensionality of a transformation, by kind.
pub open spec fn ct_input_ndim(c: CoordinateTransform) -> Option<usize>
    decreases c,
{
    match c {
        CoordinateTransform::Identity(_) => None,
        CoordinateTransform::MapAxis(m) => Some(m.map_axis@.len() as usize),
        CoordinateTransform::Translation(t) => match t {
            Translation::Translation(v) => Some(v@.len() as usize),
            Translation::Path(_) => None,
        },
        CoordinateTransform::Scale(s) => match s {
            Scale::Scale(v) => Some(v@.len() as usize),
            Scale::Path(_) => None,
        },
        CoordinateTransform::Affine(a) => match a {
            Affine::Affine(rows) => if rows@.len() == 0 {
                None
            } else {
                Some(rows@[0]@.len() as usize)
            },
            Affine::Path(_) => None,
        },
        CoordinateTransform::Rotation(_) => None,
        CoordinateTransform::Sequence(s) => if s.transformations@.len() == 0 {
            None
        } else {
            outer_input_ndim(s.transformations@[0])
        },
        CoordinateTransform::Displacements(_) => None,
        CoordinateTransform::Coordinates(_) => None,
        CoordinateTransform::InverseOf(io) => outer_output_ndim(*io.transformation),
        CoordinateTransform::Bijection(b) => outer_input_ndim(*b.forward),
        CoordinateTransform::ByDimension(_) => None,
    }
}

/// Output dimensionality of a transformation, by kind.
pub open spec fn ct_output_ndim(c: CoordinateTransform) -> Option<usize>
    decreases c,
{
    match c {
        CoordinateTransform::Identity(_) => None,
        CoordinateTransform::MapAxis(m) => Some(m.map_axis@.len() as usize),
        CoordinateTransform::Translation(t) => match t {
            Translation::Translation(v) => Some(v@.len() as usize),
            Translation::Path(_) => None,
        },
        CoordinateTransform::Scale(s) => match s {
            Scale::Scale(v) => Some(v@.len() as usize),
            Scale::Path(_) => None,
        },
        CoordinateTransform::Affine(a) => match a {
            Affine::Affine(rows) => Some(rows@.len() as usize),
            Affine::Path(_) => None,
        },
        CoordinateTransform::Rotation(_) => None,
        CoordinateTransform::Sequence(s) => if s.transformations@.len() == 0 {
            None
        } else {
            outer_output_ndim(s.transformations@[s.transformations@.len() - 1])
        },
        CoordinateTransform::Displacements(_) => None,
        CoordinateTransform::Coordinates(_) => None,
        CoordinateTransform::InverseOf(io) => outer_input_ndim(*io.transformation),
        CoordinateTransform::Bijection(b) => outer_output_ndim(*b.forward),
        CoordinateTransform::ByDimension(_) => None,
    }
}

/// Input dimensionality of a transformation with its declared systems.
pub open spec fn outer_input_ndim(o: CoordinateTransformOuter) -> Option<usize>
    decreases o,
{
    ct_input_ndim(o.config)
}

/// Output dimensionality of a transformation with its declared systems.
pub open spec fn outer_output_ndim(o: CoordinateTransformOuter) -> Option<usize>
    decreases o,
{
    ct_output_ndim(o.config)
}

/// Input coordinate-system name inferred from the kind alone.
pub open spec fn ct_input_system(c: CoordinateTransform) -> Option<Seq<char>>
    decreases c,
{
    match c {
        CoordinateTransform::Sequence(s) => if s.transformations@.len() == 0 {
            None
        } else {
            outer_input_system(s.transformations@[0])
        },
        CoordinateTransform::InverseOf(io) => outer_output_system(*io.transformation),
        CoordinateTransform::Bijection(b) => bijection_input_system(b),
        _ => None,
    }
}

/// Output coordinate-system name inferred from the kind alone.
pub open spec fn ct_output_system(c: CoordinateTransform) -> Option<Seq<char>>
    decreases c,
{
    match c {
        CoordinateTransform::Sequence(s) => if s.transformations@.len() == 0 {
            None
        } else {
            outer_output_system(s.transformations@[s.transformations@.len() - 1])
        },
        CoordinateTransform::InverseOf(io) => outer_input_system(*io.transformation),
        CoordinateTransform::Bijection(b) => bijection_output_system(b),
        _ => None,
    }
}

/// Input system of a bijection: the forward child's input, else the
/// inverse child's output.
pub open spec fn bijection_input_system(b: Bijection) -> Option<Seq<char>>
    decreases b,
{
    match outer_input_system(*b.forward) {
        Some(s) => Some(s),
        None => outer_output_system(*b.inverse),
    }
}

/// Output system of a bijection: the forward child's output, else the
/// inverse child's input.
pub open spec fn bijection_output_system(b: Bijection) -> Option<Seq<char>>
    decreases b,
{
    match outer_output_system(*b.forward) {
        Some(s) => Some(s),
        None => outer_input_system(*b.inverse),
    }
}

/// Input system of a transformation with its declared systems: the
/// declared name wins; only a bijection can supply one otherwise.
pub open spec fn outer_input_system(o: CoordinateTransformOuter) -> Option<Seq<char>>
    decreases o,
{
    match o.input {
        Some(s) => Some(s@),
        None => match o.config {
            CoordinateTransform::Bijection(b) => bijection_input_system(b),
            _ => None,
        },
    }
}

/// Output system of a transformation with its declared systems: the
/// declared name wins; only a bijection can supply one otherwise.
pub open spec fn outer_output_system(o: CoordinateTransformOuter) -> Option<Seq<char>>
    decreases o,
{
    match o.output {
        Some(s) => Some(s@),
        None => match o.config {
            CoordinateTransform::Bijection(b) => bijection_output_system(b),
            _ => None,
        },
    }
}

/// Useful methods for all transformation types.
///
/// Every kind answers dimensionality, invertibility and coordinate-system
/// queries; `None` means the metadata leaves the answer open. Each answer
/// is pinned to the corresponding specification function.
pub trait TransformationType {
    /// What [`TransformationType::invertible`] returns.
    spec fn spec_invertible(&self) -> Option<bool>;

    /// What [`TransformationType::input_ndim`] returns.
    spec fn spec_input_ndim(&self) -> Option<usize>;

    /// What [`TransformationType::output_ndim`] returns.
    spec fn spec_output_ndim(&self) -> Option<usize>;

    /// What [`TransformationType::input_system`] returns.
    spec fn spec_input_system(&self) -> Option<Seq<char>>;

    /// What [`TransformationType::output_system`] returns.
    spec fn spec_output_system(&self) -> Option<Seq<char>>;

    /// Whether this type of transformation is invertible.
    fn invertible(&self) -> (r: Option<bool>)
        ensures
            r == self.spec_invertible(),
    ;

    /// The input dimensionality of the transformation.
    fn input_ndim(&self) -> (r: Option<usize>)
        ensures
            r == self.spec_input_ndim(),
    ;

    /// The output dimensionality of the transformation.
    fn output_ndim(&self) -> (r: Option<usize>)
        ensures
            r == self.spec_output_ndim(),
    ;

    /// Input coordinate system name, if this transformation type is opinionated.
    fn input_system(&self) -> (r: Option<&str>)
        ensures
            opt_str_view(r) == self.spec_input_system(),
    ;

    /// Output coordinate system name, if this transformation type is opinionated.
    fn output_system(&self) -> (r: Option<&str>)
        ensures
            opt_str_view(r) == self.spec_output_system(),
    ;
}

/// Whether every component of an explicit scale vector is finite and
/// strictly positive.
fn scale_all_invertible(v: &Vec<Float64>) -> (r: bool)
    ensures
        r == scale_invertible(v@),
{
    let mut i: usize = 0;
    while i < v.len()
        invariant
            0 <= i <= v@.len(),
            forall|j: int|
                0 <= j < i ==> f64_gt_zero(#[trigger] v@[j].bits) && !f64_is_infinite(v@[j].bits),
        decreases v@.len() - i,
    {
        if !(v[i].gt_zero() && !v[i].is_infinite()) {
            return false;
        }
        i = i + 1;
    }
    true
}

/// If the first `i` children are explicitly invertible, the scan of the
/// whole list gives the same answer as the scan of the rest.
proof fn lemma_seq_invertible_scan(ts: Seq<CoordinateTransformOuter>, i: int)
    requires
        0 <= i <= ts.len(),
        forall|j: int| 0 <= j < i ==> outer_invertible(#[trigger] ts[j]) == Some(true),
    ensures
        seq_invertible(ts) == seq_invertible(ts.skip(i)),
    decreases i,
{
    if i > 0 {
        lemma_seq_invertible_scan(ts, i - 1);
        assert(ts.skip(i - 1).first() == ts[i - 1]);
        assert(outer_invertible(ts.skip(i - 1).first()) == Some(true));
        assert(ts.skip(i - 1).drop_first() =~= ts.skip(i));
        assert(seq_invertible(ts.skip(i - 1)) == seq_invertible(ts.skip(i - 1).drop_first()));
    } else {
        assert(ts.skip(0) =~= ts);
    }
}

fn ct_invertible_exec(c: &CoordinateTransform) -> (r: Option<bool>)
    ensures
        r == ct_invertible(*c),
    decreases *c,
{
    match c {
        CoordinateTransform::Identity(_) => Some(true),
        CoordinateTransform::MapAxis(_) => Some(true),
        CoordinateTransform::Translation(_) => Some(true),
        CoordinateTransform::Scale(s) => match s {
            Scale::Scale(v) => Some(scale_all_invertible(v)),
            Scale::Path(_) => None,
        },
        CoordinateTransform::Affine(_) => None,
        CoordinateTransform::Rotation(_) => None,
        CoordinateTransform::Sequence(s) => list_invertible_exec(&s.transformations),
        CoordinateTransform::Displacements(_) => None,
        CoordinateTransform::Coordinates(_) => None,
        CoordinateTransform::InverseOf(_) => Some(true),
        CoordinateTransform::Bijection(_) => Some(true),
        CoordinateTransform::ByDimension(_) => None,
    }
}

fn list_invertible_exec(ts: &Vec<CoordinateTransformOuter>) -> (r: Option<bool>)
    ensures
        r == seq_invertible(ts@),
    decreases ts@,
{
    let mut i: usize = 0;
    while i < ts.len()
        invariant
            0 <= i <= ts@.len(),
            forall|j: int| 0 <= j < i ==> outer_invertible(#[trigger] ts@[j]) == Some(true),
        decreases ts@.len() - i,
    {
        let r = ct_invertible_exec(&ts[i].config);
        if !matches!(r, Some(true)) {
            proof {
                lemma_seq_invertible_scan(ts@, i as int);
                assert(ts@.skip(i as int).first() == ts@[i as int]);
            }
            return r;
        }
        i = i + 1;
    }
    proof {
        lemma_seq_invertible_scan(ts@, ts@.len() as int);
        assert(ts@.skip(ts@.len() as int) =~= Seq::<CoordinateTransformOuter>::empty());
    }
    Some(true)
}

fn ct_input_ndim_exec(c: &CoordinateTransform) -> (r: Option<usize>)
    ensures
        r == ct_input_ndim(*c),
    decreases *c,
{
    match c {
        CoordinateTransform::Identity(_) => None,
        CoordinateTransform::MapAxis(m) => Some(m.map_axis.len()),
        CoordinateTransform::Translation(t) => match t {
            Translation::Translation(v) => Some(v.len()),
            Translation::Path(_) => None,
        },
        CoordinateTransform::Scale(s) => match s {
            Scale::Scale(v) => Some(v.len()),
            Scale::Path(_) => None,
        },
        CoordinateTransform::Affine(a) => match a {
            Affine::Affine(rows) => if rows.len() == 0 {
                None
            } else {
                Some(rows[0].len())
            },
            Affine::Path(_) => None,
        },
        CoordinateTransform::Rotation(_) => None,
        CoordinateTransform::Sequence(s) => if s.transformations.len() == 0 {
            None
        } else {
            ct_input_ndim_exec(&s.transformations[0].config)
        },
        CoordinateTransform::Displacements(_) => None,
        CoordinateTransform::Coordinates(_) => None,
        CoordinateTransform::InverseOf(io) => ct_output_ndim_exec(&io.transformation.config),
        CoordinateTransform::Bijection(b) => ct_input_ndim_exec(&b.forward.config),
        CoordinateTransform::ByDimension(_) => None,
    }
}

fn ct_output_ndim_exec(c: &CoordinateTransform) -> (r: Option<usize>)
    ensures
        r == ct_output_ndim(*c),
    decreases *c,
{
    match c {
        CoordinateTransform::Identity(_) => None,
        CoordinateTransform::MapAxis(m) => Some(m.map_axis.len()),
        CoordinateTransform::Translation(t) => match t {
            Translation::Translation(v) => Some(v.len()),
            Translation::Path(_) => None,
        },
        CoordinateTransform::Scale(s) => match s {
            Scale::Scale(v) => Some(v.len()),
            Scale::Path(_) => None,
        },
        CoordinateTransform::Affine(a) => match a {
            Affine::Affine(rows) => Some(rows.len()),
            Affine::Path(_) => None,
        },
        CoordinateTransform::Rotation(_) => None,
        CoordinateTransform::Sequence(s) => if s.transformations.len() == 0 {
            None
        } else {
            ct_output_ndim_exec(&s.transformations[s.transformations.len() - 1].config)
        },
        CoordinateTransform::Displacements(_) => None,
        CoordinateTransform::Coordinates(_) => None,
        CoordinateTransform::InverseOf(io) => ct_input_ndim_exec(&io.transformation.config),
        CoordinateTransform::Bijection(b) => ct_output_ndim_exec(&b.forward.config),
        CoordinateTransform::ByDimension(_) => None,
    }
}

fn outer_input_system_exec(o: &CoordinateTransformOuter) -> (r: Option<&str>)
    ensures
        opt_str_view(r) == outer_input_system(*o),
    decreases *o,
{
    match &o.input {
        Some(s) => Some(s.as_str()),
        None => match &o.config {
            CoordinateTransform::Bijection(b) => bijection_input_system_exec(b),
            _ => None,
        },
    }
}

fn outer_output_system_exec(o: &CoordinateTransformOuter) -> (r: Option<&str>)
    ensures
        opt_str_view(r) == outer_output_system(*o),
    decreases *o,
{
    match &o.output {
        Some(s) => Some(s.as_str()),
        None => match &o.config {
            CoordinateTransform::Bijection(b) => bijection_output_system_exec(b),
            _ => None,
        },
    }
}

fn bijection_input_system_exec(b: &Bijection) -> (r: Option<&str>)
    ensures
        opt_str_view(r) == bijection_input_system(*b),
    decreases *b,
{
    match outer_input_system_exec(&b.forward) {
        Some(s) => Some(s),
        None => outer_output_system_exec(&b.inverse),
    }
}

fn bijection_output_system_exec(b: &Bijection) -> (r: Option<&str>)
    ensures
        opt_str_view(r) == bijection_output_system(*b),
    decreases *b,
{
    match outer_output_system_exec(&b.forward) {
        Some(s) => Some(s),
        None => outer_input_system_exec(&b.inverse),
    }
}

fn ct_input_system_exec(c: &CoordinateTransform) -> (r: Option<&str>)
    ensures
        opt_str_view(r) == ct_input_system(*c),
    decreases *c,
{
    match c {
        CoordinateTransform::Sequence(s) => if s.transformations.len() == 0 {
            None
        } else {
            outer_input_system_exec(&s.transformations[0])
        },
        CoordinateTransform::InverseOf(io) => outer_output_system_exec(&io.transformation),
        CoordinateTransform::Bijection(b) => bijection_input_system_exec(b),
        _ => None,
    }
}

fn ct_output_system_exec(c: &CoordinateTransform) -> (r: Option<&str>)
    ensures
        opt_str_view(r) == ct_output_system(*c),
    decreases *c,
{
    match c {
        CoordinateTransform::Sequence(s) => if s.transformations.len() == 0 {
            None
        } else {
            outer_output_system_exec(&s.transformations[s.transformations.len() - 1])
        },
        CoordinateTransform::InverseOf(io) => outer_input_system_exec(&io.transformation),
        CoordinateTransform::Bijection(b) => bijection_output_system_exec(b),
        _ => None,
    }
}

impl TransformationType for Identity {
    open spec fn spec_invertible(&self) -> Option<bool> {
        Some(true)
    }

    open spec fn spec_input_ndim(&self) -> Option<usize> {
        None
    }

    open spec fn spec_output_ndim(&self) -> Option<usize> {
        None
    }

    open spec fn spec_input_system(&self) -> Option<Seq<char>> {
        None
    }

    open spec fn spec_output_system(&self) -> Option<Seq<char>> {
        None
    }

    fn invertible(&self) -> (r: Option<bool>) {
        Some(true)
    }

    fn input_ndim(&self) -> (r: Option<usize>) {
        None
    }

    fn output_ndim(&self) -> (r: Option<usize>) {
        None
    }

    fn input_system(&self) -> (r: Option<&str>) {
        None
    }

    fn output_system(&self) -> (r: Option<&str>) {
        None
    }
}

impl TransformationType for MapAxis {
    open spec fn spec_invertible(&self) -> Option<bool> {
        Some(true)
    }

    open spec fn spec_input_ndim(&self) -> Option<usize> {
        Some(self.map_axis@.len() as usize)
    }

    open spec fn spec_output_ndim(&self) -> Option<usize> {
        Some(self.map_axis@.len() as usize)
    }

    open spec fn spec_input_system(&self) -> Option<Seq<char>> {
        None
    }

    open spec fn spec_output_system(&self) -> Option<Seq<char>> {
        None
    }

    fn invertible(&self) -> (r: Option<bool>) {
        Some(true)
    }

    fn input_ndim(&self) -> (r: Option<usize>) {
        Some(self.map_axis.len())
    }

    fn output_ndim(&self) -> (r: Option<usize>) {
        Some(self.map_axis.len())
    }

    fn input_system(&self) -> (r: Option<&str>) {
        None
    }

    fn output_system(&self) -> (r: Option<&str>) {
        None
    }
}

impl MapAxis {
    /// The dimensionality of the permutation.
    pub fn ndim(&self) -> (r: usize)
        ensures
            r == self.map_axis@.len(),
    {
        self.map_axis.len()
    }
}

impl TransformationType for Translation {
    open spec fn spec_invertible(&self) -> Option<bool> {
        Some(true)
    }

    open spec fn spec_input_ndim(&self) -> Option<usize> {
        match self {
            Translation::Translation(v) => Some(v@.len() as usize),
            Translation::Path(_) => None,
        }
    }

    open spec fn spec_output_ndim(&self) -> Option<usize> {
        self.spec_input_ndim()
    }

    open spec fn spec_input_system(&self) -> Option<Seq<char>> {
        None
    }

    open spec fn spec_output_system(&self) -> Option<Seq<char>> {
        None
    }

    fn invertible(&self) -> (r: Option<bool>) {
        Some(true)
    }

    fn input_ndim(&self) -> (r: Option<usize>) {
        match self {
            Translation::Translation(v) => Some(v.len()),
            Translation::Path(_) => None,
        }
    }

    fn output_ndim(&self) -> (r: Option<usize>) {
        match self {
            Translation::Translation(v) => Some(v.len()),
            Translation::Path(_) => None,
        }
    }

    fn input_system(&self) -> (r: Option<&str>) {
        None
    }

    fn output_system(&self) -> (r: Option<&str>) {
        None
    }
}

impl TransformationType for Scale {
    open spec fn spec_invertible(&self) -> Option<bool> {
        match self {
            Scale::Scale(v) => Some(scale_invertible(v@)),
            Scale::Path(_) => None,
        }
    }

    open spec fn spec_input_ndim(&self) -> Option<usize> {
        match self {
            Scale::Scale(v) => Some(v@.len() as usize),
            Scale::Path(_) => None,
        }
    }

    open spec fn spec_output_ndim(&self) -> Option<usize> {
        self.spec_input_ndim()
    }

    open spec fn spec_input_system(&self) -> Option<Seq<char>> {
        None
    }

    open spec fn spec_output_system(&self) -> Option<Seq<char>> {
        None
    }

    fn invertible(&self) -> (r: Option<bool>) {
        match self {
            Scale::Scale(v) => Some(scale_all_invertible(v)),
            Scale::Path(_) => None,
        }
    }

    fn input_ndim(&self) -> (r: Option<usize>) {
        match self {
            Scale::Scale(v) => Some(v.len()),
            Scale::Path(_) => None,
        }
    }

    fn output_ndim(&self) -> (r: Option<usize>) {
        match self {
            Scale::Scale(v) => Some(v.len()),
            Scale::Path(_) => None,
        }
    }

    fn input_system(&self) -> (r: Option<&str>) {
        None
    }

    fn output_system(&self) -> (r: Option<&str>) {
        None
    }
}

impl TransformationType for Affine {
    open spec fn spec_invertible(&self) -> Option<bool> {
        None
    }

    open spec fn spec_input_ndim(&self) -> Option<usize> {
        match self {
            Affine::Affine(rows) => if rows@.len() == 0 {
                None
            } else {
                Some(rows@[0]@.len() as usize)
            },
            Affine::Path(_) => None,
        }
    }

    open spec fn spec_output_ndim(&self) -> Option<usize> {
        match self {
            Affine::Affine(rows) => Some(rows@.len() as usize),
            Affine::Path(_) => None,
        }
    }

    open spec fn spec_input_system(&self) -> Option<Seq<char>> {
        None
    }

    open spec fn spec_output_system(&self) -> Option<Seq<char>> {
        None
    }

    fn invertible(&self) -> (r: Option<bool>) {
        None
    }

    fn input_ndim(&self) -> (r: Option<usize>) {
        match self {
            Affine::Affine(rows) => if rows.len() == 0 {
                None
            } else {
                Some(rows[0].len())
            },
            Affine::Path(_) => None,
        }
    }

    fn output_ndim(&self) -> (r: Option<usize>) {
        match self {
            Affine::Affine(rows) => Some(rows.len()),
            Affine::Path(_) => None,
        }
    }

    fn input_system(&self) -> (r: Option<&str>) {
        None
    }

    fn output_system(&self) -> (r: Option<&str>) {
        None
    }
}

impl TransformationType for Rotation {
    open spec fn spec_invertible(&self) -> Option<bool> {
        None
    }

    open spec fn spec_input_ndim(&self) -> Option<usize> {
        None
    }

    open spec fn spec_output_ndim(&self) -> Option<usize> {
        None
    }

    open spec fn spec_input_system(&self) -> Option<Seq<char>> {
        None
    }

    open spec fn spec_output_system(&self) -> Option<Seq<char>> {
        None
    }

    fn invertible(&self) -> (r: Option<bool>) {
        None
    }

    fn input_ndim(&self) -> (r: Option<usize>) {
        None
    }

    fn output_ndim(&self) -> (r: Option<usize>) {
        None
    }

    fn input_system(&self) -> (r: Option<&str>) {
        None
    }

    fn output_system(&self) -> (r: Option<&str>) {
        None
    }
}

impl TransformationType for Coordinates {
    open spec fn spec_invertible(&self) -> Option<bool> {
        None
    }

    open spec fn spec_input_ndim(&self) -> Option<usize> {
        None
    }

    open spec fn spec_output_ndim(&self) -> Option<usize> {
        None
    }

    open spec fn spec_input_system(&self) -> Option<Seq<char>> {
        None
    }

    open spec fn spec_output_system(&self) -> Option<Seq<char>> {
        None
    }

    fn invertible(&self) -> (r: Option<bool>) {
        None
    }

    fn input_ndim(&self) -> (r: Option<usize>) {
        None
    }

    fn output_ndim(&self) -> (r: Option<usize>) {
        None
    }

    fn input_system(&self) -> (r: Option<&str>) {
        None
    }

    fn output_system(&self) -> (r: Option<&str>) {
        None
    }
}

impl TransformationType for Displacements {
    open spec fn spec_invertible(&self) -> Option<bool> {
        None
    }

    open spec fn spec_input_ndim(&self) -> Option<usize> {
        None
    }

    open spec fn spec_output_ndim(&self) -> Option<usize> {
        None
    }

    open spec fn spec_input_system(&self) -> Option<Seq<char>> {
        None
    }

    open spec fn spec_output_system(&self) -> Option<Seq<char>> {
        None
    }

    fn invertible(&self) -> (r: Option<bool>) {
        None
    }

    fn input_ndim(&self) -> (r: Option<usize>) {
        None
    }

    fn output_ndim(&self) -> (r: Option<usize>) {
        None
    }

    fn input_system(&self) -> (r: Option<&str>) {
        None
    }

    fn output_system(&self) -> (r: Option<&str>) {
        None
    }
}

impl TransformationType for ByDimension {
    open spec fn spec_invertible(&self) -> Option<bool> {
        None
    }

    open spec fn spec_input_ndim(&self) -> Option<usize> {
        None
    }

    open spec fn spec_output_ndim(&self) -> Option<usize> {
        None
    }

    open spec fn spec_input_system(&self) -> Option<Seq<char>> {
        None
    }

    open spec fn spec_output_system(&self) -> Option<Seq<char>> {
        None
    }

    fn invertible(&self) -> (r: Option<bool>) {
        None
    }

    fn input_ndim(&self) -> (r: Option<usize>) {
        None
    }

    fn output_ndim(&self) -> (r: Option<usize>) {
        None
    }

    fn input_system(&self) -> (r: Option<&str>) {
        None
    }

    fn output_system(&self) -> (r: Option<&str>) {
        None
    }
}

impl TransformationType for Sequence {
    open spec fn spec_invertible(&self) -> Option<bool> {
        seq_invertible(self.transformations@)
    }

    open spec fn spec_input_ndim(&self) -> Option<usize> {
        if self.transformations@.len() == 0 {
            None
        } else {
            outer_input_ndim(self.transformations@[0])
        }
    }

    open spec fn spec_output_ndim(&self) -> Option<usize> {
        if self.transformations@.len() == 0 {
            None
        } else {
            outer_output_ndim(self.transformations@[self.transformations@.len() - 1])
        }
    }

    open spec fn spec_input_system(&self) -> Option<Seq<char>> {
        if self.transformations@.len() == 0 {
            None
        } else {
            outer_input_system(self.transformations@[0])
        }
    }

    open spec fn spec_output_system(&self) -> Option<Seq<char>> {
        if self.transformations@.len() == 0 {
            None
        } else {
            outer_output_system(self.transformations@[self.transformations@.len() - 1])
        }
    }

    fn invertible(&self) -> (r: Option<bool>) {
        list_invertible_exec(&self.transformations)
    }

    fn input_ndim(&self) -> (r: Option<usize>) {
        if self.transformations.len() == 0 {
            None
        } else {
            ct_input_ndim_exec(&self.transformations[0].config)
        }
    }

    fn output_ndim(&self) -> (r: Option<usize>) {
        if self.transformations.len() == 0 {
            None
        } else {
            ct_output_ndim_exec(&self.transformations[self.transformations.len() - 1].config)
        }
    }

    fn input_system(&self) -> (r: Option<&str>) {
        if self.transformations.len() == 0 {
            None
        } else {
            outer_input_system_exec(&self.transformations[0])
        }
    }

    fn output_system(&self) -> (r: Option<&str>) {
        if self.transformations.len() == 0 {
            None
        } else {
            outer_output_system_exec(&self.transformations[self.transformations.len() - 1])
        }
    }
}

impl TransformationType for Bijection {
    open spec fn spec_invertible(&self) -> Option<bool> {
        Some(true)
    }

    open spec fn spec_input_ndim(&self) -> Option<usize> {
        outer_input_ndim(*self.forward)
    }

    open spec fn spec_output_ndim(&self) -> Option<usize> {
        outer_output_ndim(*self.forward)
    }

    open spec fn spec_input_system(&self) -> Option<Seq<char>> {
        bijection_input_system(*self)
    }

    open spec fn spec_output_system(&self) -> Option<Seq<char>> {
        bijection_output_system(*self)
    }

    fn invertible(&self) -> (r: Option<bool>) {
        Some(true)
    }

    fn input_ndim(&self) -> (r: Option<usize>) {
        ct_input_ndim_exec(&self.forward.config)
    }

    fn output_ndim(&self) -> (r: Option<usize>) {
        ct_output_ndim_exec(&self.forward.config)
    }

    fn input_system(&self) -> (r: Option<&str>) {
        bijection_input_system_exec(self)
    }

    fn output_system(&self) -> (r: Option<&str>) {
        bijection_output_system_exec(self)
    }
}

impl TransformationType for InverseOf {
    open spec fn spec_invertible(&self) -> Option<bool> {
        Some(true)
    }

    open spec fn spec_input_ndim(&self) -> Option<usize> {
        outer_output_ndim(*self.transformation)
    }

    open spec fn spec_output_ndim(&self) -> Option<usize> {
        outer_input_ndim(*self.transformation)
    }

    open spec fn spec_input_system(&self) -> Option<Seq<char>> {
        outer_output_system(*self.transformation)
    }

    open spec fn spec_output_system(&self) -> Option<Seq<char>> {
        outer_input_system(*self.transformation)
    }

    fn invertible(&self) -> (r: Option<bool>) {
        Some(true)
    }

    fn input_ndim(&self) -> (r: Option<usize>) {
        ct_output_ndim_exec(&self.transformation.config)
    }

    fn output_ndim(&self) -> (r: Option<usize>) {
        ct_input_ndim_exec(&self.transformation.config)
    }

    fn input_system(&self) -> (r: Option<&str>) {
        outer_output_system_exec(&self.transformation)
    }

    fn output_system(&self) -> (r: Option<&str>) {
        outer_input_system_exec(&self.transformation)
    }
}

impl TransformationType for CoordinateTransform {
    open spec fn spec_invertible(&self) -> Option<bool> {
        ct_invertible(*self)
    }

    open spec fn spec_input_ndim(&self) -> Option<usize> {
        ct_input_ndim(*self)
    }

    open spec fn spec_output_ndim(&self) -> Option<usize> {
        ct_output_ndim(*self)
    }

    open spec fn spec_input_system(&self) -> Option<Seq<char>> {
        ct_input_system(*self)
    }

    open spec fn spec_output_system(&self) -> Option<Seq<char>> {
        ct_output_system(*self)
    }

    fn invertible(&self) -> (r: Option<bool>) {
        ct_invertible_exec(self)
    }

    fn input_ndim(&self) -> (r: Option<usize>) {
        ct_input_ndim_exec(self)
    }

    fn output_ndim(&self) -> (r: Option<usize>) {
        ct_output_ndim_exec(self)
    }

    fn input_system(&self) -> (r: Option<&str>) {
        ct_input_system_exec(self)
    }

    fn output_system(&self) -> (r: Option<&str>) {
        ct_output_system_exec(self)
    }
}

impl TransformationType for CoordinateTransformOuter {
    open spec fn spec_invertible(&self) -> Option<bool> {
        outer_invertible(*self)
    }

    open spec fn spec_input_ndim(&self) -> Option<usize> {
        outer_input_ndim(*self)
    }

    open spec fn spec_output_ndim(&self) -> Option<usize> {
        outer_output_ndim(*self)
    }

    open spec fn spec_input_system(&self) -> Option<Seq<char>> {
        outer_input_system(*self)
    }

    open spec fn spec_output_system(&self) -> Option<Seq<char>> {
        outer_output_system(*self)
    }

    fn invertible(&self) -> (r: Option<bool>) {
        ct_invertible_exec(&self.config)
    }

    fn input_ndim(&self) -> (r: Option<usize>) {
        ct_input_ndim_exec(&self.config)
    }

    fn output_ndim(&self) -> (r: Option<usize>) {
        ct_output_ndim_exec(&self.config)
    }

    /// Get the input coordinate system, inferring it from sub-transformations
    /// if necessary. Will always be `Some` for valid metadata.
    fn input_system(&self) -> (r: Option<&str>) {
        outer_input_system_exec(self)
    }

    /// Get the output coordinate system, inferring it from sub-transformations
    /// if necessary. Will always be `Some` for valid metadata.
    fn output_system(&self) -> (r: Option<&str>) {
        outer_output_system_exec(self)
    }
}

/// Whether two inferred coordinate-system names are both known and differ.
pub open spec fn sys_mismatch(a: Option<Seq<char>>, b: Option<Seq<char>>) -> bool {
    match (a, b) {
        (Some(x), Some(y)) => x != y,
        _ => false,
    }
}

/// The failures of one explicit scale component: NaN, infinite and
/// negative values are each reported at the component's index.
pub open spec fn scale_entry_failures(v: Seq<Float64>, i: int) -> Seq<SpecFailure> {
    with_prefix(
        seq![Segment::Index(i as usize)],
        (if f64_is_nan(v[i].bits) {
            fail(Problem::ScaleNan)
        } else {
            seq![]
        }) + (if f64_is_infinite(v[i].bits) {
            fail(Problem::ScaleInfinite)
        } else {
            seq![]
        }) + (if f64_lt_zero(v[i].bits) {
            fail(Problem::ScaleNegative)
        } else {
            seq![]
        }),
    )
}

/// The failures of the first `n` components of an explicit scale vector.
pub open spec fn scale_values_failures(v: Seq<Float64>, n: int) -> Seq<SpecFailure>
    decreases n,
{
    if n <= 0 {
        seq![]
    } else {
        scale_values_failures(v, n - 1) + scale_entry_failures(v, n - 1)
    }
}

/// The failures of a scale transformation, under its `scale` field.
pub open spec fn scale_failures(s: Scale) -> Seq<SpecFailure> {
    match s {
        Scale::Scale(v) => with_prefix(
            seq![Segment::Field(Key::Scale)],
            scale_values_failures(v@, v@.len() as int),
        ),
        Scale::Path(_) => seq![],
    }
}

/// Whether an earlier position already maps the axis written at position `i`.
pub open spec fn repeated_before(m: Seq<usize>, i: int) -> bool {
    exists|j: int| 0 <= j < i && m[j] == m[i]
}

/// The failure that position `i` of the permutation vector triggers, if
/// any: a repeated input axis, or one that does not exist.
pub open spec fn map_axis_entry_failures(m: Seq<usize>, i: int) -> Seq<SpecFailure> {
    if repeated_before(m, i) {
        fail_at(Segment::Index(i as usize), Problem::RepeatedInputAxis(m[i]))
    } else if m[i] >= m.len() {
        fail_at(Segment::Index(i as usize), Problem::InputAxisDoesNotExist(m[i]))
    } else {
        seq![]
    }
}

/// The per-position failures of the first `n` entries of the permutation.
pub open spec fn map_axis_entries_failures(m: Seq<usize>, n: int) -> Seq<SpecFailure>
    decreases n,
{
    if n <= 0 {
        seq![]
    } else {
        map_axis_entries_failures(m, n - 1) + map_axis_entry_failures(m, n - 1)
    }
}

/// Whether input axis `v` appears in the permutation vector.
pub open spec fn axis_mapped(m: Seq<usize>, v: usize) -> bool {
    exists|i: int| 0 <= i < m.len() && m[i] == v
}

/// How many input axes below `v` the permutation never maps.
pub open spec fn unmapped_count(m: Seq<usize>, v: int) -> int
    decreases v,
{
    if v <= 0 {
        0
    } else {
        unmapped_count(m, v - 1) + if !axis_mapped(m, (v - 1) as usize) {
            1int
        } else {
            0int
        }
    }
}

/// The failures of an axis permutation, under its `mapAxis` field: the
/// per-position failures, then one failure naming how many axes were
/// never mapped, if any.
pub open spec fn map_axis_failures(m: MapAxis) -> Seq<SpecFailure> {
    with_prefix(
        seq![Segment::Field(Key::MapAxis)],
        map_axis_entries_failures(m.map_axis@, m.map_axis@.len() as int) + (if unmapped_count(
            m.map_axis@,
            m.map_axis@.len() as int,
        ) > 0 {
            fail(
                Problem::DidNotMapAxes(
                    unmapped_count(m.map_axis@, m.map_axis@.len() as int) as usize,
                ),
            )
        } else {
            seq![]
        }),
    )
}

/// Whether two rows of the matrix have different lengths.
pub open spec fn is_ragged(rows: Seq<Vec<Float64>>) -> bool {
    exists|i: int, j: int|
        0 <= i < rows.len() && 0 <= j < rows.len() && rows[i]@.len() != rows[j]@.len()
}

/// Whether some row of the matrix is empty.
pub open spec fn has_empty_row(rows: Seq<Vec<Float64>>) -> bool {
    exists|i: int| 0 <= i < rows.len() && rows[i]@.len() == 0
}

/// The failures of an explicit affine matrix, under its `affine` field:
/// no rows, an empty row, and rows of unequal length.
pub open spec fn affine_failures(a: Affine) -> Seq<SpecFailure> {
    match a {
        Affine::Affine(rows) => with_prefix(
            seq![Segment::Field(Key::Affine)],
            (if rows@.len() == 0 {
                fail(Problem::ZeroDimensionalOutput)
            } else {
                seq![]
            }) + (if has_empty_row(rows@) {
                fail(Problem::ZeroDimensionalInput)
            } else {
                seq![]
            }) + (if is_ragged(rows@) {
                fail(Problem::RaggedMatrix)
            } else {
                seq![]
            }),
        ),
        Affine::Path(_) => seq![],
    }
}

/// The composability failures that child `i` of a sequence triggers: a
/// nested sequence, and a coordinate system or dimensionality that does
/// not match the previous child's output.
pub open spec fn sequence_pair_failures_at(
    ts: Seq<CoordinateTransformOuter>,
    i: int,
) -> Seq<SpecFailure> {
    (if ts[i].config is Sequence {
        fail_at(Segment::Index(i as usize), Problem::NestedSequence)
    } else {
        seq![]
    }) + (if i > 0 && sys_mismatch(outer_output_system(ts[i - 1]), outer_input_system(ts[i])) {
        fail_at(Segment::Index(i as usize), Problem::SequenceSystemMismatch)
    } else {
        seq![]
    }) + (if i > 0 && match (outer_output_ndim(ts[i - 1]), outer_input_ndim(ts[i])) {
        (Some(a), Some(b)) => a != b,
        _ => false,
    } {
        fail_at(Segment::Index(i as usize), Problem::SequenceDimMismatch)
    } else {
        seq![]
    })
}

/// The composability failures of the first `n` children of a sequence.
pub open spec fn sequence_pair_failures(ts: Seq<CoordinateTransformOuter>, n: int) -> Seq<
    SpecFailure,
>
    decreases n,
{
    if n <= 0 {
        seq![]
    } else {
        sequence_pair_failures(ts, n - 1) + sequence_pair_failures_at(ts, n - 1)
    }
}

/// The coordinate-system consistency failures of a bijection, under its
/// `inverse` field: the forward child's input must match the inverse
/// child's output, and vice versa, whenever both are known.
pub open spec fn bijection_failures(b: Bijection) -> Seq<SpecFailure> {
    with_prefix(
        seq![Segment::Field(Key::Inverse)],
        (if sys_mismatch(outer_input_system(*b.forward), outer_output_system(*b.inverse)) {
            fail(Problem::ForwardInputMismatch)
        } else {
            seq![]
        }) + (if sys_mismatch(outer_output_system(*b.forward), outer_input_system(*b.inverse)) {
            fail(Problem::ForwardOutputMismatch)
        } else {
            seq![]
        }),
    )
}

/// The failures of a sequence, under its `transformations` field: an
/// empty list, each child's own failures at its index, and the
/// composability failures between consecutive children.
pub open spec fn sequence_failures(s: Sequence) -> Seq<SpecFailure>
    decreases s,
{
    with_prefix(
        seq![Segment::Field(Key::Transformations)],
        (if s.transformations@.len() == 0 {
            fail(Problem::EmptySequence)
        } else {
            seq![]
        }) + outer_list_failures(s.transformations@) + sequence_pair_failures(
            s.transformations@,
            s.transformations@.len() as int,
        ),
    )
}

/// The failures of an inverse, under its `transformation` field: the
/// wrapped child's own failures, then a failure if the child is
/// explicitly not invertible.
pub open spec fn inverse_of_failures(io: InverseOf) -> Seq<SpecFailure>
    decreases io,
{
    with_prefix(
        seq![Segment::Field(Key::Transformation)],
        outer_failures(*io.transformation) + (if outer_invertible(*io.transformation) == Some(
            false,
        ) {
            fail(Problem::NotInvertible)
        } else {
            seq![]
        }),
    )
}

/// The failures of a transformation, by kind.
pub open spec fn ct_failures(c: CoordinateTransform) -> Seq<SpecFailure>
    decreases c,
{
    match c {
        CoordinateTransform::Identity(_) => seq![],
        CoordinateTransform::MapAxis(m) => map_axis_failures(m),
        CoordinateTransform::Translation(_) => seq![],
        CoordinateTransform::Scale(s) => scale_failures(s),
        CoordinateTransform::Affine(a) => affine_failures(a),
        CoordinateTransform::Rotation(_) => seq![],
        CoordinateTransform::Sequence(s) => sequence_failures(s),
        CoordinateTransform::Displacements(_) => seq![],
        CoordinateTransform::Coordinates(_) => seq![],
        CoordinateTransform::InverseOf(io) => inverse_of_failures(io),
        CoordinateTransform::Bijection(b) => bijection_failures(b),
        CoordinateTransform::ByDimension(_) => seq![],
    }
}

/// The failures of a transformation with its declared systems: the
/// kind's own failures, then a mismatch between each declared
/// coordinate-system name and the inferred one.
pub open spec fn outer_failures(o: CoordinateTransformOuter) -> Seq<SpecFailure>
    decreases o,
{
    ct_failures(o.config) + (if sys_mismatch(opt_string_view(o.input), ct_input_system(o.config)) {
        fail_at(Segment::Field(Key::Input), Problem::MismatchedCoordinateSystems)
    } else {
        seq![]
    }) + (if sys_mismatch(opt_string_view(o.output), ct_output_system(o.config)) {
        fail_at(Segment::Field(Key::Output), Problem::MismatchedCoordinateSystems)
    } else {
        seq![]
    })
}

/// The failures of a list of transformations, each under its index.
pub open spec fn outer_list_failures(ts: Seq<CoordinateTransformOuter>) -> Seq<SpecFailure>
    decreases ts,
{
    if ts.len() == 0 {
        seq![]
    } else {
        outer_list_failures(ts.drop_last()) + with_prefix(
            seq![Segment::Index((ts.len() - 1) as usize)],
            outer_failures(ts.last()),
        )
    }
}

impl Validate for Identity {
    open spec fn spec_failures(&self) -> Seq<SpecFailure> {
        seq![]
    }

    fn validate_inner(&self, accum: &mut Accumulator) {
        proof {
            assert(final(accum).fails() =~= old(accum).fails() + with_prefix(
                old(accum).prefix@,
                self.spec_failures(),
            ));
        }
    }
}

impl Validate for Translation {
    open spec fn spec_failures(&self) -> Seq<SpecFailure> {
        seq![]
    }

    fn validate_inner(&self, accum: &mut Accumulator) {
        proof {
            assert(final(accum).fails() =~= old(accum).fails() + with_prefix(
                old(accum).prefix@,
                self.spec_failures(),
            ));
        }
    }
}

impl Validate for Rotation {
    open spec fn spec_failures(&self) -> Seq<SpecFailure> {
        seq![]
    }

    fn validate_inner(&self, accum: &mut Accumulator) {
        proof {
            assert(final(accum).fails() =~= old(accum).fails() + with_prefix(
                old(accum).prefix@,
                self.spec_failures(),
            ));
        }
    }
}

impl Validate for Coordinates {
    open spec fn spec_failures(&self) -> Seq<SpecFailure> {
        seq![]
    }

    fn validate_inner(&self, accum: &mut Accumulator) {
        proof {
            assert(final(accum).fails() =~= old(accum).fails() + with_prefix(
                old(accum).prefix@,
                self.spec_failures(),
            ));
        }
    }
}

impl Validate for Displacements {
    open spec fn spec_failures(&self) -> Seq<SpecFailure> {
        seq![]
    }

    fn validate_inner(&self, accum: &mut Accumulator) {
        proof {
            assert(final(accum).fails() =~= old(accum).fails() + with_prefix(
                old(accum).prefix@,
                self.spec_failures(),
            ));
        }
    }
}

impl Validate for ByDimension {
    open spec fn spec_failures(&self) -> Seq<SpecFailure> {
        seq![]
    }

    fn validate_inner(&self, accum: &mut Accumulator) {
        proof {
            assert(final(accum).fails() =~= old(accum).fails() + with_prefix(
                old(accum).prefix@,
                self.spec_failures(),
            ));
        }
    }
}

impl Validate for Scale {
    open spec fn spec_failures(&self) -> Seq<SpecFailure> {
        scale_failures(*self)
    }

    fn validate_inner(&self, accum: &mut Accumulator) {
        let ghost p = old(accum).prefix@;
        match self {
            Scale::Scale(v) => {
                accum.push_key(Segment::Field(Key::Scale));
                let ghost ps = accum.prefix@;
                let ghost base = accum.fails();
                let mut i: usize = 0;
                proof {
                    assert(base + with_prefix(ps, scale_values_failures(v@, 0)) =~= base);
                }
                while i < v.len()
                    invariant
                        0 <= i <= v@.len(),
                        accum.prefix@ == ps,
                        accum.fails() == base + with_prefix(ps, scale_values_failures(v@, i as int)),
                    decreases v@.len() - i,
                {
                    accum.push_key(Segment::Index(i));
                    if v[i].is_nan() {
                        accum.add_failure(Problem::ScaleNan);
                    }
                    if v[i].is_infinite() {
                        accum.add_failure(Problem::ScaleInfinite);
                    }
                    if v[i].lt_zero() {
                        accum.add_failure(Problem::ScaleNegative);
                    }
                    accum.pop_key();
                    proof {
                        assert(accum.prefix@ =~= ps);
                        assert(accum.fails() =~= base + with_prefix(
                            ps,
                            scale_values_failures(v@, i as int + 1),
                        ));
                    }
                    i = i + 1;
                }
                accum.pop_key();
                proof {
                    assert(accum.prefix@ =~= p);
                    lemma_with_prefix_nested(
                        p,
                        seq![Segment::Field(Key::Scale)],
                        scale_values_failures(v@, v@.len() as int),
                    );
                    assert(accum.fails() =~= old(accum).fails() + with_prefix(
                        p,
                        self.spec_failures(),
                    ));
                }
            },
            Scale::Path(_) => {
                proof {
                    assert(final(accum).fails() =~= old(accum).fails() + with_prefix(
                        p,
                        self.spec_failures(),
                    ));
                }
            },
        }
    }
}

impl Validate for MapAxis {
    open spec fn spec_failures(&self) -> Seq<SpecFailure> {
        map_axis_failures(*self)
    }

    fn validate_inner(&self, accum: &mut Accumulator) {
        let ghost p = old(accum).prefix@;
        let m = &self.map_axis;
        let n = m.len();
        accum.push_key(Segment::Field(Key::MapAxis));
        let ghost ps = accum.prefix@;
        let ghost base = accum.fails();
        let mut i: usize = 0;
        proof {
            assert(base + with_prefix(ps, map_axis_entries_failures(m@, 0)) =~= base);
        }
        while i < n
            invariant
                0 <= i <= m@.len(),
                n == m@.len(),
                accum.prefix@ == ps,
                accum.fails() == base + with_prefix(ps, map_axis_entries_failures(m@, i as int)),
            decreases n - i,
        {
            let mut repeated = false;
            let mut j: usize = 0;
            while j < i
                invariant
                    0 <= j <= i < m@.len(),
                    repeated == exists|k: int| 0 <= k < j && m@[k] == m@[i as int],
                decreases i - j,
            {
                if m[j] == m[i] {
                    repeated = true;
                }
                j = j + 1;
            }
            if repeated {
                accum.add_failure_at(Segment::Index(i), Problem::RepeatedInputAxis(m[i]));
            } else if m[i] >= n {
                accum.add_failure_at(Segment::Index(i), Problem::InputAxisDoesNotExist(m[i]));
            }
            proof {
                assert(accum.fails() =~= base + with_prefix(
                    ps,
                    map_axis_entries_failures(m@, i as int + 1),
                ));
            }
            i = i + 1;
        }
        let mut count: usize = 0;
        let mut v: usize = 0;
        while v < n
            invariant
                0 <= v <= n,
                n == m@.len(),
                count <= v,
                count == unmapped_count(m@, v as int),
                accum.prefix@ == ps,
                accum.fails() == base + with_prefix(
                    ps,
                    map_axis_entries_failures(m@, m@.len() as int),
                ),
            decreases n - v,
        {
            let mut mapped = false;
            let mut j: usize = 0;
            while j < n
                invariant
                    0 <= j <= n,
                    n == m@.len(),
                    mapped == exists|k: int| 0 <= k < j && m@[k] == v,
                decreases n - j,
            {
                if m[j] == v {
                    mapped = true;
                }
                j = j + 1;
            }
            if !mapped {
                count = count + 1;
            }
            v = v + 1;
        }
        if count > 0 {
            accum.add_failure(Problem::DidNotMapAxes(count));
        }
        accum.pop_key();
        proof {
            assert(accum.prefix@ =~= p);
            lemma_with_prefix_nested(
                p,
                seq![Segment::Field(Key::MapAxis)],
                map_axis_entries_failures(m@, m@.len() as int) + (if unmapped_count(
                    m@,
                    m@.len() as int,
                ) > 0 {
                    fail(Problem::DidNotMapAxes(unmapped_count(m@, m@.len() as int) as usize))
                } else {
                    seq![]
                }),
            );
            assert(accum.fails() =~= old(accum).fails() + with_prefix(p, self.spec_failures()));
        }
    }
}

impl Validate for Affine {
    open spec fn spec_failures(&self) -> Seq<SpecFailure> {
        affine_failures(*self)
    }

    fn validate_inner(&self, accum: &mut Accumulator) {
        let ghost p = old(accum).prefix@;
        match self {
            Affine::Affine(rows) => {
                accum.push_key(Segment::Field(Key::Affine));
                if rows.len() == 0 {
                    accum.add_failure(Problem::ZeroDimensionalOutput);
                }
                let mut empty_row = false;
                let mut ragged = false;
                let mut i: usize = 0;
                while i < rows.len()
                    invariant
                        0 <= i <= rows@.len(),
                        empty_row == exists|k: int| 0 <= k < i && (#[trigger] rows@[k])@.len()
                            == 0,
                        ragged == exists|k: int|
                            0 <= k < i && (#[trigger] rows@[k])@.len() != rows@[0]@.len(),
                    decreases rows@.len() - i,
                {
                    if rows[i].len() == 0 {
                        empty_row = true;
                    }
                    if rows[i].len() != rows[0].len() {
                        ragged = true;
                    }
                    i = i + 1;
                }
                proof {
                    if ragged {
                        assert(is_ragged(rows@));
                    }
                    if is_ragged(rows@) && rows@.len() > 0 {
                        let (a, b) = choose|a: int, b: int|
                            0 <= a < rows@.len() && 0 <= b < rows@.len() && rows@[a]@.len()
                                != rows@[b]@.len();
                        if rows@[a]@.len() == rows@[0]@.len() && rows@[b]@.len()
                            == rows@[0]@.len() {
                            assert(false);
                        }
                    }
                    assert(empty_row == has_empty_row(rows@));
                    assert(ragged == is_ragged(rows@));
                }
                if empty_row {
                    accum.add_failure(Problem::ZeroDimensionalInput);
                }
                if ragged {
                    accum.add_failure(Problem::RaggedMatrix);
                }
                accum.pop_key();
                proof {
                    assert(accum.prefix@ =~= p);
                    lemma_with_prefix_nested(
                        p,
                        seq![Segment::Field(Key::Affine)],
                        (if rows@.len() == 0 {
                            fail(Problem::ZeroDimensionalOutput)
                        } else {
                            seq![]
                        }) + (if has_empty_row(rows@) {
                            fail(Problem::ZeroDimensionalInput)
                        } else {
                            seq![]
                        }) + (if is_ragged(rows@) {
                            fail(Problem::RaggedMatrix)
                        } else {
                            seq![]
                        }),
                    );
                    assert(accum.fails() =~= old(accum).fails() + with_prefix(
                        p,
                        self.spec_failures(),
                    ));
                }
            },
            Affine::Path(_) => {
                proof {
                    assert(final(accum).fails() =~= old(accum).fails() + with_prefix(
                        p,
                        self.spec_failures(),
                    ));
                }
            },
        }
    }
}

/// Validate every child of a sequence, each under its index segment.
fn validate_outer_list(ts: &Vec<CoordinateTransformOuter>, accum: &mut Accumulator)
    ensures
        final(accum).prefix@ == old(accum).prefix@,
        final(accum).fails() == old(accum).fails() + with_prefix(
            old(accum).prefix@,
            outer_list_failures(ts@),
        ),
    decreases ts@,
{
    let ghost p = old(accum).prefix@;
    let mut i: usize = 0;
    proof {
        assert(ts@.take(0) =~= Seq::<CoordinateTransformOuter>::empty());
        assert(old(accum).fails() + with_prefix(p, outer_list_failures(ts@.take(0))) =~= old(
            accum,
        ).fails());
    }
    while i < ts.len()
        invariant
            0 <= i <= ts@.len(),
            accum.prefix@ == p,
            accum.fails() == old(accum).fails() + with_prefix(
                p,
                outer_list_failures(ts@.take(i as int)),
            ),
        decreases ts@.len() - i,
    {
        accum.push_key(Segment::Index(i));
        validate_outer(&ts[i], accum);
        accum.pop_key();
        proof {
            assert(accum.prefix@ =~= p);
            assert(ts@.take(i as int + 1).drop_last() =~= ts@.take(i as int));
            assert(ts@.take(i as int + 1).last() == ts@[i as int]);
            lemma_with_prefix_nested(
                p,
                seq![Segment::Index(i)],
                outer_failures(ts@[i as int]),
            );
            lemma_with_prefix_add(
                p,
                outer_list_failures(ts@.take(i as int)),
                with_prefix(seq![Segment::Index(i)], outer_failures(ts@[i as int])),
            );
            assert(accum.fails() =~= old(accum).fails() + with_prefix(
                p,
                outer_list_failures(ts@.take(i as int + 1)),
            ));
        }
        i = i + 1;
    }
    proof {
        assert(ts@.take(ts@.len() as int) =~= ts@);
    }
}

/// Validate a sequence: flag an empty list, validate each child, and
/// check consecutive children for composability.
fn validate_sequence(s: &Sequence, accum: &mut Accumulator)
    ensures
        final(accum).prefix@ == old(accum).prefix@,
        final(accum).fails() == old(accum).fails() + with_prefix(
            old(accum).prefix@,
            sequence_failures(*s),
        ),
    decreases *s,
{
    let ghost p = old(accum).prefix@;
    let ts = &s.transformations;
    accum.push_key(Segment::Field(Key::Transformations));
    let ghost ps = accum.prefix@;
    if ts.len() == 0 {
        accum.add_failure(Problem::EmptySequence);
    }
    validate_outer_list(ts, accum);
    let ghost base = accum.fails();
    let mut i: usize = 0;
    proof {
        assert(base + with_prefix(ps, sequence_pair_failures(ts@, 0)) =~= base);
    }
    while i < ts.len()
        invariant
            0 <= i <= ts@.len(),
            accum.prefix@ == ps,
            accum.fails() == base + with_prefix(ps, sequence_pair_failures(ts@, i as int)),
        decreases ts@.len() - i,
    {
        if matches!(&ts[i].config, CoordinateTransform::Sequence(_)) {
            accum.add_failure_at(Segment::Index(i), Problem::NestedSequence);
        }
        if i > 0 {
            let prev_out = outer_output_system_exec(&ts[i - 1]);
            let cur_in = outer_input_system_exec(&ts[i]);
            match (prev_out, cur_in) {
                (Some(a), Some(b)) => {
                    if !str_eq(a, b) {
                        accum.add_failure_at(Segment::Index(i), Problem::SequenceSystemMismatch);
                    }
                },
                _ => {},
            }
            let prev_dim = ct_output_ndim_exec(&ts[i - 1].config);
            let cur_dim = ct_input_ndim_exec(&ts[i].config);
            match (prev_dim, cur_dim) {
                (Some(a), Some(b)) => {
                    if a != b {
                        accum.add_failure_at(Segment::Index(i), Problem::SequenceDimMismatch);
                    }
                },
                _ => {},
            }
        }
        proof {
            assert(accum.fails() =~= base + with_prefix(
                ps,
                sequence_pair_failures(ts@, i as int + 1),
            ));
        }
        i = i + 1;
    }
    accum.pop_key();
    proof {
        assert(accum.prefix@ =~= p);
        lemma_with_prefix_nested(
            p,
            seq![Segment::Field(Key::Transformations)],
            (if ts@.len() == 0 {
                fail(Problem::EmptySequence)
            } else {
                seq![]
            }) + outer_list_failures(ts@) + sequence_pair_failures(ts@, ts@.len() as int),
        );
        assert(accum.fails() =~= old(accum).fails() + with_prefix(p, sequence_failures(*s)));
    }
}

/// Validate an inverse: the wrapped child's own failures, then a failure
/// if the child is explicitly not invertible.
fn validate_inverse_of(io: &InverseOf, accum: &mut Accumulator)
    ensures
        final(accum).prefix@ == old(accum).prefix@,
        final(accum).fails() == old(accum).fails() + with_prefix(
            old(accum).prefix@,
            inverse_of_failures(*io),
        ),
    decreases *io,
{
    let ghost p = old(accum).prefix@;
    accum.push_key(Segment::Field(Key::Transformation));
    validate_outer(&io.transformation, accum);
    let inv = ct_invertible_exec(&io.transformation.config);
    if matches!(inv, Some(false)) {
        accum.add_failure(Problem::NotInvertible);
    }
    accum.pop_key();
    proof {
        assert(accum.prefix@ =~= p);
        lemma_with_prefix_nested(
            p,
            seq![Segment::Field(Key::Transformation)],
            outer_failures(*io.transformation) + (if outer_invertible(*io.transformation)
                == Some(false) {
                fail(Problem::NotInvertible)
            } else {
                seq![]
            }),
        );
        assert(accum.fails() =~= old(accum).fails() + with_prefix(p, inverse_of_failures(*io)));
    }
}

/// Validate a bijection: the forward and inverse children must agree on
/// their coordinate systems, whenever determinable.
fn validate_bijection(b: &Bijection, accum: &mut Accumulator)
    ensures
        final(accum).prefix@ == old(accum).prefix@,
        final(accum).fails() == old(accum).fails() + with_prefix(
            old(accum).prefix@,
            bijection_failures(*b),
        ),
{
    let ghost p = old(accum).prefix@;
    accum.push_key(Segment::Field(Key::Inverse));
    match (outer_input_system_exec(&b.forward), outer_output_system_exec(&b.inverse)) {
        (Some(fwd), Some(inv)) => {
            if !str_eq(fwd, inv) {
                accum.add_failure(Problem::ForwardInputMismatch);
            }
        },
        _ => {},
    }
    match (outer_output_system_exec(&b.forward), outer_input_system_exec(&b.inverse)) {
        (Some(fwd), Some(inv)) => {
            if !str_eq(fwd, inv) {
                accum.add_failure(Problem::ForwardOutputMismatch);
            }
        },
        _ => {},
    }
    accum.pop_key();
    proof {
        assert(accum.prefix@ =~= p);
        lemma_with_prefix_nested(
            p,
            seq![Segment::Field(Key::Inverse)],
            (if sys_mismatch(outer_input_system(*b.forward), outer_output_system(*b.inverse)) {
                fail(Problem::ForwardInputMismatch)
            } else {
                seq![]
            }) + (if sys_mismatch(
                outer_output_system(*b.forward),
                outer_input_system(*b.inverse),
            ) {
                fail(Problem::ForwardOutputMismatch)
            } else {
                seq![]
            }),
        );
        assert(accum.fails() =~= old(accum).fails() + with_prefix(p, bijection_failures(*b)));
    }
}

/// Validate one transformation, by kind.
fn validate_ct(c: &CoordinateTransform, accum: &mut Accumulator)
    ensures
        final(accum).prefix@ == old(accum).prefix@,
        final(accum).fails() == old(accum).fails() + with_prefix(
            old(accum).prefix@,
            ct_failures(*c),
        ),
    decreases *c,
{
    match c {
        CoordinateTransform::Identity(t) => t.validate_inner(accum),
        CoordinateTransform::MapAxis(t) => t.validate_inner(accum),
        CoordinateTransform::Translation(t) => t.validate_inner(accum),
        CoordinateTransform::Scale(t) => t.validate_inner(accum),
        CoordinateTransform::Affine(t) => t.validate_inner(accum),
        CoordinateTransform::Rotation(t) => t.validate_inner(accum),
        CoordinateTransform::Sequence(t) => validate_sequence(t, accum),
        CoordinateTransform::Displacements(t) => t.validate_inner(accum),
        CoordinateTransform::Coordinates(t) => t.validate_inner(accum),
        CoordinateTransform::InverseOf(t) => validate_inverse_of(t, accum),
        CoordinateTransform::Bijection(t) => validate_bijection(t, accum),
        CoordinateTransform::ByDimension(t) => t.validate_inner(accum),
    }
}

/// Validate a transformation with its declared systems: the kind's own
/// failures, then each declared coordinate-system name against the
/// inferred one.
fn validate_outer(o: &CoordinateTransformOuter, accum: &mut Accumulator)
    ensures
        final(accum).prefix@ == old(accum).prefix@,
        final(accum).fails() == old(accum).fails() + with_prefix(
            old(accum).prefix@,
            outer_failures(*o),
        ),
    decreases *o,
{
    let ghost p = old(accum).prefix@;
    validate_ct(&o.config, accum);
    match (&o.input, ct_input_system_exec(&o.config)) {
        (Some(exp), Some(imp)) => {
            if !str_eq(exp.as_str(), imp) {
                accum.add_failure_at(
                    Segment::Field(Key::Input),
                    Problem::MismatchedCoordinateSystems,
                );
            }
        },
        _ => {},
    }
    match (&o.output, ct_output_system_exec(&o.config)) {
        (Some(exp), Some(imp)) => {
            if !str_eq(exp.as_str(), imp) {
                accum.add_failure_at(
                    Segment::Field(Key::Output),
                    Problem::MismatchedCoordinateSystems,
                );
            }
        },
        _ => {},
    }
    proof {
        assert(accum.fails() =~= old(accum).fails() + with_prefix(p, outer_failures(*o)));
    }
}

impl Validate for Sequence {
    open spec fn spec_failures(&self) -> Seq<SpecFailure> {
        sequence_failures(*self)
    }

    fn validate_inner(&self, accum: &mut Accumulator) {
        validate_sequence(self, accum);
    }
}

impl Validate for InverseOf {
    open spec fn spec_failures(&self) -> Seq<SpecFailure> {
        inverse_of_failures(*self)
    }

    fn validate_inner(&self, accum: &mut Accumulator) {
        validate_inverse_of(self, accum);
    }
}

impl Validate for Bijection {
    open spec fn spec_failures(&self) -> Seq<SpecFailure> {
        bijection_failures(*self)
    }

    fn validate_inner(&self, accum: &mut Accumulator) {
        validate_bijection(self, accum);
    }
}

impl Validate for CoordinateTransform {
    open spec fn spec_failures(&self) -> Seq<SpecFailure> {
        ct_failures(*self)
    }

    fn validate_inner(&self, accum: &mut Accumulator) {
        validate_ct(self, accum);
    }
}

impl Validate for CoordinateTransformOuter {
    open spec fn spec_failures(&self) -> Seq<SpecFailure> {
        outer_failures(*self)
    }

    fn validate_inner(&self, accum: &mut Accumulator) {
        validate_outer(self, accum);
    }
}

} // verus!
