//! Path-scoped, non-short-circuiting collection of validation failures.
//!
//! An [`Accumulator`] holds the path prefix currently being validated and a
//! growing list of [`Failure`]s. Validators push a path segment, check their
//! fields, recurse into members, and pop the segment again; a single pass
//! collects every reachable rule violation in document order.

use vstd::prelude::*;

use crate::text::{dec_rep, u64_to_string};

verus! {

/// A field name that can appear in a failure path.
///
/// The set of field names is closed because the schemas are fixed; keeping
/// them as an enum lets failure paths be compared structurally.
#[derive(Clone, Copy, Debug, PartialEq, Eq, Structural)]
pub enum Key {
    Input,
    Output,
    Inverse,
    Transformation,
    Transformations,
    MapAxis,
    Scale,
    Affine,
    Axes,
    Datasets,
    CoordinateTransformations,
    Multiscales,
    ImageLabel,
    Plate,
    Omero,
    Ome,
    Attributes,
    Acquisitions,
    Id,
    Columns,
    Rows,
    Wells,
    Name,
    ColumnIndex,
    RowIndex,
    Path,
    Endtime,
    Colors,
    Properties,
    Channels,
    Window,
    Max,
    End,
}

/// One step of a failure path: a field name or a list index.
#[derive(Clone, Copy, Debug, PartialEq, Eq, Structural)]
pub enum Segment {
    /// A named field of an object.
    Field(Key),
    /// An index into a list.
    Index(usize),
}

/// What went wrong, with the values needed to describe it.
///
/// Failures are kept structured so that contracts can speak about them
/// exactly; [`Problem::message`] renders the human-readable text.
#[derive(Clone, Debug)]
pub enum Problem {
    InconsistentDimensionality { got: usize, expected: usize },
    ZeroDimensionalOutput,
    ZeroDimensionalInput,
    RaggedMatrix,
    ForwardInputMismatch,
    ForwardOutputMismatch,
    NotInvertible,
    RepeatedInputAxis(usize),
    InputAxisDoesNotExist(usize),
    DidNotMapAxes(usize),
    ScaleNan,
    ScaleInfinite,
    ScaleNegative,
    EmptySequence,
    NestedSequence,
    SequenceSystemMismatch,
    SequenceDimMismatch,
    MismatchedCoordinateSystems,
    SpaceUnitForNonSpaceAxis,
    TimeUnitForNonTimeAxis,
    DuplicateAxisName(String),
    WrongAxisCount(usize),
    TooManySpaceAxes(usize),
    UnexpectedTimeAxis,
    UnexpectedChannelAxis,
    TooFewSpaceAxes(usize),
    EmptyMultiscaleDatasets,
    IdentityNotAllowed,
    TranslationBeforeScale,
    MultipleTranslations,
    MultipleScales,
    ScaleAfterTranslation,
    NoScaleTransformation,
    EmptyMultiscales,
    NotUniqueId(u64),
    NotUniqueName(String),
    ColumnIndexDoesNotExist(usize),
    RowIndexDoesNotExist(usize),
    NoRowName,
    RowNameMismatch,
    NoColumnName,
    ColumnNameMismatch,
    TooManyPathComponents,
    NotAlphanumeric(String),
    EndBeforeStart,
    Empty,
    RepeatedLabel(u64),
    WindowMaxLessThanMin,
    WindowEndBeforeStart,
}

/// One collected failure: where it was found and what went wrong.
#[derive(Clone, Debug)]
pub struct Failure {
    /// Path from the document root to the offending value.
    pub path: Vec<Segment>,
    /// The rule that was broken.
    pub problem: Problem,
}

/// Mathematical model of a [`Failure`].
#[verifier::ext_equal]
pub struct SpecFailure {
    pub path: Seq<Segment>,
    pub problem: Problem,
}

impl View for Failure {
    type V = SpecFailure;

    open spec fn view(&self) -> SpecFailure {
        SpecFailure { path: self.path@, problem: self.problem }
    }
}

/// One failure at the current position.
pub open spec fn fail(problem: Problem) -> Seq<SpecFailure> {
    seq![SpecFailure { path: seq![], problem }]
}

/// One failure one segment below the current position.
pub open spec fn fail_at(seg: Segment, problem: Problem) -> Seq<SpecFailure> {
    seq![SpecFailure { path: seq![seg], problem }]
}

/// Prepend `prefix` to the path of every failure in `fs`.
pub open spec fn with_prefix(prefix: Seq<Segment>, fs: Seq<SpecFailure>) -> Seq<SpecFailure> {
    fs.map_values(|f: SpecFailure| SpecFailure { path: prefix + f.path, problem: f.problem })
}

/// An empty prefix leaves every failure's path unchanged.
pub proof fn lemma_with_prefix_id(fs: Seq<SpecFailure>)
    ensures
        with_prefix(Seq::<Segment>::empty(), fs) == fs,
{
    assert forall|i: int| 0 <= i < fs.len() implies with_prefix(Seq::<Segment>::empty(), fs)[i]
        == fs[i] by {
        assert(Seq::<Segment>::empty() + fs[i].path =~= fs[i].path);
    }
    assert(with_prefix(Seq::<Segment>::empty(), fs) =~= fs);
}

pub proof fn lemma_with_prefix_empty(prefix: Seq<Segment>)
    ensures
        with_prefix(prefix, Seq::<SpecFailure>::empty()) == Seq::<SpecFailure>::empty(),
{
    assert(with_prefix(prefix, Seq::<SpecFailure>::empty()) =~= Seq::<SpecFailure>::empty());
}

pub proof fn lemma_with_prefix_add(prefix: Seq<Segment>, a: Seq<SpecFailure>, b: Seq<SpecFailure>)
    ensures
        with_prefix(prefix, a + b) == with_prefix(prefix, a) + with_prefix(prefix, b),
{
    assert(with_prefix(prefix, a + b) =~= with_prefix(prefix, a) + with_prefix(prefix, b));
}

pub proof fn lemma_with_prefix_nested(p: Seq<Segment>, q: Seq<Segment>, fs: Seq<SpecFailure>)
    ensures
        with_prefix(p, with_prefix(q, fs)) == with_prefix(p + q, fs),
{
    assert forall|i: int| 0 <= i < fs.len() implies with_prefix(p, with_prefix(q, fs))[i]
        == with_prefix(p + q, fs)[i] by {
        assert((p + q) + fs[i].path =~= p + (q + fs[i].path));
    }
    assert(with_prefix(p, with_prefix(q, fs)) =~= with_prefix(p + q, fs));
}

/// Collects validation failures under a current path prefix.
///
/// Created once per top-level validation call; the prefix is pushed and
/// popped in a strictly scoped fashion, and failures are only appended,
/// never dropped or reordered.
pub struct Accumulator {
    /// Path segments leading to the value currently being validated.
    pub prefix: Vec<Segment>,
    /// Every failure found so far, in document order.
    pub failures: Vec<Failure>,
}

impl Accumulator {
    /// The failures collected so far, as their mathematical models.
    pub open spec fn fails(&self) -> Seq<SpecFailure> {
        self.failures@.map_values(|f: Failure| f@)
    }

    /// A fresh accumulator with an empty prefix and no failures.
    pub fn new() -> (r: Accumulator)
        ensures
            r.prefix@ == Seq::<Segment>::empty(),
            r.fails() == Seq::<SpecFailure>::empty(),
    {
        let r = Accumulator { prefix: Vec::new(), failures: Vec::new() };
        proof {
            assert(r.fails() =~= Seq::<SpecFailure>::empty());
        }
        r
    }

    /// Enter the scope of one path segment.
    pub fn push_key(&mut self, seg: Segment)
        ensures
            final(self).prefix@ == old(self).prefix@ + seq![seg],
            final(self).fails() == old(self).fails(),
    {
        self.prefix.push(seg);
    }

    /// Leave the scope entered by the matching [`Accumulator::push_key`].
    pub fn pop_key(&mut self)
        requires
            old(self).prefix@.len() > 0,
        ensures
            final(self).prefix@ == old(self).prefix@.drop_last(),
            final(self).fails() == old(self).fails(),
    {
        self.prefix.pop();
    }

    /// Record a failure at the current path.
    pub fn add_failure(&mut self, problem: Problem)
        ensures
            final(self).prefix@ == old(self).prefix@,
            final(self).fails() == old(self).fails() + seq![
                SpecFailure { path: old(self).prefix@, problem },
            ],
    {
        let path = self.prefix.clone();
        let ghost before = self.fails();
        self.failures.push(Failure { path, problem });
        proof {
            assert(self.fails() =~= before + seq![
                SpecFailure { path: old(self).prefix@, problem },
            ]);
        }
    }

    /// Record a failure one segment below the current path.
    pub fn add_failure_at(&mut self, seg: Segment, problem: Problem)
        ensures
            final(self).prefix@ == old(self).prefix@,
            final(self).fails() == old(self).fails() + seq![
                SpecFailure { path: old(self).prefix@ + seq![seg], problem },
            ],
    {
        let mut path = self.prefix.clone();
        path.push(seg);
        proof {
            assert(path@ =~= old(self).prefix@ + seq![seg]);
        }
        let ghost before = self.fails();
        self.failures.push(Failure { path, problem });
        proof {
            assert(self.fails() =~= before + seq![
                SpecFailure { path: old(self).prefix@ + seq![seg], problem },
            ]);
        }
    }
}

/// A value whose consistency rules can be checked.
///
/// [`Validate::spec_failures`] is the mathematical statement of exactly
/// which failures the value contains, in order, relative to the value's
/// own position; [`Validate::validate_inner`] is the checker, whose
/// contract ties it to that statement.
pub trait Validate {
    /// The failures this value contains, with paths relative to the value.
    spec fn spec_failures(&self) -> Seq<SpecFailure>;

    /// Append this value's failures, under the accumulator's current prefix.
    fn validate_inner(&self, accum: &mut Accumulator)
        ensures
            final(accum).prefix@ == old(accum).prefix@,
            final(accum).fails() == old(accum).fails() + with_prefix(
                old(accum).prefix@,
                self.spec_failures(),
            ),
    ;
}

/// The failures of a list of values, each under its index segment.
pub open spec fn seq_failures<T: Validate>(items: Seq<T>) -> Seq<SpecFailure>
    decreases items.len(),
{
    if items.len() == 0 {
        Seq::empty()
    } else {
        seq_failures(items.drop_last()) + with_prefix(
            seq![Segment::Index((items.len() - 1) as usize)],
            items.last().spec_failures(),
        )
    }
}

/// A list of values, none of which contains a failure, contains none.
pub proof fn lemma_seq_failures_all_empty<T: Validate>(items: Seq<T>)
    requires
        forall|i: int| 0 <= i < items.len() ==> (#[trigger] items[i]).spec_failures().len() == 0,
    ensures
        seq_failures(items).len() == 0,
    decreases items.len(),
{
    if items.len() > 0 {
        lemma_seq_failures_all_empty(items.drop_last());
        assert(items.last().spec_failures().len() == 0);
    }
}

proof fn lemma_seq_failures_take_step<T: Validate>(items: Seq<T>, i: int)
    requires
        0 <= i < items.len(),
    ensures
        seq_failures(items.take(i + 1)) == seq_failures(items.take(i)) + with_prefix(
            seq![Segment::Index(i as usize)],
            items[i].spec_failures(),
        ),
{
    assert(items.take(i + 1).drop_last() =~= items.take(i));
    assert(items.take(i + 1).last() == items[i]);
}

impl Accumulator {
    /// Validate one member under the given path segment.
    pub fn validate_member_at<T: Validate>(&mut self, seg: Segment, member: &T)
        ensures
            final(self).prefix@ == old(self).prefix@,
            final(self).fails() == old(self).fails() + with_prefix(
                old(self).prefix@ + seq![seg],
                member.spec_failures(),
            ),
    {
        self.push_key(seg);
        member.validate_inner(self);
        self.pop_key();
        proof {
            assert(self.prefix@ =~= old(self).prefix@);
        }
    }

    /// Validate every item of a list, each under its index segment.
    pub fn validate_iter<T: Validate>(&mut self, items: &Vec<T>)
        ensures
            final(self).prefix@ == old(self).prefix@,
            final(self).fails() == old(self).fails() + with_prefix(
                old(self).prefix@,
                seq_failures(items@),
            ),
    {
        let ghost p = self.prefix@;
        let mut i: usize = 0;
        proof {
            assert(items@.take(0) =~= Seq::<T>::empty());
            lemma_with_prefix_empty(p);
        }
        while i < items.len()
            invariant
                0 <= i <= items@.len(),
                self.prefix@ == p,
                self.fails() == old(self).fails() + with_prefix(p, seq_failures(items@.take(i as int))),
            decreases items@.len() - i,
        {
            let ghost fails_before = self.fails();
            self.validate_member_at(Segment::Index(i), &items[i]);
            proof {
                lemma_seq_failures_take_step(items@, i as int);
                lemma_with_prefix_nested(p, seq![Segment::Index(i)], items@[i as int].spec_failures());
                lemma_with_prefix_add(
                    p,
                    seq_failures(items@.take(i as int)),
                    with_prefix(seq![Segment::Index(i)], items@[i as int].spec_failures()),
                );
                assert(self.fails() =~= old(self).fails() + with_prefix(
                    p,
                    seq_failures(items@.take(i as int + 1)),
                ));
            }
            i = i + 1;
        }
        proof {
            assert(items@.take(items@.len() as int) =~= items@);
        }
    }
}

/// Run a value's validation from a fresh accumulator: a success marker
/// when every rule holds, else every collected failure, in document
/// order.
pub fn run_validation<T: Validate>(value: &T) -> (r: Result<(), Vec<Failure>>)
    ensures
        match r {
            Ok(_) => value.spec_failures().len() == 0,
            Err(fs) => {
                &&& fs@.map_values(|f: Failure| f@) == value.spec_failures()
                &&& value.spec_failures().len() > 0
            },
        },
{
    let mut accum = Accumulator::new();
    value.validate_inner(&mut accum);
    proof {
        lemma_with_prefix_id(value.spec_failures());
        assert(accum.fails() =~= value.spec_failures());
    }
    if accum.failures.len() == 0 {
        proof {
            assert(accum.fails().len() == accum.failures@.len());
        }
        Ok(())
    } else {
        let fs = accum.failures;
        Err(fs)
    }
}

/// The text of a problem, as a failure report prints it.
pub open spec fn problem_message(p: Problem) -> Seq<char> {
    match p {
        Problem::InconsistentDimensionality { got, expected } => "inconsistent dimensionality: got "@ + dec_rep(got as nat) + "D, expected "@ + dec_rep(expected as nat) + "D"@,
        Problem::ZeroDimensionalOutput => "zero-dimensional output"@,
        Problem::ZeroDimensionalInput => "zero-dimensional input"@,
        Problem::RaggedMatrix => "ragged matrix"@,
        Problem::ForwardInputMismatch => "forward input and inverse output coordinate systems do not match"@,
        Problem::ForwardOutputMismatch => "forward output and inverse input coordinate systems do not match"@,
        Problem::NotInvertible => "not invertible"@,
        Problem::RepeatedInputAxis(v) => "repeated input axis "@ + dec_rep(v as nat),
        Problem::InputAxisDoesNotExist(v) => "input axis "@ + dec_rep(v as nat) + " does not exist"@,
        Problem::DidNotMapAxes(n) => "did not map "@ + dec_rep(n as nat) + " axes"@,
        Problem::ScaleNan => "scale value is NaN"@,
        Problem::ScaleInfinite => "scale value is infinite"@,
        Problem::ScaleNegative => "scale value is negative"@,
        Problem::EmptySequence => "empty sequence of transformations"@,
        Problem::NestedSequence => "sequences cannot contain sequences"@,
        Problem::SequenceSystemMismatch => "input coordinate system does not match previous transformation's output"@,
        Problem::SequenceDimMismatch => "input dimensionality does not match previous transformation's output dimensionality"@,
        Problem::MismatchedCoordinateSystems => "mismatched coordinate systems"@,
        Problem::SpaceUnitForNonSpaceAxis => "got space unit for non-space axis"@,
        Problem::TimeUnitForNonTimeAxis => "got time unit for non-time axis"@,
        Problem::DuplicateAxisName(s) => "duplicate axis name '"@ + s@ + "'"@,
        Problem::WrongAxisCount(n) => "got "@ + dec_rep(n as nat) + " axes, expected 2-5"@,
        Problem::TooManySpaceAxes(n) => "at least "@ + dec_rep(n as nat) + " space axes, should be max 3"@,
        Problem::UnexpectedTimeAxis => "unexpected time axis"@,
        Problem::UnexpectedChannelAxis => "unexpected channel/custom/unknown axis"@,
        Problem::TooFewSpaceAxes(n) => "got "@ + dec_rep(n as nat) + " space axes, expected 2-3"@,
        Problem::EmptyMultiscaleDatasets => "empty multiscale datasets"@,
        Problem::IdentityNotAllowed => "identity transform cannot be used here"@,
        Problem::TranslationBeforeScale => "translation before scale transformation"@,
        Problem::MultipleTranslations => "multiple translation transformations"@,
        Problem::MultipleScales => "multiple scale transformations"@,
        Problem::ScaleAfterTranslation => "scale after translation transformation"@,
        Problem::NoScaleTransformation => "no scale transformation"@,
        Problem::EmptyMultiscales => "empty multiscales"@,
        Problem::NotUniqueId(id) => "not unique: "@ + dec_rep(id as nat),
        Problem::NotUniqueName(s) => "not unique: "@ + s@,
        Problem::ColumnIndexDoesNotExist(i) => "column index "@ + dec_rep(i as nat) + " does not exist"@,
        Problem::RowIndexDoesNotExist(i) => "row index "@ + dec_rep(i as nat) + " does not exist"@,
        Problem::NoRowName => "no row name"@,
        Problem::RowNameMismatch => "row name does not match row index"@,
        Problem::NoColumnName => "no column name"@,
        Problem::ColumnNameMismatch => "column name does not match column index"@,
        Problem::TooManyPathComponents => "too many path components"@,
        Problem::NotAlphanumeric(s) => "not alphanumeric: "@ + s@,
        Problem::EndBeforeStart => "before starttime"@,
        Problem::Empty => "empty"@,
        Problem::RepeatedLabel(l) => "repeated label "@ + dec_rep(l as nat),
        Problem::WindowMaxLessThanMin => "less than min"@,
        Problem::WindowEndBeforeStart => "before start"@,
    }
}

impl Problem {
    /// Write the text of the problem.
    pub fn message(&self) -> (r: String)
        ensures
            r@ == problem_message(*self),
    {
        let r = match self {
            Problem::InconsistentDimensionality { got, expected } => String::from_str("inconsistent dimensionality: got ").concat(u64_to_string(*got as u64).as_str()).concat("D, expected ").concat(u64_to_string(*expected as u64).as_str()).concat("D"),
            Problem::ZeroDimensionalOutput => String::from_str("zero-dimensional output"),
            Problem::ZeroDimensionalInput => String::from_str("zero-dimensional input"),
            Problem::RaggedMatrix => String::from_str("ragged matrix"),
            Problem::ForwardInputMismatch => String::from_str("forward input and inverse output coordinate systems do not match"),
            Problem::ForwardOutputMismatch => String::from_str("forward output and inverse input coordinate systems do not match"),
            Problem::NotInvertible => String::from_str("not invertible"),
            Problem::RepeatedInputAxis(v) => String::from_str("repeated input axis ").concat(u64_to_string(*v as u64).as_str()),
            Problem::InputAxisDoesNotExist(v) => String::from_str("input axis ").concat(u64_to_string(*v as u64).as_str()).concat(" does not exist"),
            Problem::DidNotMapAxes(n) => String::from_str("did not map ").concat(u64_to_string(*n as u64).as_str()).concat(" axes"),
            Problem::ScaleNan => String::from_str("scale value is NaN"),
            Problem::ScaleInfinite => String::from_str("scale value is infinite"),
            Problem::ScaleNegative => String::from_str("scale value is negative"),
            Problem::EmptySequence => String::from_str("empty sequence of transformations"),
            Problem::NestedSequence => String::from_str("sequences cannot contain sequences"),
            Problem::SequenceSystemMismatch => String::from_str("input coordinate system does not match previous transformation's output"),
            Problem::SequenceDimMismatch => String::from_str("input dimensionality does not match previous transformation's output dimensionality"),
            Problem::MismatchedCoordinateSystems => String::from_str("mismatched coordinate systems"),
            Problem::SpaceUnitForNonSpaceAxis => String::from_str("got space unit for non-space axis"),
            Problem::TimeUnitForNonTimeAxis => String::from_str("got time unit for non-time axis"),
            Problem::DuplicateAxisName(s) => String::from_str("duplicate axis name '").concat(s.as_str()).concat("'"),
            Problem::WrongAxisCount(n) => String::from_str("got ").concat(u64_to_string(*n as u64).as_str()).concat(" axes, expected 2-5"),
            Problem::TooManySpaceAxes(n) => String::from_str("at least ").concat(u64_to_string(*n as u64).as_str()).concat(" space axes, should be max 3"),
            Problem::UnexpectedTimeAxis => String::from_str("unexpected time axis"),
            Problem::UnexpectedChannelAxis => String::from_str("unexpected channel/custom/unknown axis"),
            Problem::TooFewSpaceAxes(n) => String::from_str("got ").concat(u64_to_string(*n as u64).as_str()).concat(" space axes, expected 2-3"),
            Problem::EmptyMultiscaleDatasets => String::from_str("empty multiscale datasets"),
            Problem::IdentityNotAllowed => String::from_str("identity transform cannot be used here"),
            Problem::TranslationBeforeScale => String::from_str("translation before scale transformation"),
            Problem::MultipleTranslations => String::from_str("multiple translation transformations"),
            Problem::MultipleScales => String::from_str("multiple scale transformations"),
            Problem::ScaleAfterTranslation => String::from_str("scale after translation transformation"),
            Problem::NoScaleTransformation => String::from_str("no scale transformation"),
            Problem::EmptyMultiscales => String::from_str("empty multiscales"),
            Problem::NotUniqueId(id) => String::from_str("not unique: ").concat(u64_to_string(*id as u64).as_str()),
            Problem::NotUniqueName(s) => String::from_str("not unique: ").concat(s.as_str()),
            Problem::ColumnIndexDoesNotExist(i) => String::from_str("column index ").concat(u64_to_string(*i as u64).as_str()).concat(" does not exist"),
            Problem::RowIndexDoesNotExist(i) => String::from_str("row index ").concat(u64_to_string(*i as u64).as_str()).concat(" does not exist"),
            Problem::NoRowName => String::from_str("no row name"),
            Problem::RowNameMismatch => String::from_str("row name does not match row index"),
            Problem::NoColumnName => String::from_str("no column name"),
            Problem::ColumnNameMismatch => String::from_str("column name does not match column index"),
            Problem::TooManyPathComponents => String::from_str("too many path components"),
            Problem::NotAlphanumeric(s) => String::from_str("not alphanumeric: ").concat(s.as_str()),
            Problem::EndBeforeStart => String::from_str("before starttime"),
            Problem::Empty => String::from_str("empty"),
            Problem::RepeatedLabel(l) => String::from_str("repeated label ").concat(u64_to_string(*l as u64).as_str()),
            Problem::WindowMaxLessThanMin => String::from_str("less than min"),
            Problem::WindowEndBeforeStart => String::from_str("before start"),
        };
        proof {
            assert(r@ =~= problem_message(*self));
        }
        r
    }
}

/// The field name a key renders as.
pub open spec fn key_name(k: Key) -> Seq<char> {
    match k {
        Key::Input => "input"@,
        Key::Output => "output"@,
        Key::Inverse => "inverse"@,
        Key::Transformation => "transformation"@,
        Key::Transformations => "transformations"@,
        Key::MapAxis => "mapAxis"@,
        Key::Scale => "scale"@,
        Key::Affine => "affine"@,
        Key::Axes => "axes"@,
        Key::Datasets => "datasets"@,
        Key::CoordinateTransformations => "coordinateTransformations"@,
        Key::Multiscales => "multiscales"@,
        Key::ImageLabel => "imageLabel"@,
        Key::Plate => "plate"@,
        Key::Omero => "omero"@,
        Key::Ome => "ome"@,
        Key::Attributes => "attributes"@,
        Key::Acquisitions => "acquisitions"@,
        Key::Id => "id"@,
        Key::Columns => "columns"@,
        Key::Rows => "rows"@,
        Key::Wells => "wells"@,
        Key::Name => "name"@,
        Key::ColumnIndex => "columnIndex"@,
        Key::RowIndex => "rowIndex"@,
        Key::Path => "path"@,
        Key::Endtime => "endtime"@,
        Key::Colors => "colors"@,
        Key::Properties => "properties"@,
        Key::Channels => "channels"@,
        Key::Window => "window"@,
        Key::Max => "max"@,
        Key::End => "end"@,
    }
}

impl Key {
    /// Write the field name.
    pub fn name(&self) -> (r: &'static str)
        ensures
            r@ == key_name(*self),
    {
        match self {
            Key::Input => "input",
            Key::Output => "output",
            Key::Inverse => "inverse",
            Key::Transformation => "transformation",
            Key::Transformations => "transformations",
            Key::MapAxis => "mapAxis",
            Key::Scale => "scale",
            Key::Affine => "affine",
            Key::Axes => "axes",
            Key::Datasets => "datasets",
            Key::CoordinateTransformations => "coordinateTransformations",
            Key::Multiscales => "multiscales",
            Key::ImageLabel => "imageLabel",
            Key::Plate => "plate",
            Key::Omero => "omero",
            Key::Ome => "ome",
            Key::Attributes => "attributes",
            Key::Acquisitions => "acquisitions",
            Key::Id => "id",
            Key::Columns => "columns",
            Key::Rows => "rows",
            Key::Wells => "wells",
            Key::Name => "name",
            Key::ColumnIndex => "columnIndex",
            Key::RowIndex => "rowIndex",
            Key::Path => "path",
            Key::Endtime => "endtime",
            Key::Colors => "colors",
            Key::Properties => "properties",
            Key::Channels => "channels",
            Key::Window => "window",
            Key::Max => "max",
            Key::End => "end",
        }
    }
}

/// The text of one path segment: the field name, or the index in
/// decimal.
pub open spec fn segment_string(s: Segment) -> Seq<char> {
    match s {
        Segment::Field(k) => key_name(k),
        Segment::Index(i) => dec_rep(i as nat),
    }
}

impl Segment {
    /// Write the text of the segment.
    pub fn render(&self) -> (r: String)
        ensures
            r@ == segment_string(*self),
    {
        match self {
            Segment::Field(k) => String::from_str(k.name()),
            Segment::Index(i) => u64_to_string(*i as u64),
        }
    }
}

/// The dotted text of a failure path.
pub open spec fn path_string(segs: Seq<Segment>) -> Seq<char>
    decreases segs.len(),
{
    if segs.len() == 0 {
        Seq::empty()
    } else if segs.len() == 1 {
        segment_string(segs[0])
    } else {
        path_string(segs.drop_last()) + "."@ + segment_string(segs.last())
    }
}

impl Failure {
    /// Write the dotted path of the failure.
    pub fn path_string(&self) -> (r: String)
        ensures
            r@ == path_string(self.path@),
    {
        let mut out = String::new();
        let mut i: usize = 0;
        proof {
            assert(self.path@.take(0) =~= Seq::<Segment>::empty());
        }
        while i < self.path.len()
            invariant
                0 <= i <= self.path@.len(),
                out@ == path_string(self.path@.take(i as int)),
            decreases self.path@.len() - i,
        {
            if i > 0 {
                out.append(".");
            }
            let seg = self.path[i].render();
            out.append(seg.as_str());
            proof {
                assert(self.path@.take(i as int + 1).drop_last() =~= self.path@.take(i as int));
                assert(self.path@.take(i as int + 1).last() == self.path@[i as int]);
                if i == 0 {
                    assert(out@ =~= path_string(self.path@.take(i as int + 1)));
                } else {
                    assert(out@ =~= path_string(self.path@.take(i as int + 1)));
                }
            }
            i = i + 1;
        }
        proof {
            assert(self.path@.take(self.path@.len() as int) =~= self.path@);
        }
        out
    }

    /// Write the failure as its path, a separator, and its message.
    pub fn render(&self) -> (r: String)
        ensures
            r@ == path_string(self.path@) + ": "@ + problem_message(self.problem),
    {
        let path = self.path_string();
        let msg = self.problem.message();
        let r = path.concat(": ").concat(msg.as_str());
        proof {
            assert(r@ =~= path_string(self.path@) + ": "@ + problem_message(self.problem));
        }
        r
    }
}

} // verus!
