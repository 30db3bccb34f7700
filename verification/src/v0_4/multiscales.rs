//! "multiscales" metadata: one logical image at several resolution levels.

use vstd::prelude::*;

use crate::json::JsonValue;
use crate::ndim::{MaybeNDim, ndim_failures, validate_ndims};
use crate::v0_4::axes::{Axis, axes_policy_failures, valid_axes};
use crate::v0_4::coordinate_transformations::CoordinateTransform;
use crate::validation::{
    Accumulator, Key, Problem, Segment, SpecFailure, Validate, fail, fail_at,
    lemma_with_prefix_add, lemma_with_prefix_nested, seq_failures, with_prefix,
};

verus! {

/// Whether some transformation before index `i` is a scale.
pub open spec fn has_scale_before(cts: Seq<CoordinateTransform>, i: int) -> bool {
    exists|j: int| 0 <= j < i && cts[j] is Scale
}

/// Whether some transformation before index `i` is a translation.
pub open spec fn has_translation_before(cts: Seq<CoordinateTransform>, i: int) -> bool {
    exists|j: int| 0 <= j < i && cts[j] is Translation
}

/// The chain-shape failures that the transformation at index `i`
/// triggers: an identity anywhere, a repeated scale or translation, or a
/// translation standing before the scale.
pub open spec fn chain_entry_failures(cts: Seq<CoordinateTransform>, i: int) -> Seq<SpecFailure> {
    match cts[i] {
        CoordinateTransform::Identity => fail_at(
            Segment::Index(i as usize),
            Problem::IdentityNotAllowed,
        ),
        CoordinateTransform::Translation(_) => (if !has_scale_before(cts, i) {
            fail_at(Segment::Index(i as usize), Problem::TranslationBeforeScale)
        } else {
            seq![]
        }) + (if has_translation_before(cts, i) {
            fail_at(Segment::Index(i as usize), Problem::MultipleTranslations)
        } else {
            seq![]
        }),
        CoordinateTransform::Scale(_) => (if has_scale_before(cts, i) {
            fail_at(Segment::Index(i as usize), Problem::MultipleScales)
        } else {
            seq![]
        }) + (if has_translation_before(cts, i) {
            fail_at(Segment::Index(i as usize), Problem::ScaleAfterTranslation)
        } else {
            seq![]
        }),
    }
}

/// The chain-shape failures of the first `n` transformations.
pub open spec fn chain_failures(cts: Seq<CoordinateTransform>, n: int) -> Seq<SpecFailure>
    decreases n,
{
    if n <= 0 {
        seq![]
    } else {
        chain_failures(cts, n - 1) + chain_entry_failures(cts, n - 1)
    }
}

/// Whether the chain holds any scale at all.
pub open spec fn has_any_scale(cts: Seq<CoordinateTransform>) -> bool {
    exists|j: int| 0 <= j < cts.len() && cts[j] is Scale
}

/// Every failure of one transformation chain: dimensionality agreement,
/// the chain shape (one scale, then at most one translation, no
/// identity), and the demand for a scale.
pub open spec fn transforms_failures(
    expected: Option<usize>,
    cts: Seq<CoordinateTransform>,
) -> Seq<SpecFailure> {
    ndim_failures(expected, cts) + chain_failures(cts, cts.len() as int) + (if !has_any_scale(
        cts,
    ) {
        fail(Problem::NoScaleTransformation)
    } else {
        seq![]
    })
}

proof fn lemma_chain_failures_empty(cts: Seq<CoordinateTransform>, n: int)
    requires
        0 <= n <= cts.len(),
    ensures
        chain_failures(cts, n).len() == 0 <==> (forall|i: int|
            0 <= i < n ==> #[trigger] chain_entry_failures(cts, i).len() == 0),
    decreases n,
{
    if n > 0 {
        lemma_chain_failures_empty(cts, n - 1);
    }
}

/// Law: a chain passes the shape rules exactly when it is one scale,
/// optionally followed by one translation.
pub proof fn lemma_chain_conform(cts: Seq<CoordinateTransform>)
    ensures
        (chain_failures(cts, cts.len() as int).len() == 0 && has_any_scale(cts)) <==> ((cts.len()
            == 1 && cts[0] is Scale) || (cts.len() == 2 && cts[0] is Scale
            && cts[1] is Translation)),
{
    let n = cts.len() as int;
    lemma_chain_failures_empty(cts, n);
    if chain_failures(cts, n).len() == 0 && has_any_scale(cts) {
        let si = choose|j: int| 0 <= j < n && cts[j] is Scale;
        assert(chain_entry_failures(cts, si).len() == 0);
        // the scale stands first: anything before it is an identity, a
        // second scale, or a translation before the scale, all failures
        assert forall|j: int| 0 <= j < si implies #[trigger] cts[j] is Scale by {
            assert(chain_entry_failures(cts, j).len() == 0);
            assert(chain_entry_failures(cts, si).len() == 0);
            match cts[j] {
                CoordinateTransform::Identity => {
                    assert(false);
                },
                CoordinateTransform::Translation(_) => {
                    assert(!has_scale_before(cts, j));
                    assert(has_translation_before(cts, si));
                    assert(false);
                },
                CoordinateTransform::Scale(_) => {},
            }
        }
        assert(si == 0) by {
            if si > 0 {
                assert(cts[0] is Scale);
                assert(has_scale_before(cts, si));
                assert(chain_entry_failures(cts, si).len() == 0);
                assert(false);
            }
        }
        if n > 1 {
            assert(chain_entry_failures(cts, 1).len() == 0);
            assert(has_scale_before(cts, 1));
            match cts[1] {
                CoordinateTransform::Identity => {
                    assert(false);
                },
                CoordinateTransform::Scale(_) => {
                    assert(false);
                },
                CoordinateTransform::Translation(_) => {},
            }
            if n > 2 {
                assert(chain_entry_failures(cts, 2).len() == 0);
                assert(has_translation_before(cts, 2));
                assert(has_scale_before(cts, 2));
                match cts[2] {
                    CoordinateTransform::Identity => {
                        assert(false);
                    },
                    CoordinateTransform::Scale(_) => {
                        assert(false);
                    },
                    CoordinateTransform::Translation(_) => {
                        assert(false);
                    },
                }
            }
        }
    }
    if (cts.len() == 1 && cts[0] is Scale) || (cts.len() == 2 && cts[0] is Scale
        && cts[1] is Translation) {
        assert(has_any_scale(cts));
        assert forall|i: int| 0 <= i < n implies #[trigger] chain_entry_failures(cts, i).len()
            == 0 by {
            if i == 0 {
                assert(!has_scale_before(cts, 0) && !has_translation_before(cts, 0));
            } else {
                assert(has_scale_before(cts, 1));
                assert(!has_translation_before(cts, 1));
            }
        }
    }
}

/// Check one transformation chain: every element that determines a
/// dimensionality must agree with `expected` (or with the first element
/// that determines one), the chain must be an optional single scale
/// followed by an optional single translation, identity is disallowed,
/// and a scale is required.
pub fn valid_transforms(
    accum: &mut Accumulator,
    expected: Option<usize>,
    cts: &Vec<CoordinateTransform>,
)
    ensures
        final(accum).prefix@ == old(accum).prefix@,
        final(accum).fails() == old(accum).fails() + with_prefix(
            old(accum).prefix@,
            transforms_failures(expected, cts@),
        ),
{
    let ghost p = old(accum).prefix@;
    validate_ndims(accum, expected, cts);
    let ghost base = accum.fails();
    let mut has_scale = false;
    let mut has_translation = false;
    let mut i: usize = 0;
    proof {
        assert(base + with_prefix(p, chain_failures(cts@, 0)) =~= base);
    }
    while i < cts.len()
        invariant
            0 <= i <= cts@.len(),
            accum.prefix@ == p,
            has_scale == has_scale_before(cts@, i as int),
            has_translation == has_translation_before(cts@, i as int),
            accum.fails() == base + with_prefix(p, chain_failures(cts@, i as int)),
        decreases cts@.len() - i,
    {
        match &cts[i] {
            CoordinateTransform::Identity => {
                accum.add_failure_at(Segment::Index(i), Problem::IdentityNotAllowed);
            },
            CoordinateTransform::Translation(_) => {
                if !has_scale {
                    accum.add_failure_at(Segment::Index(i), Problem::TranslationBeforeScale);
                }
                if has_translation {
                    accum.add_failure_at(Segment::Index(i), Problem::MultipleTranslations);
                }
                has_translation = true;
            },
            CoordinateTransform::Scale(_) => {
                if has_scale {
                    accum.add_failure_at(Segment::Index(i), Problem::MultipleScales);
                }
                if has_translation {
                    accum.add_failure_at(Segment::Index(i), Problem::ScaleAfterTranslation);
                }
                has_scale = true;
            },
        }
        proof {
            assert(accum.fails() =~= base + with_prefix(p, chain_failures(cts@, i as int + 1)));
            assert(has_scale == has_scale_before(cts@, i as int + 1));
            assert(has_translation == has_translation_before(cts@, i as int + 1));
        }
        i = i + 1;
    }
    if !has_scale {
        accum.add_failure(Problem::NoScaleTransformation);
    }
    proof {
        assert(accum.fails() =~= old(accum).fails() + with_prefix(
            p,
            transforms_failures(expected, cts@),
        ));
    }
}

/// One resolution level: the path to its array and its transformation
/// chain.
#[derive(Debug, Clone)]
pub struct MultiscaleImageDataset {
    /// The path to the array for this resolution, relative to the current group.
    pub path: String,
    /// The transformations mapping the level's data coordinates to the
    /// physical coordinates declared by the axes.
    pub coordinate_transformations: Vec<CoordinateTransform>,
}

/// The first dimensionality any element of the chain determines.
pub open spec fn cts_first_ndim(cts: Seq<CoordinateTransform>, i: int) -> Option<usize>
    decreases cts.len() - i,
{
    if i < 0 || i >= cts.len() {
        None
    } else {
        match cts[i].spec_ndim() {
            Some(n) => Some(n),
            None => cts_first_ndim(cts, i + 1),
        }
    }
}

impl MaybeNDim for MultiscaleImageDataset {
    open spec fn spec_ndim(&self) -> Option<usize> {
        cts_first_ndim(self.coordinate_transformations@, 0)
    }

    fn maybe_ndim(&self) -> (r: Option<usize>) {
        let cts = &self.coordinate_transformations;
        let mut i: usize = 0;
        while i < cts.len()
            invariant
                0 <= i <= cts@.len(),
                cts@ == self.coordinate_transformations@,
                cts_first_ndim(cts@, 0) == cts_first_ndim(cts@, i as int),
            decreases cts@.len() - i,
        {
            let n = cts[i].maybe_ndim();
            if n.is_some() {
                proof {
                    assert(cts_first_ndim(cts@, i as int) == n);
                    assert(self.spec_ndim() == n);
                }
                return n;
            }
            i = i + 1;
        }
        None
    }
}

impl Validate for MultiscaleImageDataset {
    open spec fn spec_failures(&self) -> Seq<SpecFailure> {
        with_prefix(
            seq![Segment::Field(Key::CoordinateTransformations)],
            transforms_failures(None, self.coordinate_transformations@),
        )
    }

    fn validate_inner(&self, accum: &mut Accumulator) {
        let ghost p = old(accum).prefix@;
        accum.push_key(Segment::Field(Key::CoordinateTransformations));
        valid_transforms(accum, None, &self.coordinate_transformations);
        accum.pop_key();
        proof {
            assert(accum.prefix@ =~= p);
            lemma_with_prefix_nested(
                p,
                seq![Segment::Field(Key::CoordinateTransformations)],
                transforms_failures(None, self.coordinate_transformations@),
            );
            assert(accum.fails() =~= old(accum).fails() + with_prefix(
                p,
                self.spec_failures(),
            ));
        }
    }
}

/// The failures of a dataset list: an empty list ends the check; a
/// non-empty list is checked for dimensionality agreement and each
/// dataset for its own rules.
pub open spec fn datasets_failures(
    expected: Option<usize>,
    dss: Seq<MultiscaleImageDataset>,
) -> Seq<SpecFailure> {
    if dss.len() == 0 {
        fail(Problem::EmptyMultiscaleDatasets)
    } else {
        ndim_failures(expected, dss) + seq_failures(dss)
    }
}

/// Check the dataset list of one multiscale image.
pub fn valid_datasets(
    accum: &mut Accumulator,
    expected: Option<usize>,
    dss: &Vec<MultiscaleImageDataset>,
)
    ensures
        final(accum).prefix@ == old(accum).prefix@,
        final(accum).fails() == old(accum).fails() + with_prefix(
            old(accum).prefix@,
            datasets_failures(expected, dss@),
        ),
{
    let ghost p = old(accum).prefix@;
    if dss.len() == 0 {
        accum.add_failure(Problem::EmptyMultiscaleDatasets);
        proof {
            assert(accum.fails() =~= old(accum).fails() + with_prefix(
                p,
                datasets_failures(expected, dss@),
            ));
        }
        return;
    }
    validate_ndims(accum, expected, dss);
    accum.validate_iter(dss);
    proof {
        assert(accum.fails() =~= old(accum).fails() + with_prefix(
            p,
            datasets_failures(expected, dss@),
        ));
    }
}

/// Information about the downscaling method, as free-form fields.
#[derive(Debug)]
pub struct MultiscaleImageMetadata(pub Vec<(String, JsonValue)>);

/// One multiscale image: its axes, its resolution levels, and an
/// optional transformation chain shared by all levels.
#[derive(Debug)]
pub struct MultiscaleImage {
    /// The name of the multiscale image (optional).
    pub name: Option<String>,
    /// The axes of the multiscale image.
    pub axes: Vec<Axis>,
    /// The arrays storing the individual resolution levels.
    pub datasets: Vec<MultiscaleImageDataset>,
    /// Transformations applied to all resolution levels in the same manner (optional).
    pub coordinate_transformations: Option<Vec<CoordinateTransform>>,
    /// The type of downscaling method used to generate the pyramid (optional).
    pub downscaling_type: Option<String>,
    /// Additional information about the downscaling method (optional).
    pub metadata: Option<MultiscaleImageMetadata>,
}

impl MultiscaleImage {
    /// The nominal dimensionality: the number of axes.
    pub fn ndim(&self) -> (r: usize)
        ensures
            r == self.axes@.len(),
    {
        self.axes.len()
    }
}

/// Every failure of one multiscale image: the axis policy, the dataset
/// list against the axes' dimensionality, and the optional shared chain
/// against the same dimensionality.
pub open spec fn multiscale_failures(m: MultiscaleImage) -> Seq<SpecFailure> {
    with_prefix(
        seq![Segment::Field(Key::Axes)],
        seq_failures(m.axes@) + axes_policy_failures(m.axes@),
    ) + with_prefix(
        seq![Segment::Field(Key::Datasets)],
        datasets_failures(Some(m.axes@.len() as usize), m.datasets@),
    ) + (match m.coordinate_transformations {
        Some(cts) => with_prefix(
            seq![Segment::Field(Key::CoordinateTransformations)],
            transforms_failures(Some(m.axes@.len() as usize), cts@),
        ),
        None => seq![],
    })
}

impl Validate for MultiscaleImage {
    open spec fn spec_failures(&self) -> Seq<SpecFailure> {
        multiscale_failures(*self)
    }

    fn validate_inner(&self, accum: &mut Accumulator) {
        let ghost p = old(accum).prefix@;
        let ghost fa = with_prefix(
            seq![Segment::Field(Key::Axes)],
            seq_failures(self.axes@) + axes_policy_failures(self.axes@),
        );
        let ghost fd = with_prefix(
            seq![Segment::Field(Key::Datasets)],
            datasets_failures(Some(self.axes@.len() as usize), self.datasets@),
        );
        let ghost fc = match &self.coordinate_transformations {
            Some(cts) => with_prefix(
                seq![Segment::Field(Key::CoordinateTransformations)],
                transforms_failures(Some(self.axes@.len() as usize), cts@),
            ),
            None => Seq::<SpecFailure>::empty(),
        };
        accum.push_key(Segment::Field(Key::Axes));
        valid_axes(accum, &self.axes);
        accum.pop_key();
        proof {
            assert(accum.prefix@ =~= p);
            lemma_with_prefix_nested(
                p,
                seq![Segment::Field(Key::Axes)],
                seq_failures(self.axes@) + axes_policy_failures(self.axes@),
            );
            assert(accum.fails() =~= old(accum).fails() + with_prefix(p, fa));
        }
        let expected = Some(self.ndim());
        accum.push_key(Segment::Field(Key::Datasets));
        valid_datasets(accum, expected, &self.datasets);
        accum.pop_key();
        proof {
            assert(accum.prefix@ =~= p);
            lemma_with_prefix_nested(
                p,
                seq![Segment::Field(Key::Datasets)],
                datasets_failures(Some(self.axes@.len() as usize), self.datasets@),
            );
            lemma_with_prefix_add(p, fa, fd);
            assert(accum.fails() =~= old(accum).fails() + with_prefix(p, fa + fd));
        }
        match &self.coordinate_transformations {
            Some(cts) => {
                accum.push_key(Segment::Field(Key::CoordinateTransformations));
                valid_transforms(accum, expected, cts);
                accum.pop_key();
                proof {
                    assert(accum.prefix@ =~= p);
                    lemma_with_prefix_nested(
                        p,
                        seq![Segment::Field(Key::CoordinateTransformations)],
                        transforms_failures(Some(self.axes@.len() as usize), cts@),
                    );
                }
            },
            None => {},
        }
        proof {
            lemma_with_prefix_add(p, fa + fd, fc);
            assert(accum.fails() =~= old(accum).fails() + with_prefix(p, fa + fd) + with_prefix(
                p,
                fc,
            ));
            assert(fa + fd + fc =~= self.spec_failures());
            assert(accum.prefix@ =~= p);
            assert(accum.fails() =~= old(accum).fails() + with_prefix(
                p,
                self.spec_failures(),
            ));
        }
    }
}

} // verus!
