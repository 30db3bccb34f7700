//! "multiscale" metadata of this era: the axis ordering rules are
//! relaxed; only name uniqueness remains.

use vstd::prelude::*;

use crate::v0_4::coordinate_transformations::CoordinateTransform;
use crate::v0_4::multiscales::{
    MultiscaleImageDataset, MultiscaleImageMetadata, datasets_failures, transforms_failures,
    valid_datasets, valid_transforms,
};
use crate::v0_6::axes::Axis;
use crate::validation::{
    Accumulator, Key, Problem, Segment, SpecFailure, Validate, lemma_with_prefix_add,
    lemma_with_prefix_nested, with_prefix,
};

verus! {

/// Whether an earlier axis already carries the name of axis `i`.
pub open spec fn axis_name_seen(axes: Seq<Axis>, i: int) -> bool {
    exists|j: int| 0 <= j < i && (#[trigger] axes[j]).spec_name() == axes[i].spec_name()
}

/// The duplicate-name failures among the first `i` axes, in order.
pub open spec fn dup_axis_name_failures(axes: Seq<Axis>, i: int) -> Seq<SpecFailure>
    decreases i,
{
    if i <= 0 {
        seq![]
    } else {
        dup_axis_name_failures(axes, i - 1) + (if axis_name_seen(axes, i - 1) {
            seq![
                SpecFailure {
                    path: seq![Segment::Index((i - 1) as usize)],
                    problem: Problem::DuplicateAxisName(
                        match axes[i - 1] {
                            Axis::Space(a) => a.name,
                            Axis::Time(a) => a.name,
                            Axis::Channel(a) => a.name,
                            Axis::Custom(a) => a.name,
                        },
                    ),
                },
            ]
        } else {
            seq![]
        })
    }
}

/// One multiscale image of this era: typed axes in any order, the
/// resolution levels, and an optional shared transformation chain.
#[derive(Debug)]
pub struct MultiscaleImage {
    /// The name of the multiscale image (optional).
    pub name: Option<String>,
    /// The axes of the multiscale image; count, order and types are
    /// unconstrained, but names must be unique.
    pub axes: Vec<Axis>,
    /// The arrays storing the individual resolution levels.
    pub datasets: Vec<MultiscaleImageDataset>,
    /// Transformations applied to all resolution levels in the same manner (optional).
    pub coordinate_transformations: Option<Vec<CoordinateTransform>>,
    /// The type of downscaling method used to generate the pyramid (optional).
    pub downscaling_type: Option<String>,
    /// Additional information about the downscaling method (optional).
    pub metadata: Option<MultiscaleImageMetadata>,
}

/// Every failure of one multiscale image of this era: duplicate axis
/// names, the dataset list against the axes' dimensionality, and the
/// optional shared chain against the same dimensionality.
pub open spec fn multiscale_failures(m: MultiscaleImage) -> Seq<SpecFailure> {
    with_prefix(
        seq![Segment::Field(Key::Axes)],
        dup_axis_name_failures(m.axes@, m.axes@.len() as int),
    ) + with_prefix(
        seq![Segment::Field(Key::Datasets)],
        datasets_failures(Some(m.axes@.len() as usize), m.datasets@),
    ) + (match m.coordinate_transformations {
        Some(cts) => with_prefix(
            seq![Segment::Field(Key::CoordinateTransformations)],
            transforms_failures(Some(m.axes@.len() as usize), cts@),
        ),
        None => seq![],
    })
}

impl Validate for MultiscaleImage {
    open spec fn spec_failures(&self) -> Seq<SpecFailure> {
        multiscale_failures(*self)
    }

    fn validate_inner(&self, accum: &mut Accumulator) {
        let ghost p = old(accum).prefix@;
        let ghost fa = with_prefix(
            seq![Segment::Field(Key::Axes)],
            dup_axis_name_failures(self.axes@, self.axes@.len() as int),
        );
        let ghost fd = with_prefix(
            seq![Segment::Field(Key::Datasets)],
            datasets_failures(Some(self.axes@.len() as usize), self.datasets@),
        );
        let ghost fc = match &self.coordinate_transformations {
            Some(cts) => with_prefix(
                seq![Segment::Field(Key::CoordinateTransformations)],
                transforms_failures(Some(self.axes@.len() as usize), cts@),
            ),
            None => Seq::<SpecFailure>::empty(),
        };
        accum.push_key(Segment::Field(Key::Axes));
        let ghost ps = accum.prefix@;
        let mut i: usize = 0;
        proof {
            assert(old(accum).fails() + with_prefix(
                ps,
                dup_axis_name_failures(self.axes@, 0),
            ) =~= old(accum).fails());
        }
        while i < self.axes.len()
            invariant
                0 <= i <= self.axes@.len(),
                accum.prefix@ == ps,
                accum.fails() == old(accum).fails() + with_prefix(
                    ps,
                    dup_axis_name_failures(self.axes@, i as int),
                ),
            decreases self.axes@.len() - i,
        {
            let mut seen = false;
            let mut j: usize = 0;
            while j < i
                invariant
                    0 <= j <= i < self.axes@.len(),
                    seen == exists|k: int|
                        0 <= k < j && (#[trigger] self.axes@[k]).spec_name() == self.axes@[
                            i as int
                        ].spec_name(),
                decreases i - j,
            {
                if crate::text::str_eq(self.axes[j].name(), self.axes[i].name()) {
                    seen = true;
                }
                j = j + 1;
            }
            if seen {
                let name = match &self.axes[i] {
                    Axis::Space(a) => a.name.clone(),
                    Axis::Time(a) => a.name.clone(),
                    Axis::Channel(a) => a.name.clone(),
                    Axis::Custom(a) => a.name.clone(),
                };
                accum.add_failure_at(Segment::Index(i), Problem::DuplicateAxisName(name));
            }
            proof {
                assert(accum.fails() =~= old(accum).fails() + with_prefix(
                    ps,
                    dup_axis_name_failures(self.axes@, i as int + 1),
                ));
            }
            i = i + 1;
        }
        accum.pop_key();
        proof {
            assert(accum.prefix@ =~= p);
            lemma_with_prefix_nested(
                p,
                seq![Segment::Field(Key::Axes)],
                dup_axis_name_failures(self.axes@, self.axes@.len() as int),
            );
            assert(accum.fails() =~= old(accum).fails() + with_prefix(p, fa));
        }
        let ghost s1 = accum.fails();
        accum.push_key(Segment::Field(Key::Datasets));
        valid_datasets(accum, Some(self.axes.len()), &self.datasets);
        accum.pop_key();
        proof {
            assert(accum.prefix@ =~= p);
            lemma_with_prefix_nested(
                p,
                seq![Segment::Field(Key::Datasets)],
                datasets_failures(Some(self.axes@.len() as usize), self.datasets@),
            );
            assert(accum.fails() =~= s1 + with_prefix(p, fd));
        }
        let ghost s2 = accum.fails();
        match &self.coordinate_transformations {
            Some(cts) => {
                accum.push_key(Segment::Field(Key::CoordinateTransformations));
                valid_transforms(accum, Some(self.axes.len()), cts);
                accum.pop_key();
                proof {
                    assert(accum.prefix@ =~= p);
                    lemma_with_prefix_nested(
                        p,
                        seq![Segment::Field(Key::CoordinateTransformations)],
                        transforms_failures(Some(self.axes@.len() as usize), cts@),
                    );
                }
            },
            None => {},
        }
        proof {
            assert(accum.fails() =~= s2 + with_prefix(p, fc));
            lemma_with_prefix_add(p, fa, fd);
            lemma_with_prefix_add(p, fa + fd, fc);
            assert(fa + fd + fc =~= self.spec_failures());
            assert(accum.prefix@ =~= p);
            assert(accum.fails() =~= old(accum).fails() + with_prefix(
                p,
                self.spec_failures(),
            ));
        }
    }
}

} // verus!
