//! "multiscales" metadata of the draft era: axis count, order and types
//! are unconstrained; only name uniqueness remains.

use vstd::prelude::*;

use crate::v0_4::axes::Axis;
use crate::v0_4::coordinate_transformations::CoordinateTransform;
use crate::v0_4::multiscales::{
    MultiscaleImageDataset, MultiscaleImageMetadata, datasets_failures, transforms_failures,
    valid_datasets, valid_transforms,
};
use crate::v0_4::axes::{dup_name_failures, unique_axis_names};
use crate::validation::{
    Accumulator, Key, Segment, SpecFailure, Validate, lemma_with_prefix_add,
    lemma_with_prefix_nested, seq_failures, with_prefix,
};

verus! {

/// One multiscale image of the draft era.
#[derive(Debug)]
pub struct MultiscaleImage {
    /// The name of the multiscale image (optional).
    pub name: Option<String>,
    /// The axes of the multiscale image; count, order and types are
    /// unconstrained, but names must be unique.
    pub axes: Vec<Axis>,
    /// The arrays storing the individual resolution levels.
    pub datasets: Vec<MultiscaleImageDataset>,
    /// Transformations applied to all resolution levels in the same manner (optional).
    pub coordinate_transformations: Option<Vec<CoordinateTransform>>,
    /// The type of downscaling method used to generate the pyramid (optional).
    pub downscaling_type: Option<String>,
    /// Additional information about the downscaling method (optional).
    pub metadata: Option<MultiscaleImageMetadata>,
}

/// The relaxed axis check of the draft era: the per-axis unit rules and
/// name uniqueness, nothing else.
pub fn valid_axes(accum: &mut Accumulator, axes: &Vec<Axis>)
    ensures
        final(accum).prefix@ == old(accum).prefix@,
        final(accum).fails() == old(accum).fails() + with_prefix(
            old(accum).prefix@,
            seq_failures(axes@) + dup_name_failures(axes@, axes@.len() as int),
        ),
{
    accum.validate_iter(axes);
    unique_axis_names(accum, axes);
    proof {
        assert(final(accum).fails() =~= old(accum).fails() + with_prefix(
            old(accum).prefix@,
            seq_failures(axes@) + dup_name_failures(axes@, axes@.len() as int),
        ));
    }
}

/// Every failure of one draft-era multiscale image: relaxed axis rules,
/// the dataset list against the axes' dimensionality, and the optional
/// shared chain against the same dimensionality.
pub open spec fn multiscale_failures(m: MultiscaleImage) -> Seq<SpecFailure> {
    with_prefix(
        seq![Segment::Field(Key::Axes)],
        seq_failures(m.axes@) + dup_name_failures(m.axes@, m.axes@.len() as int),
    ) + with_prefix(
        seq![Segment::Field(Key::Datasets)],
        datasets_failures(Some(m.axes@.len() as usize), m.datasets@),
    ) + (match m.coordinate_transformations {
        Some(cts) => with_prefix(
            seq![Segment::Field(Key::CoordinateTransformations)],
            transforms_failures(Some(m.axes@.len() as usize), cts@),
        ),
        None => seq![],
    })
}

impl Validate for MultiscaleImage {
    open spec fn spec_failures(&self) -> Seq<SpecFailure> {
        multiscale_failures(*self)
    }

    fn validate_inner(&self, accum: &mut Accumulator) {
        let ghost p = old(accum).prefix@;
        let ghost fa = with_prefix(
            seq![Segment::Field(Key::Axes)],
            seq_failures(self.axes@) + dup_name_failures(self.axes@, self.axes@.len() as int),
        );
        let ghost fd = with_prefix(
            seq![Segment::Field(Key::Datasets)],
            datasets_failures(Some(self.axes@.len() as usize), self.datasets@),
        );
        let ghost fc = match &self.coordinate_transformations {
            Some(cts) => with_prefix(
                seq![Segment::Field(Key::CoordinateTransformations)],
                transforms_failures(Some(self.axes@.len() as usize), cts@),
            ),
            None => Seq::<SpecFailure>::empty(),
        };
        accum.push_key(Segment::Field(Key::Axes));
        valid_axes(accum, &self.axes);
        accum.pop_key();
        proof {
            assert(accum.prefix@ =~= p);
            lemma_with_prefix_nested(
                p,
                seq![Segment::Field(Key::Axes)],
                seq_failures(self.axes@) + dup_name_failures(self.axes@, self.axes@.len() as int),
            );
            assert(accum.fails() =~= old(accum).fails() + with_prefix(p, fa));
        }
        let ghost s1 = accum.fails();
        accum.push_key(Segment::Field(Key::Datasets));
        valid_datasets(accum, Some(self.axes.len()), &self.datasets);
        accum.pop_key();
        proof {
            assert(accum.prefix@ =~= p);
            lemma_with_prefix_nested(
                p,
                seq![Segment::Field(Key::Datasets)],
                datasets_failures(Some(self.axes@.len() as usize), self.datasets@),
            );
            assert(accum.fails() =~= s1 + with_prefix(p, fd));
        }
        let ghost s2 = accum.fails();
        match &self.coordinate_transformations {
            Some(cts) => {
                accum.push_key(Segment::Field(Key::CoordinateTransformations));
                valid_transforms(accum, Some(self.axes.len()), cts);
                accum.pop_key();
                proof {
                    assert(accum.prefix@ =~= p);
                    lemma_with_prefix_nested(
                        p,
                        seq![Segment::Field(Key::CoordinateTransformations)],
                        transforms_failures(Some(self.axes@.len() as usize), cts@),
                    );
                }
            },
            None => {},
        }
        proof {
            assert(accum.fails() =~= s2 + with_prefix(p, fc));
            lemma_with_prefix_add(p, fa, fd);
            lemma_with_prefix_add(p, fa + fd, fc);
            assert(fa + fd + fc =~= self.spec_failures());
            assert(accum.prefix@ =~= p);
            assert(accum.fails() =~= old(accum).fails() + with_prefix(
                p,
                self.spec_failures(),
            ));
        }
    }
}

} // verus!
