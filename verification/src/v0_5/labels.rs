//! "labels" metadata of this era: label uniqueness without the
//! empty-list rule of the earlier era.

use vstd::prelude::*;

use crate::v0_4::labels::{
    ImageLabelColor, ImageLabelProperties, ImageLabelSource, label_list_failures,
    validate_unique_labels,
};
use crate::validation::{
    Accumulator, Key, Segment, SpecFailure, Validate, lemma_with_prefix_add,
    lemma_with_prefix_nested, with_prefix,
};

verus! {

/// Display colours, source image and free-form properties of a label
/// image.
#[derive(Debug)]
pub struct ImageLabel {
    /// Colour information for the unique label values.
    pub colors: Option<Vec<ImageLabelColor>>,
    /// Arbitrary metadata associated with each unique label (optional).
    pub properties: Option<Vec<ImageLabelProperties>>,
    /// Information about the image this label image derives from (optional).
    pub source: Option<ImageLabelSource>,
}

/// The failures of one image-label block of this era: repeated label
/// values among the colours and the properties.
pub open spec fn image_label_failures(l: ImageLabel) -> Seq<SpecFailure> {
    (match l.colors {
        Some(c) => with_prefix(
            seq![Segment::Field(Key::Colors)],
            label_list_failures(c@, c@.len() as int),
        ),
        None => seq![],
    }) + (match l.properties {
        Some(ps) => with_prefix(
            seq![Segment::Field(Key::Properties)],
            label_list_failures(ps@, ps@.len() as int),
        ),
        None => seq![],
    })
}

impl Validate for ImageLabel {
    open spec fn spec_failures(&self) -> Seq<SpecFailure> {
        image_label_failures(*self)
    }

    fn validate_inner(&self, accum: &mut Accumulator) {
        let ghost p = old(accum).prefix@;
        let ghost f_col = match &self.colors {
            Some(c) => with_prefix(
                seq![Segment::Field(Key::Colors)],
                label_list_failures(c@, c@.len() as int),
            ),
            None => Seq::<SpecFailure>::empty(),
        };
        match &self.colors {
            Some(c) => {
                accum.push_key(Segment::Field(Key::Colors));
                validate_unique_labels(accum, c);
                accum.pop_key();
                proof {
                    assert(accum.prefix@ =~= p);
                    lemma_with_prefix_nested(
                        p,
                        seq![Segment::Field(Key::Colors)],
                        label_list_failures(c@, c@.len() as int),
                    );
                }
            },
            None => {},
        }
        proof {
            assert(accum.fails() =~= old(accum).fails() + with_prefix(p, f_col));
        }
        let ghost mid = accum.fails();
        match &self.properties {
            Some(ps) => {
                accum.push_key(Segment::Field(Key::Properties));
                validate_unique_labels(accum, ps);
                accum.pop_key();
                proof {
                    assert(accum.prefix@ =~= p);
                    lemma_with_prefix_nested(
                        p,
                        seq![Segment::Field(Key::Properties)],
                        label_list_failures(ps@, ps@.len() as int),
                    );
                }
            },
            None => {},
        }
        proof {
            let f_prop = match &self.properties {
                Some(ps) => with_prefix(
                    seq![Segment::Field(Key::Properties)],
                    label_list_failures(ps@, ps@.len() as int),
                ),
                None => Seq::<SpecFailure>::empty(),
            };
            assert(accum.fails() =~= mid + with_prefix(p, f_prop));
            lemma_with_prefix_add(p, f_col, f_prop);
            assert(f_col + f_prop =~= self.spec_failures());
            assert(accum.prefix@ =~= p);
            assert(accum.fails() =~= old(accum).fails() + with_prefix(
                p,
                self.spec_failures(),
            ));
        }
    }
}

impl ImageLabel {
    /// Carry an image-label block of the earlier era into this one.
    pub fn from(value: crate::v0_4::labels::ImageLabel) -> (r: ImageLabel)
        ensures
            r.colors == value.colors,
            r.properties == value.properties,
            r.source == value.source,
    {
        ImageLabel { colors: value.colors, properties: value.properties, source: value.source }
    }
}

} // verus!
