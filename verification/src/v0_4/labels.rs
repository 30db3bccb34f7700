//! "labels" and "image-label" metadata.

use vstd::prelude::*;

use crate::json::JsonValue;
use crate::validation::{
    Accumulator, Key, Problem, Segment, SpecFailure, Validate, fail, fail_at,
    lemma_with_prefix_add, lemma_with_prefix_nested, with_prefix,
};

verus! {

/// Paths to the labeled multiscale images of a group.
pub type Labels = Vec<String>;

/// The colour of one unique label value.
#[derive(Debug, Clone)]
pub struct ImageLabelColor {
    /// Integer label value.
    pub label_value: u64,
    /// Colour as an RGBA quadruple.
    pub rgba: [u8; 4],
}

/// Arbitrary metadata of one unique label value.
#[derive(Debug)]
pub struct ImageLabelProperties {
    /// Integer label value.
    pub label_value: u64,
    /// Arbitrary metadata associated with the label.
    pub properties: Vec<(String, JsonValue)>,
}

/// Information about the source of a label image.
#[derive(Debug, Clone)]
pub struct ImageLabelSource {
    /// Relative path to the image group which this group labels.
    pub image: Option<String>,
}

/// Display colours, source image and free-form properties of a label
/// image.
#[derive(Debug)]
pub struct ImageLabel {
    /// Colour information for the unique label values.
    pub colors: Option<Vec<ImageLabelColor>>,
    /// Arbitrary metadata associated with each unique label (optional).
    pub properties: Option<Vec<ImageLabelProperties>>,
    /// Information about the image this label image derives from (optional).
    pub source: Option<ImageLabelSource>,
}

/// A value carrying a unique label.
pub trait HasLabelValue {
    /// What [`HasLabelValue::get_label`] returns.
    spec fn spec_label(&self) -> u64;

    /// The label value.
    fn get_label(&self) -> (r: u64)
        ensures
            r == self.spec_label(),
    ;
}

impl HasLabelValue for ImageLabelColor {
    open spec fn spec_label(&self) -> u64 {
        self.label_value
    }

    fn get_label(&self) -> (r: u64) {
        self.label_value
    }
}

impl HasLabelValue for ImageLabelProperties {
    open spec fn spec_label(&self) -> u64 {
        self.label_value
    }

    fn get_label(&self) -> (r: u64) {
        self.label_value
    }
}

/// The repeated-label failures among the first `n` items.
pub open spec fn label_list_failures<T: HasLabelValue>(items: Seq<T>, n: int) -> Seq<SpecFailure>
    decreases n,
{
    if n <= 0 {
        seq![]
    } else {
        label_list_failures(items, n - 1) + (if exists|j: int|
            0 <= j < n - 1 && (#[trigger] items[j]).spec_label() == items[n - 1].spec_label() {
            fail_at(
                Segment::Index((n - 1) as usize),
                Problem::RepeatedLabel(items[n - 1].spec_label()),
            )
        } else {
            seq![]
        })
    }
}

/// Record a repeated-label failure for every item whose label an earlier
/// item already carries.
pub fn validate_unique_labels<T: HasLabelValue>(accum: &mut Accumulator, items: &Vec<T>)
    ensures
        final(accum).prefix@ == old(accum).prefix@,
        final(accum).fails() == old(accum).fails() + with_prefix(
            old(accum).prefix@,
            label_list_failures(items@, items@.len() as int),
        ),
{
    let ghost p = old(accum).prefix@;
    let mut i: usize = 0;
    proof {
        assert(old(accum).fails() + with_prefix(p, label_list_failures(items@, 0)) =~= old(
            accum,
        ).fails());
    }
    while i < items.len()
        invariant
            0 <= i <= items@.len(),
            accum.prefix@ == p,
            accum.fails() == old(accum).fails() + with_prefix(
                p,
                label_list_failures(items@, i as int),
            ),
        decreases items@.len() - i,
    {
        let lbl = items[i].get_label();
        let mut seen = false;
        let mut j: usize = 0;
        while j < i
            invariant
                0 <= j <= i < items@.len(),
                lbl == items@[i as int].spec_label(),
                seen == exists|k: int|
                    0 <= k < j && (#[trigger] items@[k]).spec_label() == items@[
                        i as int
                    ].spec_label(),
            decreases i - j,
        {
            if items[j].get_label() == lbl {
                seen = true;
            }
            j = j + 1;
        }
        if seen {
            accum.add_failure_at(Segment::Index(i), Problem::RepeatedLabel(lbl));
        }
        proof {
            assert(accum.fails() =~= old(accum).fails() + with_prefix(
                p,
                label_list_failures(items@, i as int + 1),
            ));
        }
        i = i + 1;
    }
}

/// Every failure of one image-label block: empty colour or property
/// lists, and repeated label values within each.
pub open spec fn image_label_failures(l: ImageLabel) -> Seq<SpecFailure> {
    (match l.colors {
        Some(c) => with_prefix(
            seq![Segment::Field(Key::Colors)],
            (if c@.len() == 0 {
                fail(Problem::Empty)
            } else {
                seq![]
            }) + label_list_failures(c@, c@.len() as int),
        ),
        None => seq![],
    }) + (match l.properties {
        Some(ps) => with_prefix(
            seq![Segment::Field(Key::Properties)],
            (if ps@.len() == 0 {
                fail(Problem::Empty)
            } else {
                seq![]
            }) + label_list_failures(ps@, ps@.len() as int),
        ),
        None => seq![],
    })
}

impl Validate for ImageLabel {
    open spec fn spec_failures(&self) -> Seq<SpecFailure> {
        image_label_failures(*self)
    }

    fn validate_inner(&self, accum: &mut Accumulator) {
        let ghost p = old(accum).prefix@;
        let ghost f_col = match &self.colors {
            Some(c) => with_prefix(
                seq![Segment::Field(Key::Colors)],
                (if c@.len() == 0 {
                    fail(Problem::Empty)
                } else {
                    Seq::<SpecFailure>::empty()
                }) + label_list_failures(c@, c@.len() as int),
            ),
            None => Seq::<SpecFailure>::empty(),
        };
        match &self.colors {
            Some(c) => {
                accum.push_key(Segment::Field(Key::Colors));
                if c.len() == 0 {
                    accum.add_failure(Problem::Empty);
                }
                validate_unique_labels(accum, c);
                accum.pop_key();
                proof {
                    assert(accum.prefix@ =~= p);
                    lemma_with_prefix_nested(
                        p,
                        seq![Segment::Field(Key::Colors)],
                        (if c@.len() == 0 {
                            fail(Problem::Empty)
                        } else {
                            Seq::<SpecFailure>::empty()
                        }) + label_list_failures(c@, c@.len() as int),
                    );
                }
            },
            None => {},
        }
        proof {
            assert(accum.fails() =~= old(accum).fails() + with_prefix(p, f_col));
        }
        let ghost mid = accum.fails();
        match &self.properties {
            Some(ps) => {
                accum.push_key(Segment::Field(Key::Properties));
                if ps.len() == 0 {
                    accum.add_failure(Problem::Empty);
                }
                validate_unique_labels(accum, ps);
                accum.pop_key();
                proof {
                    assert(accum.prefix@ =~= p);
                    lemma_with_prefix_nested(
                        p,
                        seq![Segment::Field(Key::Properties)],
                        (if ps@.len() == 0 {
                            fail(Problem::Empty)
                        } else {
                            Seq::<SpecFailure>::empty()
                        }) + label_list_failures(ps@, ps@.len() as int),
                    );
                }
            },
            None => {},
        }
        proof {
            let f_prop = match &self.properties {
                Some(ps) => with_prefix(
                    seq![Segment::Field(Key::Properties)],
                    (if ps@.len() == 0 {
                        fail(Problem::Empty)
                    } else {
                        Seq::<SpecFailure>::empty()
                    }) + label_list_failures(ps@, ps@.len() as int),
                ),
                None => Seq::<SpecFailure>::empty(),
            };
            assert(accum.fails() =~= mid + with_prefix(p, f_prop));
            lemma_with_prefix_add(p, f_col, f_prop);
            assert(f_col + f_prop =~= self.spec_failures());
            assert(accum.prefix@ =~= p);
            assert(accum.fails() =~= old(accum).fails() + with_prefix(
                p,
                self.spec_failures(),
            ));
        }
    }
}

} // verus!
