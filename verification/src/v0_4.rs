//! Version `0.4` (OME-NGFF) metadata.

use vstd::prelude::*;

pub mod axes;
pub mod bioformats2raw_layout;
pub mod coordinate_transformations;
pub mod decode;
pub mod encode;
pub mod labels;
pub mod multiscales;
pub mod omero;
pub mod plate;
pub mod units;
pub mod well;

use crate::errors::Error;
use crate::validation::{
    Accumulator, Key, Problem, Segment, SpecFailure, Validate, fail,
    lemma_with_prefix_add, lemma_with_prefix_nested, run_validation, seq_failures, with_prefix,
};
use bioformats2raw_layout::Bioformats2Raw;
use labels::{ImageLabel, Labels, image_label_failures};
use multiscales::MultiscaleImage;
use omero::Omero;
use plate::{Plate, plate_failures};
use well::Well;

verus! {

/// OME-NGFF top-level group attributes.
#[derive(Debug)]
pub struct OmeNgffGroupAttributes {
    /// Transitional `bioformats2raw.layout` metadata.
    pub bioformats2raw: Option<Bioformats2Raw>,
    /// Multiscales image metadata.
    pub multiscales: Option<Vec<MultiscaleImage>>,
    /// Labels metadata.
    pub labels: Option<Labels>,
    /// Image label metadata.
    pub image_label: Option<ImageLabel>,
    /// Plate metadata.
    pub plate: Option<Plate>,
    /// Well metadata.
    pub well: Option<Well>,
    /// Transitional OMERO metadata.
    pub omero: Option<Omero>,
}

/// Every failure of the top-level attributes: the multiscale images, the
/// image-label block, the plate, and the OMERO block, each under its own
/// field.
pub open spec fn ngff_attrs_failures(a: OmeNgffGroupAttributes) -> Seq<SpecFailure> {
    (match a.multiscales {
        Some(m) => with_prefix(
            seq![Segment::Field(Key::Multiscales)],
            (if m@.len() == 0 {
                fail(Problem::EmptyMultiscales)
            } else {
                seq![]
            }) + seq_failures(m@),
        ),
        None => seq![],
    }) + (match a.image_label {
        Some(i) => with_prefix(seq![Segment::Field(Key::ImageLabel)], image_label_failures(i)),
        None => seq![],
    }) + (match a.plate {
        Some(p) => with_prefix(seq![Segment::Field(Key::Plate)], plate_failures(p)),
        None => seq![],
    }) + (match a.omero {
        Some(o) => with_prefix(seq![Segment::Field(Key::Omero)], o.spec_failures()),
        None => seq![],
    })
}

impl Validate for OmeNgffGroupAttributes {
    open spec fn spec_failures(&self) -> Seq<SpecFailure> {
        ngff_attrs_failures(*self)
    }

    #[verifier::rlimit(60)]
    fn validate_inner(&self, accum: &mut Accumulator) {
        let ghost p = old(accum).prefix@;
        let ghost f_m = match &self.multiscales {
            Some(m) => with_prefix(
                seq![Segment::Field(Key::Multiscales)],
                (if m@.len() == 0 {
                    fail(Problem::EmptyMultiscales)
                } else {
                    Seq::<SpecFailure>::empty()
                }) + seq_failures(m@),
            ),
            None => Seq::<SpecFailure>::empty(),
        };
        let ghost f_i = match &self.image_label {
            Some(i) => with_prefix(
                seq![Segment::Field(Key::ImageLabel)],
                image_label_failures(*i),
            ),
            None => Seq::<SpecFailure>::empty(),
        };
        let ghost f_p = match &self.plate {
            Some(pl) => with_prefix(seq![Segment::Field(Key::Plate)], plate_failures(*pl)),
            None => Seq::<SpecFailure>::empty(),
        };
        let ghost f_o = match &self.omero {
            Some(o) => with_prefix(seq![Segment::Field(Key::Omero)], o.spec_failures()),
            None => Seq::<SpecFailure>::empty(),
        };
        match &self.multiscales {
            Some(m) => {
                accum.push_key(Segment::Field(Key::Multiscales));
                if m.len() == 0 {
                    accum.add_failure(Problem::EmptyMultiscales);
                }
                accum.validate_iter(m);
                accum.pop_key();
                proof {
                    assert(accum.prefix@ =~= p);
                    lemma_with_prefix_nested(
                        p,
                        seq![Segment::Field(Key::Multiscales)],
                        (if m@.len() == 0 {
                            fail(Problem::EmptyMultiscales)
                        } else {
                            Seq::<SpecFailure>::empty()
                        }) + seq_failures(m@),
                    );
                }
            },
            None => {},
        }
        proof {
            assert(accum.fails() =~= old(accum).fails() + with_prefix(p, f_m));
        }
        let ghost s1 = accum.fails();
        match &self.image_label {
            Some(i) => {
                accum.validate_member_at(Segment::Field(Key::ImageLabel), i);
                proof {
                    lemma_with_prefix_nested(
                        p,
                        seq![Segment::Field(Key::ImageLabel)],
                        image_label_failures(*i),
                    );
                }
            },
            None => {},
        }
        proof {
            assert(accum.fails() =~= s1 + with_prefix(p, f_i));
        }
        let ghost s2 = accum.fails();
        match &self.plate {
            Some(pl) => {
                accum.validate_member_at(Segment::Field(Key::Plate), pl);
                proof {
                    lemma_with_prefix_nested(
                        p,
                        seq![Segment::Field(Key::Plate)],
                        plate_failures(*pl),
                    );
                }
            },
            None => {},
        }
        proof {
            assert(accum.fails() =~= s2 + with_prefix(p, f_p));
        }
        let ghost s3 = accum.fails();
        match &self.omero {
            Some(o) => {
                accum.validate_member_at(Segment::Field(Key::Omero), o);
                proof {
                    lemma_with_prefix_nested(
                        p,
                        seq![Segment::Field(Key::Omero)],
                        o.spec_failures(),
                    );
                }
            },
            None => {},
        }
        proof {
            assert(accum.fails() =~= s3 + with_prefix(p, f_o));
            lemma_with_prefix_add(p, f_m, f_i);
            lemma_with_prefix_add(p, f_m + f_i, f_p);
            lemma_with_prefix_add(p, f_m + f_i + f_p, f_o);
            assert(f_m + f_i + f_p + f_o =~= self.spec_failures());
            assert(accum.prefix@ =~= p);
            assert(accum.fails() =~= old(accum).fails() + with_prefix(
                p,
                self.spec_failures(),
            ));
        }
    }
}

impl OmeNgffGroupAttributes {
    /// Check every consistency rule: a success marker when all hold, else
    /// every collected failure, in document order.
    pub fn validate(&self) -> (r: Result<(), Error>)
        ensures
            r is Ok <==> self.spec_failures().len() == 0,
            r matches Err(e) ==> e matches Error::Validation(fs) && fs@.map_values(
                |f: crate::validation::Failure| f@,
            ) == self.spec_failures(),
    {
        match run_validation(self) {
            Ok(_) => Ok(()),
            Err(fs) => Err(Error::Validation(fs)),
        }
    }
}

} // verus!
