//! Version `0.6` metadata: at most one multiscale image per group, and
//! relaxed axis rules.

use vstd::prelude::*;

pub mod axes;
pub mod multiscale;

pub use crate::v0_4::bioformats2raw_layout::Bioformats2Raw;
pub use crate::v0_4::labels::Labels;
pub use crate::v0_4::omero::Omero;
pub use crate::v0_4::plate::Plate;
pub use crate::v0_4::well::Well;
pub use crate::v0_5::labels::ImageLabel;

use crate::errors::Error;
use crate::v0_4::decode::{decode_omero, omero_decodable, omero_rep};
use crate::v0_4::multiscales::{MultiscaleImage, multiscale_failures};
use crate::v0_4::plate::plate_failures;
use crate::v0_5::labels::image_label_failures;
use crate::v0_5::OmeFields as PrevOmeFields;
use crate::validation::{
    Accumulator, Key, Segment, SpecFailure, Validate, lemma_with_prefix_add,
    lemma_with_prefix_nested, run_validation, with_prefix,
};

verus! {

/// OME-Zarr "ome" fields of this era. The version marker is fixed to
/// `0.6` and checked when decoding; at most one multiscale image is
/// allowed.
#[derive(Debug)]
pub struct OmeFields {
    /// Transitional `bioformats2raw` metadata.
    pub bioformats2raw: Option<Bioformats2Raw>,
    /// Multiscales image metadata: at most one image.
    pub multiscales: Option<MultiscaleImage>,
    /// Labels metadata.
    pub labels: Option<Labels>,
    /// Image label metadata.
    pub image_label: Option<ImageLabel>,
    /// Plate metadata.
    pub plate: Option<Plate>,
    /// Well metadata.
    pub well: Option<Well>,
    /// Transitional OMERO metadata.
    pub omero: Option<Omero>,
}

/// Every failure of this era's "ome" fields: the single multiscale
/// image, the image-label block, the plate and the OMERO block, each
/// under its own field.
pub open spec fn ome_fields_failures(f: OmeFields) -> Seq<SpecFailure> {
    (match f.multiscales {
        Some(m) => with_prefix(seq![Segment::Field(Key::Multiscales)], multiscale_failures(m)),
        None => seq![],
    }) + (match f.image_label {
        Some(i) => with_prefix(seq![Segment::Field(Key::ImageLabel)], image_label_failures(i)),
        None => seq![],
    }) + (match f.plate {
        Some(p) => with_prefix(seq![Segment::Field(Key::Plate)], plate_failures(p)),
        None => seq![],
    }) + (match f.omero {
        Some(o) => with_prefix(seq![Segment::Field(Key::Omero)], o.spec_failures()),
        None => seq![],
    })
}

impl Validate for OmeFields {
    open spec fn spec_failures(&self) -> Seq<SpecFailure> {
        ome_fields_failures(*self)
    }

    #[verifier::rlimit(60)]
    fn validate_inner(&self, accum: &mut Accumulator) {
        let ghost p = old(accum).prefix@;
        let ghost f_m = match &self.multiscales {
            Some(m) => with_prefix(
                seq![Segment::Field(Key::Multiscales)],
                multiscale_failures(*m),
            ),
            None => Seq::<SpecFailure>::empty(),
        };
        let ghost f_i = match &self.image_label {
            Some(i) => with_prefix(
                seq![Segment::Field(Key::ImageLabel)],
                image_label_failures(*i),
            ),
            None => Seq::<SpecFailure>::empty(),
        };
        let ghost f_p = match &self.plate {
            Some(pl) => with_prefix(seq![Segment::Field(Key::Plate)], plate_failures(*pl)),
            None => Seq::<SpecFailure>::empty(),
        };
        let ghost f_o = match &self.omero {
            Some(o) => with_prefix(seq![Segment::Field(Key::Omero)], o.spec_failures()),
            None => Seq::<SpecFailure>::empty(),
        };
        match &self.multiscales {
            Some(m) => {
                accum.validate_member_at(Segment::Field(Key::Multiscales), m);
                proof {
                    lemma_with_prefix_nested(
                        p,
                        seq![Segment::Field(Key::Multiscales)],
                        multiscale_failures(*m),
                    );
                }
            },
            None => {},
        }
        proof {
            assert(accum.fails() =~= old(accum).fails() + with_prefix(p, f_m));
        }
        let ghost s1 = accum.fails();
        match &self.image_label {
            Some(i) => {
                accum.validate_member_at(Segment::Field(Key::ImageLabel), i);
                proof {
                    lemma_with_prefix_nested(
                        p,
                        seq![Segment::Field(Key::ImageLabel)],
                        image_label_failures(*i),
                    );
                }
            },
            None => {},
        }
        proof {
            assert(accum.fails() =~= s1 + with_prefix(p, f_i));
        }
        let ghost s2 = accum.fails();
        match &self.plate {
            Some(pl) => {
                accum.validate_member_at(Segment::Field(Key::Plate), pl);
                proof {
                    lemma_with_prefix_nested(
                        p,
                        seq![Segment::Field(Key::Plate)],
                        plate_failures(*pl),
                    );
                }
            },
            None => {},
        }
        proof {
            assert(accum.fails() =~= s2 + with_prefix(p, f_p));
        }
        let ghost s3 = accum.fails();
        match &self.omero {
            Some(o) => {
                accum.validate_member_at(Segment::Field(Key::Omero), o);
                proof {
                    lemma_with_prefix_nested(
                        p,
                        seq![Segment::Field(Key::Omero)],
                        o.spec_failures(),
                    );
                }
            },
            None => {},
        }
        proof {
            assert(accum.fails() =~= s3 + with_prefix(p, f_o));
            lemma_with_prefix_add(p, f_m, f_i);
            lemma_with_prefix_add(p, f_m + f_i, f_p);
            lemma_with_prefix_add(p, f_m + f_i + f_p, f_o);
            assert(f_m + f_i + f_p + f_o =~= self.spec_failures());
            assert(accum.prefix@ =~= p);
            assert(accum.fails() =~= old(accum).fails() + with_prefix(
                p,
                self.spec_failures(),
            ));
        }
    }
}

impl OmeFields {
    /// Upgrade the previous era's "ome" fields into this era's. The
    /// conversion fails when the source cannot satisfy this era's
    /// stricter constraints: more than one multiscale image, or a
    /// transitional OMERO block that does not fit this era's typed form.
    /// Everything else is carried over unchanged.
    pub fn try_from(value: PrevOmeFields) -> (r: Result<OmeFields, Error>)
        ensures
            r is Err <==> ((value.multiscales matches Some(v) && v@.len() > 1) || (
            value.omero matches Some(t) && !omero_decodable(t))),
            (value.multiscales matches Some(v) && v@.len() > 1) ==> (r matches Err(e)
                && e is General),
            (r matches Err(e) && e is Decode) ==> (value.omero matches Some(t)
                && !omero_decodable(t)),
            r matches Ok(f) ==> {
                &&& f.bioformats2raw == value.bioformats2raw
                &&& match (f.multiscales, value.multiscales) {
                    (Some(m), Some(v)) => v@.len() == 1 && m == v@[0],
                    (None, Some(v)) => v@.len() == 0,
                    (None, None) => true,
                    _ => false,
                }
                &&& f.labels == value.labels
                &&& f.image_label == value.image_label
                &&& f.plate == value.plate
                &&& f.well == value.well
                &&& match (f.omero, value.omero) {
                    (Some(o), Some(t)) => omero_rep(o, t),
                    (None, None) => true,
                    _ => false,
                }
            },
    {
        let multiscales = match value.multiscales {
            Some(mut v) => {
                if v.len() > 1 {
                    return Err(
                        Error::General(String::from_str("multiscales must have length 0 or 1")),
                    );
                }
                if v.len() == 1 {
                    let m = v.pop().unwrap();
                    Some(m)
                } else {
                    None
                }
            },
            None => None,
        };
        let omero = match value.omero {
            Some(t) => match decode_omero(&t) {
                Ok(o) => Some(o),
                Err(e) => {
                    return Err(Error::Decode(e));
                },
            },
            None => None,
        };
        Ok(
            OmeFields {
                bioformats2raw: value.bioformats2raw,
                multiscales,
                labels: value.labels,
                image_label: value.image_label,
                plate: value.plate,
                well: value.well,
                omero,
            },
        )
    }

    /// Check every consistency rule: a success marker when all hold, else
    /// every collected failure, in document order.
    pub fn validate(&self) -> (r: Result<(), Error>)
        ensures
            r is Ok <==> self.spec_failures().len() == 0,
            r matches Err(e) ==> e matches Error::Validation(fs) && fs@.map_values(
                |f: crate::validation::Failure| f@,
            ) == self.spec_failures(),
    {
        match run_validation(self) {
            Ok(_) => Ok(()),
            Err(fs) => Err(Error::Validation(fs)),
        }
    }
}

impl Default for OmeFields {
    /// The empty "ome" fields: nothing declared.
    fn default() -> (r: OmeFields)
        ensures
            r.bioformats2raw is None,
            r.multiscales is None,
            r.labels is None,
            r.image_label is None,
            r.plate is None,
            r.well is None,
            r.omero is None,
    {
        OmeFields {
            bioformats2raw: None,
            multiscales: None,
            labels: None,
            image_label: None,
            plate: None,
            well: None,
            omero: None,
        }
    }
}

/// OME-Zarr top-level group attributes of this era.
#[derive(Debug)]
pub struct OmeZarrGroupAttributes {
    /// OME-Zarr "ome" fields.
    pub ome: OmeFields,
}

impl Validate for OmeZarrGroupAttributes {
    open spec fn spec_failures(&self) -> Seq<SpecFailure> {
        with_prefix(seq![Segment::Field(Key::Ome)], ome_fields_failures(self.ome))
    }

    fn validate_inner(&self, accum: &mut Accumulator) {
        let ghost p = old(accum).prefix@;
        accum.validate_member_at(Segment::Field(Key::Ome), &self.ome);
        proof {
            lemma_with_prefix_nested(
                p,
                seq![Segment::Field(Key::Ome)],
                ome_fields_failures(self.ome),
            );
            assert(final(accum).fails() =~= old(accum).fails() + with_prefix(
                p,
                self.spec_failures(),
            ));
        }
    }
}

/// OME-Zarr top-level group metadata of this era.
#[derive(Debug)]
pub struct OmeZarrGroupMetadata {
    /// Group attributes with "ome" metadata.
    pub attributes: OmeZarrGroupAttributes,
}

impl Validate for OmeZarrGroupMetadata {
    open spec fn spec_failures(&self) -> Seq<SpecFailure> {
        with_prefix(
            seq![Segment::Field(Key::Attributes)],
            self.attributes.spec_failures(),
        )
    }

    fn validate_inner(&self, accum: &mut Accumulator) {
        let ghost p = old(accum).prefix@;
        accum.validate_member_at(Segment::Field(Key::Attributes), &self.attributes);
        proof {
            lemma_with_prefix_nested(
                p,
                seq![Segment::Field(Key::Attributes)],
                self.attributes.spec_failures(),
            );
            assert(final(accum).fails() =~= old(accum).fails() + with_prefix(
                p,
                self.spec_failures(),
            ));
        }
    }
}

impl OmeZarrGroupAttributes {
    /// Check every consistency rule: a success marker when all hold, else
    /// every collected failure, in document order.
    pub fn validate(&self) -> (r: Result<(), Error>)
        ensures
            r is Ok <==> self.spec_failures().len() == 0,
            r matches Err(e) ==> e matches Error::Validation(fs) && fs@.map_values(
                |f: crate::validation::Failure| f@,
            ) == self.spec_failures(),
    {
        match run_validation(self) {
            Ok(_) => Ok(()),
            Err(fs) => Err(Error::Validation(fs)),
        }
    }
}

impl OmeZarrGroupMetadata {
    /// Check every consistency rule: a success marker when all hold, else
    /// every collected failure, in document order.
    pub fn validate(&self) -> (r: Result<(), Error>)
        ensures
            r is Ok <==> self.spec_failures().len() == 0,
            r matches Err(e) ==> e matches Error::Validation(fs) && fs@.map_values(
                |f: crate::validation::Failure| f@,
            ) == self.spec_failures(),
    {
        match run_validation(self) {
            Ok(_) => Ok(()),
            Err(fs) => Err(Error::Validation(fs)),
        }
    }
}

} // verus!
