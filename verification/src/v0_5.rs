//! Version `0.5` (OME-Zarr) metadata.
//!
//! This era nests every format field under the reserved `ome` key and
//! shares most component types with the earlier era.

use vstd::prelude::*;

pub mod decode;
pub mod labels;

pub use crate::v0_4::axes::{Axis, AxisType, AxisUnit, AxisUnitSpace, AxisUnitTime};
pub use crate::v0_4::bioformats2raw_layout::Bioformats2Raw;
pub use crate::v0_4::coordinate_transformations::{
    CoordinateTransform, CoordinateTransformScale, CoordinateTransformTranslation,
};
pub use crate::v0_4::labels::{
    ImageLabelColor, ImageLabelProperties, ImageLabelSource, Labels,
};
pub use crate::v0_4::multiscales::{
    MultiscaleImage, MultiscaleImageDataset, MultiscaleImageMetadata,
};
pub use crate::v0_4::omero::{Channel, HexColor, Omero, Window};
pub use crate::v0_4::plate::{Plate, PlateAcquisition, PlateColumn, PlateRow, PlateWell};
pub use crate::v0_4::well::{Well, WellImage};
pub use labels::ImageLabel;

use crate::errors::{DecodeError, Error};
use crate::json::{JsonValue, obj_get, spec_obj_get};
use crate::v0_4::OmeNgffGroupAttributes;
use crate::validation::{
    Accumulator, Key, Problem, Segment, SpecFailure, Validate, fail,
    lemma_with_prefix_add, lemma_with_prefix_nested, run_validation, seq_failures, with_prefix,
};
use labels::image_label_failures;

verus! {

/// OME-Zarr "ome" fields. The version marker is fixed to `0.5` and
/// checked when decoding.
#[derive(Debug)]
pub struct OmeFields {
    /// Transitional `bioformats2raw` metadata.
    pub bioformats2raw: Option<Bioformats2Raw>,
    /// Multiscales image metadata.
    pub multiscales: Option<Vec<MultiscaleImage>>,
    /// Labels metadata.
    pub labels: Option<Labels>,
    /// Image label metadata.
    pub image_label: Option<ImageLabel>,
    /// Plate metadata.
    pub plate: Option<Plate>,
    /// Well metadata.
    pub well: Option<Well>,
    /// Transitional data, not fully supported.
    pub omero: Option<JsonValue>,
}

/// Every failure of the "ome" fields: the multiscale images and the
/// image-label block, each under its own field.
pub open spec fn ome_fields_failures(f: OmeFields) -> Seq<SpecFailure> {
    (match f.multiscales {
        Some(m) => with_prefix(
            seq![Segment::Field(Key::Multiscales)],
            (if m@.len() == 0 {
                fail(Problem::EmptyMultiscales)
            } else {
                seq![]
            }) + seq_failures(m@),
        ),
        None => seq![],
    }) + (match f.image_label {
        Some(i) => with_prefix(seq![Segment::Field(Key::ImageLabel)], image_label_failures(i)),
        None => seq![],
    })
}

impl Validate for OmeFields {
    open spec fn spec_failures(&self) -> Seq<SpecFailure> {
        ome_fields_failures(*self)
    }

    fn validate_inner(&self, accum: &mut Accumulator) {
        let ghost p = old(accum).prefix@;
        let ghost f_m = match &self.multiscales {
            Some(m) => with_prefix(
                seq![Segment::Field(Key::Multiscales)],
                (if m@.len() == 0 {
                    fail(Problem::EmptyMultiscales)
                } else {
                    Seq::<SpecFailure>::empty()
                }) + seq_failures(m@),
            ),
            None => Seq::<SpecFailure>::empty(),
        };
        match &self.multiscales {
            Some(m) => {
                accum.push_key(Segment::Field(Key::Multiscales));
                if m.len() == 0 {
                    accum.add_failure(Problem::EmptyMultiscales);
                }
                accum.validate_iter(m);
                accum.pop_key();
                proof {
                    assert(accum.prefix@ =~= p);
                    lemma_with_prefix_nested(
                        p,
                        seq![Segment::Field(Key::Multiscales)],
                        (if m@.len() == 0 {
                            fail(Problem::EmptyMultiscales)
                        } else {
                            Seq::<SpecFailure>::empty()
                        }) + seq_failures(m@),
                    );
                }
            },
            None => {},
        }
        proof {
            assert(accum.fails() =~= old(accum).fails() + with_prefix(p, f_m));
        }
        let ghost s1 = accum.fails();
        match &self.image_label {
            Some(i) => {
                accum.validate_member_at(Segment::Field(Key::ImageLabel), i);
                proof {
                    lemma_with_prefix_nested(
                        p,
                        seq![Segment::Field(Key::ImageLabel)],
                        image_label_failures(*i),
                    );
                }
            },
            None => {},
        }
        proof {
            let f_i = match &self.image_label {
                Some(i) => with_prefix(
                    seq![Segment::Field(Key::ImageLabel)],
                    image_label_failures(*i),
                ),
                None => Seq::<SpecFailure>::empty(),
            };
            assert(accum.fails() =~= s1 + with_prefix(p, f_i));
            lemma_with_prefix_add(p, f_m, f_i);
            assert(f_m + f_i =~= self.spec_failures());
            assert(accum.prefix@ =~= p);
            assert(accum.fails() =~= old(accum).fails() + with_prefix(
                p,
                self.spec_failures(),
            ));
        }
    }
}

impl OmeFields {
    /// Upgrade the free-form attributes of the earlier era into this
    /// era's "ome" fields. Always succeeds; the image label moves into
    /// this era's form and the OMERO block is left behind.
    pub fn from(value: OmeNgffGroupAttributes) -> (r: OmeFields)
        ensures
            r.bioformats2raw == value.bioformats2raw,
            r.multiscales == value.multiscales,
            r.labels == value.labels,
            match (r.image_label, value.image_label) {
                (Some(n), Some(o)) => n.colors == o.colors && n.properties == o.properties
                    && n.source == o.source,
                (None, None) => true,
                _ => false,
            },
            r.plate == value.plate,
            r.well == value.well,
            r.omero is None,
    {
        OmeFields {
            bioformats2raw: value.bioformats2raw,
            multiscales: value.multiscales,
            labels: value.labels,
            image_label: match value.image_label {
                Some(i) => Some(ImageLabel::from(i)),
                None => None,
            },
            plate: value.plate,
            well: value.well,
            omero: None,
        }
    }

    /// Check every consistency rule: a success marker when all hold, else
    /// every collected failure, in document order.
    pub fn validate(&self) -> (r: Result<(), Error>)
        ensures
            r is Ok <==> self.spec_failures().len() == 0,
            r matches Err(e) ==> e matches Error::Validation(fs) && fs@.map_values(
                |f: crate::validation::Failure| f@,
            ) == self.spec_failures(),
    {
        match run_validation(self) {
            Ok(_) => Ok(()),
            Err(fs) => Err(Error::Validation(fs)),
        }
    }
}

impl Default for OmeFields {
    /// The empty "ome" fields: nothing declared.
    fn default() -> (r: OmeFields)
        ensures
            r.bioformats2raw is None,
            r.multiscales is None,
            r.labels is None,
            r.image_label is None,
            r.plate is None,
            r.well is None,
            r.omero is None,
    {
        OmeFields {
            bioformats2raw: None,
            multiscales: None,
            labels: None,
            image_label: None,
            plate: None,
            well: None,
            omero: None,
        }
    }
}

/// OME-Zarr top-level group attributes: the "ome" fields under the
/// reserved key.
#[derive(Debug)]
pub struct OmeZarrGroupAttributes {
    /// OME-Zarr "ome" fields.
    pub ome: OmeFields,
}

impl Validate for OmeZarrGroupAttributes {
    open spec fn spec_failures(&self) -> Seq<SpecFailure> {
        with_prefix(seq![Segment::Field(Key::Ome)], ome_fields_failures(self.ome))
    }

    fn validate_inner(&self, accum: &mut Accumulator) {
        let ghost p = old(accum).prefix@;
        accum.validate_member_at(Segment::Field(Key::Ome), &self.ome);
        proof {
            lemma_with_prefix_nested(
                p,
                seq![Segment::Field(Key::Ome)],
                ome_fields_failures(self.ome),
            );
            assert(final(accum).fails() =~= old(accum).fails() + with_prefix(
                p,
                self.spec_failures(),
            ));
        }
    }
}

/// OME-Zarr top-level group metadata: the whole metadata document, whose
/// attributes hold the "ome" fields.
#[derive(Debug)]
pub struct OmeZarrGroupMetadata {
    /// Group attributes with "ome" metadata.
    pub attributes: OmeZarrGroupAttributes,
}

impl Validate for OmeZarrGroupMetadata {
    open spec fn spec_failures(&self) -> Seq<SpecFailure> {
        with_prefix(
            seq![Segment::Field(Key::Attributes)],
            self.attributes.spec_failures(),
        )
    }

    fn validate_inner(&self, accum: &mut Accumulator) {
        let ghost p = old(accum).prefix@;
        accum.validate_member_at(Segment::Field(Key::Attributes), &self.attributes);
        proof {
            lemma_with_prefix_nested(
                p,
                seq![Segment::Field(Key::Attributes)],
                self.attributes.spec_failures(),
            );
            assert(final(accum).fails() =~= old(accum).fails() + with_prefix(
                p,
                self.spec_failures(),
            ));
        }
    }
}

/// Whether the tree holds group metadata whose `attributes.ome.version`
/// marker names this era.
pub open spec fn has_ome_attribute(v: JsonValue) -> bool {
    v matches JsonValue::Obj(entries) && spec_obj_get(entries@, "attributes"@) matches Some(
        JsonValue::Obj(attrs),
    ) && spec_obj_get(attrs@, "ome"@) matches Some(JsonValue::Obj(ome)) && spec_obj_get(
        ome@,
        "version"@,
    ) matches Some(JsonValue::Str(s)) && s@ == "0.5"@
}

/// Return the `ome` attribute from group metadata, demanding the version
/// marker of this era.
pub fn get_ome_attribute_from_zarr_group_metadata(group_metadata: &JsonValue) -> (r: Result<
    &JsonValue,
    DecodeError,
>)
    ensures
        r is Ok <==> has_ome_attribute(*group_metadata),
        r matches Ok(ome) ==> group_metadata matches JsonValue::Obj(entries) && spec_obj_get(
            entries@,
            "attributes"@,
        ) matches Some(JsonValue::Obj(attrs)) && spec_obj_get(attrs@, "ome"@) == Some(*ome),
{
    let entries = match group_metadata {
        JsonValue::Obj(entries) => entries,
        _ => {
            return Err(DecodeError::MissingField(String::from_str("attributes")));
        },
    };
    let attrs = match obj_get(entries, "attributes") {
        Some(JsonValue::Obj(attrs)) => attrs,
        Some(_) => {
            return Err(DecodeError::WrongType(String::from_str("attributes")));
        },
        None => {
            return Err(DecodeError::MissingField(String::from_str("attributes")));
        },
    };
    let ome_val = match obj_get(attrs, "ome") {
        Some(v) => v,
        None => {
            return Err(DecodeError::MissingField(String::from_str("ome")));
        },
    };
    let ome = match ome_val {
        JsonValue::Obj(ome) => ome,
        _ => {
            return Err(DecodeError::WrongType(String::from_str("ome")));
        },
    };
    match obj_get(ome, "version") {
        Some(JsonValue::Str(s)) => {
            if crate::text::str_eq(s.as_str(), "0.5") {
                Ok(ome_val)
            } else {
                Err(DecodeError::WrongVersion)
            }
        },
        Some(_) => Err(DecodeError::WrongVersion),
        None => Err(DecodeError::WrongVersion),
    }
}

impl OmeZarrGroupAttributes {
    /// Check every consistency rule: a success marker when all hold, else
    /// every collected failure, in document order.
    pub fn validate(&self) -> (r: Result<(), Error>)
        ensures
            r is Ok <==> self.spec_failures().len() == 0,
            r matches Err(e) ==> e matches Error::Validation(fs) && fs@.map_values(
                |f: crate::validation::Failure| f@,
            ) == self.spec_failures(),
    {
        match run_validation(self) {
            Ok(_) => Ok(()),
            Err(fs) => Err(Error::Validation(fs)),
        }
    }
}

impl OmeZarrGroupMetadata {
    /// Check every consistency rule: a success marker when all hold, else
    /// every collected failure, in document order.
    pub fn validate(&self) -> (r: Result<(), Error>)
        ensures
            r is Ok <==> self.spec_failures().len() == 0,
            r matches Err(e) ==> e matches Error::Validation(fs) && fs@.map_values(
                |f: crate::validation::Failure| f@,
            ) == self.spec_failures(),
    {
        match run_validation(self) {
            Ok(_) => Ok(()),
            Err(fs) => Err(Error::Validation(fs)),
        }
    }
}

} // verus!
