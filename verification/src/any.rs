//! Version resolution: which schema era a decoded document belongs to.
//!
//! The decision is structural and made once: a top object carrying the
//! reserved `ome` key is interpreted under the namespaced schema, and a
//! decode error inside that interpretation is surfaced without ever
//! retrying under the legacy free-form schema.

use vstd::prelude::*;

use crate::errors::{DecodeError, Error};
use crate::json::{JsonValue, obj_get, spec_obj_get};
use crate::v0_4::OmeNgffGroupAttributes;
use crate::v0_4::decode::{decode_ngff_attrs, ngff_attrs_decodable, ngff_attrs_rep};
use crate::v0_5::OmeFields;
use crate::v0_5::decode::{decode_ome_fields, ome_fields_decodable, ome_fields_rep};
use crate::validation::{
    Accumulator, Key, Segment, SpecFailure, Validate, lemma_with_prefix_nested, run_validation,
    with_prefix,
};

verus! {

/// OME-Zarr metadata in any supported version.
#[derive(Debug)]
pub enum AnyOme {
    /// Legacy free-form metadata.
    V0_4(OmeNgffGroupAttributes),
    /// Namespaced metadata.
    V0_5(OmeFields),
}

/// Whether the top object carries the reserved namespace key, committing
/// the document to the namespaced schema.
pub open spec fn has_namespace_key(v: JsonValue) -> bool {
    v matches JsonValue::Obj(entries) && spec_obj_get(entries@, "ome"@) is Some
}

impl AnyOme {
    /// Get the version string for the OME-Zarr metadata.
    pub fn version(&self) -> (r: &'static str)
        ensures
            self is V0_4 ==> r@ == "0.4"@,
            self is V0_5 ==> r@ == "0.5"@,
    {
        match self {
            AnyOme::V0_4(_) => "0.4",
            AnyOme::V0_5(_) => "0.5",
        }
    }

    /// Resolve a decoded document to a schema version and decode it.
    ///
    /// A top object carrying the reserved `ome` key is always parsed as
    /// the namespaced schema, even if it would also satisfy the legacy
    /// schema; a decode error inside the chosen interpretation is
    /// surfaced immediately and never retried under the other one.
    pub fn from_tree(v: &JsonValue) -> (r: Result<AnyOme, DecodeError>)
        ensures
            has_namespace_key(*v) ==> !(r matches Ok(AnyOme::V0_4(_))),
            has_namespace_key(*v) ==> {
                &&& r is Ok <==> (v matches JsonValue::Obj(entries) && spec_obj_get(
                    entries@,
                    "ome"@,
                ) matches Some(ome) && ome_fields_decodable(ome))
                &&& r matches Ok(a) ==> (a matches AnyOme::V0_5(f) && v matches JsonValue::Obj(
                    entries,
                ) && spec_obj_get(entries@, "ome"@) matches Some(ome) && ome_fields_rep(f, ome))
            },
            !has_namespace_key(*v) ==> {
                &&& r is Ok <==> ngff_attrs_decodable(*v)
                &&& r matches Ok(a) ==> (a matches AnyOme::V0_4(at) && ngff_attrs_rep(at, *v))
            },
    {
        let entries = match v {
            JsonValue::Obj(entries) => entries,
            _ => {
                return Err(DecodeError::MissingField(String::from_str("attributes")));
            },
        };
        match obj_get(entries, "ome") {
            Some(ome) => match decode_ome_fields(ome) {
                Ok(f) => Ok(AnyOme::V0_5(f)),
                Err(e) => Err(e),
            },
            None => match decode_ngff_attrs(v) {
                Ok(a) => Ok(AnyOme::V0_4(a)),
                Err(e) => Err(e),
            },
        }
    }

    /// Check every consistency rule of the resolved document: a success
    /// marker when all hold, else every collected failure, in document
    /// order.
    pub fn validate(&self) -> (r: Result<(), Error>)
        ensures
            r is Ok <==> self.spec_failures().len() == 0,
            r matches Err(e) ==> e matches Error::Validation(fs) && fs@.map_values(
                |f: crate::validation::Failure| f@,
            ) == self.spec_failures(),
    {
        match run_validation(self) {
            Ok(_) => Ok(()),
            Err(fs) => Err(Error::Validation(fs)),
        }
    }
}

impl Validate for AnyOme {
    open spec fn spec_failures(&self) -> Seq<SpecFailure> {
        match self {
            AnyOme::V0_4(attrs) => attrs.spec_failures(),
            AnyOme::V0_5(fields) => with_prefix(
                seq![Segment::Field(Key::Ome)],
                fields.spec_failures(),
            ),
        }
    }

    fn validate_inner(&self, accum: &mut Accumulator) {
        match self {
            AnyOme::V0_4(attrs) => {
                attrs.validate_inner(accum);
            },
            AnyOme::V0_5(fields) => {
                let ghost p = old(accum).prefix@;
                accum.validate_member_at(Segment::Field(Key::Ome), fields);
                proof {
                    lemma_with_prefix_nested(
                        p,
                        seq![Segment::Field(Key::Ome)],
                        fields.spec_failures(),
                    );
                    assert(final(accum).fails() =~= old(accum).fails() + with_prefix(
                        p,
                        self.spec_failures(),
                    ));
                }
            },
        }
    }
}

} // verus!
