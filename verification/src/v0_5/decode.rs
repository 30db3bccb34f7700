//! Structural decoding of this era's metadata from a document tree.

use vstd::prelude::*;

use crate::errors::DecodeError;
use crate::json::{
    JsonValue, decode_strings, json_equiv, obj_get, opt_str_field, spec_obj_get, spec_strings,
    strings_decodable,
};
use crate::v0_4::decode::{
    bf2raw_state, decode_bf2raw, decode_image_label, decode_multiscales, decode_plate,
    decode_well, image_label_decodable, image_label_rep, multiscale_decodable, multiscale_rep,
    plate_decodable, plate_rep, version_ok, well_decodable, well_rep,
};
use crate::v0_5::OmeFields;
use crate::v0_5::labels::ImageLabel;
use crate::text::str_eq;

verus! {

/// Whether a tree node declares this era's "ome" fields: the version
/// marker fixed to `0.5`, and the component blocks without their own
/// version markers. Unknown fields are allowed.
pub open spec fn ome_fields_decodable(v: JsonValue) -> bool {
    &&& v matches JsonValue::Obj(entries)
    &&& version_ok(entries@, "0.5"@)
    &&& bf2raw_state(entries@) is Some
    &&& match spec_obj_get(entries@, "multiscales"@) {
        None => true,
        Some(JsonValue::Null) => true,
        Some(JsonValue::Arr(items)) => forall|i: int|
            0 <= i < items@.len() ==> multiscale_decodable(#[trigger] items@[i], false),
        Some(_) => false,
    }
    &&& match spec_obj_get(entries@, "labels"@) {
        None => true,
        Some(JsonValue::Null) => true,
        Some(JsonValue::Arr(items)) => strings_decodable(items@),
        Some(_) => false,
    }
    &&& match spec_obj_get(entries@, "image-label"@) {
        None => true,
        Some(JsonValue::Null) => true,
        Some(il) => image_label_decodable(il, false),
    }
    &&& match spec_obj_get(entries@, "plate"@) {
        None => true,
        Some(JsonValue::Null) => true,
        Some(p) => plate_decodable(p, false),
    }
    &&& match spec_obj_get(entries@, "well"@) {
        None => true,
        Some(JsonValue::Null) => true,
        Some(w) => well_decodable(w, false),
    }
}

/// Whether `f` is what decoding the tree node yields; the transitional
/// OMERO block is carried through opaque.
pub open spec fn ome_fields_rep(f: OmeFields, v: JsonValue) -> bool {
    &&& v matches JsonValue::Obj(entries)
    &&& (f.bioformats2raw is Some <==> bf2raw_state(entries@) == Some(true))
    &&& match spec_obj_get(entries@, "multiscales"@) {
        None => f.multiscales is None,
        Some(JsonValue::Null) => f.multiscales is None,
        Some(JsonValue::Arr(items)) => f.multiscales matches Some(ms) && ms@.len()
            == items@.len() && (forall|i: int|
            0 <= i < items@.len() ==> multiscale_rep(#[trigger] ms@[i], items@[i])),
        Some(_) => false,
    }
    &&& match spec_obj_get(entries@, "labels"@) {
        None => f.labels is None,
        Some(JsonValue::Null) => f.labels is None,
        Some(JsonValue::Arr(items)) => f.labels matches Some(ls) && ls@ == spec_strings(items@),
        Some(_) => false,
    }
    &&& match spec_obj_get(entries@, "image-label"@) {
        None => f.image_label is None,
        Some(JsonValue::Null) => f.image_label is None,
        Some(il) => f.image_label matches Some(l) && image_label_rep_v05(l, il),
    }
    &&& match spec_obj_get(entries@, "plate"@) {
        None => f.plate is None,
        Some(JsonValue::Null) => f.plate is None,
        Some(pv) => f.plate matches Some(p) && plate_rep(p, pv),
    }
    &&& match spec_obj_get(entries@, "well"@) {
        None => f.well is None,
        Some(JsonValue::Null) => f.well is None,
        Some(wv) => f.well matches Some(w) && well_rep(w, wv),
    }
    &&& match spec_obj_get(entries@, "omero"@) {
        None => f.omero is None,
        Some(JsonValue::Null) => f.omero is None,
        Some(t) => f.omero matches Some(u) && json_equiv(u, t),
    }
}

/// Whether this era's image-label block is what decoding the tree node
/// yields.
pub open spec fn image_label_rep_v05(l: ImageLabel, v: JsonValue) -> bool {
    image_label_rep(
        crate::v0_4::labels::ImageLabel {
            colors: l.colors,
            properties: l.properties,
            source: l.source,
        },
        v,
    )
}

/// Decode this era's "ome" fields, demanding the `0.5` version marker.
#[verifier::rlimit(60)]
pub fn decode_ome_fields(v: &JsonValue) -> (r: Result<OmeFields, DecodeError>)
    ensures
        r is Ok <==> ome_fields_decodable(*v),
        r matches Ok(f) ==> ome_fields_rep(f, *v),
{
    let entries = match v {
        JsonValue::Obj(entries) => entries,
        _ => {
            return Err(DecodeError::WrongType(String::from_str("ome")));
        },
    };
    match obj_get(entries, "version") {
        Some(JsonValue::Str(s)) => {
            if !str_eq(s.as_str(), "0.5") {
                return Err(DecodeError::WrongVersion);
            }
        },
        _ => {
            return Err(DecodeError::WrongVersion);
        },
    }
    let bioformats2raw = match decode_bf2raw(entries) {
        Ok(b) => b,
        Err(e) => {
            return Err(e);
        },
    };
    let multiscales = match obj_get(entries, "multiscales") {
        None => None,
        Some(JsonValue::Null) => None,
        Some(JsonValue::Arr(items)) => match decode_multiscales(items, false) {
            Ok(ms) => Some(ms),
            Err(e) => {
                return Err(e);
            },
        },
        Some(_) => {
            return Err(DecodeError::WrongType(String::from_str("multiscales")));
        },
    };
    let labels = match obj_get(entries, "labels") {
        None => None,
        Some(JsonValue::Null) => None,
        Some(JsonValue::Arr(items)) => match decode_strings(items) {
            Ok(ls) => Some(ls),
            Err(e) => {
                return Err(e);
            },
        },
        Some(_) => {
            return Err(DecodeError::WrongType(String::from_str("labels")));
        },
    };
    let image_label = match obj_get(entries, "image-label") {
        None => None,
        Some(JsonValue::Null) => None,
        Some(il) => match decode_image_label(il, false) {
            Ok(l) => Some(ImageLabel { colors: l.colors, properties: l.properties, source: l.source }),
            Err(e) => {
                return Err(e);
            },
        },
    };
    let plate = match obj_get(entries, "plate") {
        None => None,
        Some(JsonValue::Null) => None,
        Some(pv) => match decode_plate(pv, false) {
            Ok(p) => Some(p),
            Err(e) => {
                return Err(e);
            },
        },
    };
    let well = match obj_get(entries, "well") {
        None => None,
        Some(JsonValue::Null) => None,
        Some(wv) => match decode_well(wv, false) {
            Ok(w) => Some(w),
            Err(e) => {
                return Err(e);
            },
        },
    };
    let omero = match obj_get(entries, "omero") {
        None => None,
        Some(JsonValue::Null) => None,
        Some(t) => Some(t.duplicate()),
    };
    Ok(OmeFields { bioformats2raw, multiscales, labels, image_label, plate, well, omero })
}

} // verus!
