//! Structural decoding of this era's metadata from a document tree.
//!
//! Decoding checks only shape: required fields, field kinds, unknown
//! fields where the schema forbids them, and the version markers.
//! Consistency rules run afterwards, over the decoded values. Free-form
//! fields (downscaling metadata, label properties, OMERO extras) are
//! accepted but not carried through.

use vstd::prelude::*;

use crate::errors::DecodeError;
use crate::floats::Float64;
use crate::json::{
    JsonValue, check_keys_within, decode_floats, floats_decodable, get_opt_str, get_opt_u64,
    get_req_str, keys_within, obj_get, opt_str_field, opt_u64_field, req_str_field,
    spec_floats, spec_obj_get,
};
use crate::text::str_eq;
use crate::v0_4::axes::{Axis, AxisType};
use crate::v0_4::coordinate_transformations::{
    CoordinateTransform, CoordinateTransformScale, CoordinateTransformTranslation,
};
use crate::v0_4::bioformats2raw_layout::Bioformats2Raw;
use crate::v0_4::labels::{ImageLabel, ImageLabelColor, ImageLabelProperties, ImageLabelSource};
use crate::v0_4::multiscales::{MultiscaleImage, MultiscaleImageDataset, MultiscaleImageMetadata};
use crate::v0_4::omero::{Channel, HexColor, Omero, Window, valid_hex_color};
use crate::v0_4::plate::{Plate, PlateAcquisition, PlateColumn, PlateRow, PlateWell};
use crate::v0_4::well::{Well, WellImage};
use crate::v0_4::units::spec_axis_unit;
use crate::json::{decode_strings, spec_float_of_num, float_of_num, strings_decodable, spec_strings, JsonNum, get_req_u64, req_u64_field};
use crate::v0_4::OmeNgffGroupAttributes;

verus! {

/// The axis type a document names with this string: the three known
/// names, else a custom type.
pub open spec fn spec_axis_type(s: String) -> AxisType {
    if s@ == "space"@ {
        AxisType::Space
    } else if s@ == "time"@ {
        AxisType::Time
    } else if s@ == "channel"@ {
        AxisType::Channel
    } else {
        AxisType::Custom(s)
    }
}

/// Find the axis type a document names with this string.
pub fn axis_type_of(s: String) -> (r: AxisType)
    ensures
        r == spec_axis_type(s),
{
    if str_eq(s.as_str(), "space") {
        AxisType::Space
    } else if str_eq(s.as_str(), "time") {
        AxisType::Time
    } else if str_eq(s.as_str(), "channel") {
        AxisType::Channel
    } else {
        AxisType::Custom(s)
    }
}

/// The axis a tree node declares, if its shape is right: an object of
/// `name`, optional `type` and optional `unit`, nothing else.
pub open spec fn spec_decode_axis(v: JsonValue) -> Option<Axis> {
    match v {
        JsonValue::Obj(entries) => if !keys_within(
            entries@,
            seq!["name"@, "type"@, "unit"@],
        ) {
            None
        } else {
            match req_str_field(entries@, "name"@) {
                Some(name) => {
                    let t = match spec_obj_get(entries@, "type"@) {
                        None => Some(None),
                        Some(JsonValue::Null) => Some(None),
                        Some(JsonValue::Str(s)) => Some(Some(spec_axis_type(s))),
                        Some(_) => None,
                    };
                    let u = match spec_obj_get(entries@, "unit"@) {
                        None => Some(None),
                        Some(JsonValue::Null) => Some(None),
                        Some(JsonValue::Str(s)) => Some(Some(spec_axis_unit(s))),
                        Some(_) => None,
                    };
                    match (t, u) {
                        (Some(t), Some(u)) => Some(Axis { name, axis_type: t, unit: u }),
                        _ => None,
                    }
                },
                None => None,
            }
        },
        _ => None,
    }
}

/// Decode one axis.
pub fn decode_axis(v: &JsonValue) -> (r: Result<Axis, DecodeError>)
    ensures
        match spec_decode_axis(*v) {
            Some(a) => r == Ok::<Axis, DecodeError>(a),
            None => r is Err,
        },
{
    let entries = match v {
        JsonValue::Obj(entries) => entries,
        _ => {
            return Err(DecodeError::WrongType(String::from_str("axis")));
        },
    };
    let mut allowed: Vec<String> = Vec::new();
    allowed.push(String::from_str("name"));
    allowed.push(String::from_str("type"));
    allowed.push(String::from_str("unit"));
    proof {
        assert(allowed@.map_values(|s: String| s@) =~= seq!["name"@, "type"@, "unit"@]);
    }
    match check_keys_within(entries, &allowed) {
        Some(k) => {
            return Err(DecodeError::UnknownField(k));
        },
        None => {},
    }
    let name = match get_req_str(entries, "name") {
        Ok(name) => name,
        Err(e) => {
            return Err(e);
        },
    };
    let axis_type = match obj_get(entries, "type") {
        None => None,
        Some(JsonValue::Null) => None,
        Some(JsonValue::Str(s)) => Some(axis_type_of(s.clone())),
        Some(_) => {
            return Err(DecodeError::WrongType(String::from_str("type")));
        },
    };
    let unit = match obj_get(entries, "unit") {
        None => None,
        Some(JsonValue::Null) => None,
        Some(JsonValue::Str(s)) => Some(crate::v0_4::units::axis_unit_from_name(s.clone())),
        Some(_) => {
            return Err(DecodeError::WrongType(String::from_str("unit")));
        },
    };
    Ok(Axis { name, axis_type, unit })
}

/// Whether a tree node declares a transformation of this era: an object
/// tagged `identity`, `translation` or `scale`, with an explicit vector
/// or a path for the latter two.
pub open spec fn ct_decodable(v: JsonValue) -> bool {
    &&& v matches JsonValue::Obj(entries)
    &&& match req_str_field(entries@, "type"@) {
        Some(t) => if t@ == "identity"@ {
            true
        } else if t@ == "translation"@ {
            match spec_obj_get(entries@, "translation"@) {
                Some(JsonValue::Arr(items)) => floats_decodable(items@),
                Some(_) => false,
                None => req_str_field(entries@, "path"@) is Some,
            }
        } else if t@ == "scale"@ {
            match spec_obj_get(entries@, "scale"@) {
                Some(JsonValue::Arr(items)) => floats_decodable(items@),
                Some(_) => false,
                None => req_str_field(entries@, "path"@) is Some,
            }
        } else {
            false
        },
        None => false,
    }
}

/// Whether `c` is what decoding the tree node yields.
pub open spec fn ct_rep(c: CoordinateTransform, v: JsonValue) -> bool {
    &&& v matches JsonValue::Obj(entries)
    &&& match req_str_field(entries@, "type"@) {
        Some(t) => if t@ == "identity"@ {
            c is Identity
        } else if t@ == "translation"@ {
            match spec_obj_get(entries@, "translation"@) {
                Some(JsonValue::Arr(items)) => c matches CoordinateTransform::Translation(
                    CoordinateTransformTranslation::List { translation },
                ) && translation@ == spec_floats(items@),
                Some(_) => false,
                None => c matches CoordinateTransform::Translation(
                    CoordinateTransformTranslation::Path { path },
                ) && req_str_field(entries@, "path"@) == Some(path),
            }
        } else if t@ == "scale"@ {
            match spec_obj_get(entries@, "scale"@) {
                Some(JsonValue::Arr(items)) => c matches CoordinateTransform::Scale(
                    CoordinateTransformScale::List { scale },
                ) && scale@ == spec_floats(items@),
                Some(_) => false,
                None => c matches CoordinateTransform::Scale(
                    CoordinateTransformScale::Path { path },
                ) && req_str_field(entries@, "path"@) == Some(path),
            }
        } else {
            false
        },
        None => false,
    }
}

/// Decode one transformation of this era.
pub fn decode_ct(v: &JsonValue) -> (r: Result<CoordinateTransform, DecodeError>)
    ensures
        r is Ok <==> ct_decodable(*v),
        r matches Ok(c) ==> ct_rep(c, *v),
{
    let entries = match v {
        JsonValue::Obj(entries) => entries,
        _ => {
            return Err(DecodeError::WrongType(String::from_str("transformation")));
        },
    };
    let t = match get_req_str(entries, "type") {
        Ok(t) => t,
        Err(e) => {
            return Err(e);
        },
    };
    if str_eq(t.as_str(), "identity") {
        Ok(CoordinateTransform::Identity)
    } else if str_eq(t.as_str(), "translation") {
        match obj_get(entries, "translation") {
            Some(JsonValue::Arr(items)) => {
                let translation = match decode_floats(items) {
                    Ok(translation) => translation,
                    Err(e) => {
                        return Err(e);
                    },
                };
                Ok(
                    CoordinateTransform::Translation(
                        CoordinateTransformTranslation::List { translation },
                    ),
                )
            },
            Some(_) => Err(DecodeError::WrongType(String::from_str("translation"))),
            None => {
                let path = match get_req_str(entries, "path") {
                    Ok(path) => path,
                    Err(e) => {
                        return Err(e);
                    },
                };
                Ok(
                    CoordinateTransform::Translation(
                        CoordinateTransformTranslation::Path { path },
                    ),
                )
            },
        }
    } else if str_eq(t.as_str(), "scale") {
        match obj_get(entries, "scale") {
            Some(JsonValue::Arr(items)) => {
                let scale = match decode_floats(items) {
                    Ok(scale) => scale,
                    Err(e) => {
                        return Err(e);
                    },
                };
                Ok(CoordinateTransform::Scale(CoordinateTransformScale::List { scale }))
            },
            Some(_) => Err(DecodeError::WrongType(String::from_str("scale"))),
            None => {
                let path = match get_req_str(entries, "path") {
                    Ok(path) => path,
                    Err(e) => {
                        return Err(e);
                    },
                };
                Ok(CoordinateTransform::Scale(CoordinateTransformScale::Path { path }))
            },
        }
    } else {
        Err(DecodeError::UnknownVariant(t))
    }
}

/// Whether every element of the array declares a transformation.
pub open spec fn cts_decodable(items: Seq<JsonValue>) -> bool {
    forall|i: int| 0 <= i < items.len() ==> ct_decodable(#[trigger] items[i])
}

/// Whether the chain is what decoding the array yields, element by
/// element.
pub open spec fn cts_rep(cts: Seq<CoordinateTransform>, items: Seq<JsonValue>) -> bool {
    cts.len() == items.len() && forall|i: int|
        0 <= i < items.len() ==> ct_rep(#[trigger] cts[i], items[i])
}

/// Decode an array of transformations.
pub fn decode_cts(items: &Vec<JsonValue>) -> (r: Result<Vec<CoordinateTransform>, DecodeError>)
    ensures
        r is Ok <==> cts_decodable(items@),
        r matches Ok(v) ==> cts_rep(v@, items@),
{
    let mut out: Vec<CoordinateTransform> = Vec::new();
    let mut i: usize = 0;
    while i < items.len()
        invariant
            0 <= i <= items@.len(),
            out@.len() == i,
            forall|k: int| 0 <= k < i ==> ct_decodable(#[trigger] items@[k]),
            forall|k: int| 0 <= k < i ==> ct_rep(#[trigger] out@[k], items@[k]),
        decreases items@.len() - i,
    {
        match decode_ct(&items[i]) {
            Ok(c) => {
                out.push(c);
            },
            Err(e) => {
                return Err(e);
            },
        }
        i = i + 1;
    }
    Ok(out)
}

/// Whether a tree node declares one resolution level: an object of
/// `path` and `coordinateTransformations`, nothing else.
pub open spec fn dataset_decodable(v: JsonValue) -> bool {
    &&& v matches JsonValue::Obj(entries)
    &&& keys_within(entries@, seq!["path"@, "coordinateTransformations"@])
    &&& req_str_field(entries@, "path"@) is Some
    &&& spec_obj_get(entries@, "coordinateTransformations"@) matches Some(JsonValue::Arr(items))
        && cts_decodable(items@)
}

/// Whether `d` is what decoding the tree node yields.
pub open spec fn dataset_rep(d: MultiscaleImageDataset, v: JsonValue) -> bool {
    &&& v matches JsonValue::Obj(entries)
    &&& req_str_field(entries@, "path"@) == Some(d.path)
    &&& spec_obj_get(entries@, "coordinateTransformations"@) matches Some(JsonValue::Arr(items))
        && cts_rep(d.coordinate_transformations@, items@)
}

/// Decode one resolution level.
pub fn decode_dataset(v: &JsonValue) -> (r: Result<MultiscaleImageDataset, DecodeError>)
    ensures
        r is Ok <==> dataset_decodable(*v),
        r matches Ok(d) ==> dataset_rep(d, *v),
{
    let entries = match v {
        JsonValue::Obj(entries) => entries,
        _ => {
            return Err(DecodeError::WrongType(String::from_str("dataset")));
        },
    };
    let mut allowed: Vec<String> = Vec::new();
    allowed.push(String::from_str("path"));
    allowed.push(String::from_str("coordinateTransformations"));
    proof {
        assert(allowed@.map_values(|s: String| s@) =~= seq![
            "path"@,
            "coordinateTransformations"@,
        ]);
    }
    match check_keys_within(entries, &allowed) {
        Some(k) => {
            return Err(DecodeError::UnknownField(k));
        },
        None => {},
    }
    let path = match get_req_str(entries, "path") {
        Ok(path) => path,
        Err(e) => {
            return Err(e);
        },
    };
    let coordinate_transformations = match obj_get(entries, "coordinateTransformations") {
        Some(JsonValue::Arr(items)) => match decode_cts(items) {
            Ok(cts) => cts,
            Err(e) => {
                return Err(e);
            },
        },
        Some(_) => {
            return Err(
                DecodeError::WrongType(String::from_str("coordinateTransformations")),
            );
        },
        None => {
            return Err(
                DecodeError::MissingField(String::from_str("coordinateTransformations")),
            );
        },
    };
    Ok(MultiscaleImageDataset { path, coordinate_transformations })
}

/// Whether every element of the array declares a resolution level.
pub open spec fn datasets_decodable(items: Seq<JsonValue>) -> bool {
    forall|i: int| 0 <= i < items.len() ==> dataset_decodable(#[trigger] items[i])
}

/// Whether the dataset list is what decoding the array yields.
pub open spec fn datasets_rep(dss: Seq<MultiscaleImageDataset>, items: Seq<JsonValue>) -> bool {
    dss.len() == items.len() && forall|i: int|
        0 <= i < items.len() ==> dataset_rep(#[trigger] dss[i], items[i])
}

/// Decode an array of resolution levels.
pub fn decode_datasets(items: &Vec<JsonValue>) -> (r: Result<
    Vec<MultiscaleImageDataset>,
    DecodeError,
>)
    ensures
        r is Ok <==> datasets_decodable(items@),
        r matches Ok(v) ==> datasets_rep(v@, items@),
{
    let mut out: Vec<MultiscaleImageDataset> = Vec::new();
    let mut i: usize = 0;
    while i < items.len()
        invariant
            0 <= i <= items@.len(),
            out@.len() == i,
            forall|k: int| 0 <= k < i ==> dataset_decodable(#[trigger] items@[k]),
            forall|k: int| 0 <= k < i ==> dataset_rep(#[trigger] out@[k], items@[k]),
        decreases items@.len() - i,
    {
        match decode_dataset(&items[i]) {
            Ok(d) => {
                out.push(d);
            },
            Err(e) => {
                return Err(e);
            },
        }
        i = i + 1;
    }
    Ok(out)
}

/// Whether every element of the array declares an axis.
pub open spec fn axes_decodable(items: Seq<JsonValue>) -> bool {
    forall|i: int| 0 <= i < items.len() ==> spec_decode_axis(#[trigger] items[i]) is Some
}

/// Whether the axes are what decoding the array yields.
pub open spec fn axes_rep(axes: Seq<Axis>, items: Seq<JsonValue>) -> bool {
    axes.len() == items.len() && forall|i: int|
        0 <= i < items.len() ==> Some(#[trigger] axes[i]) == spec_decode_axis(items[i])
}

/// Decode an array of axes.
pub fn decode_axes(items: &Vec<JsonValue>) -> (r: Result<Vec<Axis>, DecodeError>)
    ensures
        r is Ok <==> axes_decodable(items@),
        r matches Ok(v) ==> axes_rep(v@, items@),
{
    let mut out: Vec<Axis> = Vec::new();
    let mut i: usize = 0;
    while i < items.len()
        invariant
            0 <= i <= items@.len(),
            out@.len() == i,
            forall|k: int| 0 <= k < i ==> spec_decode_axis(#[trigger] items@[k]) is Some,
            forall|k: int| 0 <= k < i ==> Some(#[trigger] out@[k]) == spec_decode_axis(items@[k]),
        decreases items@.len() - i,
    {
        match decode_axis(&items[i]) {
            Ok(a) => {
                out.push(a);
            },
            Err(e) => {
                return Err(e);
            },
        }
        i = i + 1;
    }
    Ok(out)
}

/// Whether the tree node under the optional version key names the given
/// version.
pub open spec fn version_ok(entries: Seq<(String, JsonValue)>, version: Seq<char>) -> bool {
    spec_obj_get(entries, "version"@) matches Some(JsonValue::Str(s)) && s@ == version
}

/// Check the version marker of this era.
fn check_version_0_4(entries: &Vec<(String, JsonValue)>) -> (r: bool)
    ensures
        r == version_ok(entries@, "0.4"@),
{
    match obj_get(entries, "version") {
        Some(JsonValue::Str(s)) => str_eq(s.as_str(), "0.4"),
        _ => false,
    }
}

/// Whether a tree node declares one multiscale image: the version marker
/// when this era demands it, axes, datasets, and the optional fields.
pub open spec fn multiscale_decodable(v: JsonValue, versioned: bool) -> bool {
    &&& v matches JsonValue::Obj(entries)
    &&& keys_within(
        entries@,
        if versioned {
            seq![
                "version"@,
                "name"@,
                "axes"@,
                "datasets"@,
                "coordinateTransformations"@,
                "type"@,
                "metadata"@,
            ]
        } else {
            seq![
                "name"@,
                "axes"@,
                "datasets"@,
                "coordinateTransformations"@,
                "type"@,
                "metadata"@,
            ]
        },
    )
    &&& (versioned ==> version_ok(entries@, "0.4"@))
    &&& opt_str_field(entries@, "name"@) is Some
    &&& spec_obj_get(entries@, "axes"@) matches Some(JsonValue::Arr(items)) && axes_decodable(
        items@,
    )
    &&& spec_obj_get(entries@, "datasets"@) matches Some(JsonValue::Arr(items))
        && datasets_decodable(items@)
    &&& match spec_obj_get(entries@, "coordinateTransformations"@) {
        None => true,
        Some(JsonValue::Null) => true,
        Some(JsonValue::Arr(items)) => cts_decodable(items@),
        Some(_) => false,
    }
    &&& opt_str_field(entries@, "type"@) is Some
    &&& match spec_obj_get(entries@, "metadata"@) {
        None => true,
        Some(JsonValue::Null) => true,
        Some(JsonValue::Obj(_)) => true,
        Some(_) => false,
    }
}

/// Whether `m` is what decoding the tree node yields, apart from the
/// free-form metadata contents, which are not carried through.
pub open spec fn multiscale_rep(m: MultiscaleImage, v: JsonValue) -> bool {
    &&& v matches JsonValue::Obj(entries)
    &&& opt_str_field(entries@, "name"@) == Some(m.name)
    &&& spec_obj_get(entries@, "axes"@) matches Some(JsonValue::Arr(items)) && axes_rep(
        m.axes@,
        items@,
    )
    &&& spec_obj_get(entries@, "datasets"@) matches Some(JsonValue::Arr(items)) && datasets_rep(
        m.datasets@,
        items@,
    )
    &&& match spec_obj_get(entries@, "coordinateTransformations"@) {
        None => m.coordinate_transformations is None,
        Some(JsonValue::Null) => m.coordinate_transformations is None,
        Some(JsonValue::Arr(items)) => m.coordinate_transformations matches Some(cts) && cts_rep(
            cts@,
            items@,
        ),
        Some(_) => false,
    }
    &&& opt_str_field(entries@, "type"@) == Some(m.downscaling_type)
    &&& match spec_obj_get(entries@, "metadata"@) {
        None => m.metadata is None,
        Some(JsonValue::Null) => m.metadata is None,
        Some(JsonValue::Obj(_)) => m.metadata is Some,
        Some(_) => false,
    }
}

/// Decode one multiscale image, demanding the version marker when this
/// era carries one.
pub fn decode_multiscale(v: &JsonValue, versioned: bool) -> (r: Result<
    MultiscaleImage,
    DecodeError,
>)
    ensures
        r is Ok <==> multiscale_decodable(*v, versioned),
        r matches Ok(m) ==> multiscale_rep(m, *v),
{
    let entries = match v {
        JsonValue::Obj(entries) => entries,
        _ => {
            return Err(DecodeError::WrongType(String::from_str("multiscale")));
        },
    };
    let mut allowed: Vec<String> = Vec::new();
    if versioned {
        allowed.push(String::from_str("version"));
    }
    allowed.push(String::from_str("name"));
    allowed.push(String::from_str("axes"));
    allowed.push(String::from_str("datasets"));
    allowed.push(String::from_str("coordinateTransformations"));
    allowed.push(String::from_str("type"));
    allowed.push(String::from_str("metadata"));
    proof {
        if versioned {
            assert(allowed@.map_values(|s: String| s@) =~= seq![
                "version"@,
                "name"@,
                "axes"@,
                "datasets"@,
                "coordinateTransformations"@,
                "type"@,
                "metadata"@,
            ]);
        } else {
            assert(allowed@.map_values(|s: String| s@) =~= seq![
                "name"@,
                "axes"@,
                "datasets"@,
                "coordinateTransformations"@,
                "type"@,
                "metadata"@,
            ]);
        }
    }
    match check_keys_within(entries, &allowed) {
        Some(k) => {
            return Err(DecodeError::UnknownField(k));
        },
        None => {},
    }
    if versioned && !check_version_0_4(entries) {
        return Err(DecodeError::WrongVersion);
    }
    let name = match get_opt_str(entries, "name") {
        Ok(name) => name,
        Err(e) => {
            return Err(e);
        },
    };
    let axes = match obj_get(entries, "axes") {
        Some(JsonValue::Arr(items)) => match decode_axes(items) {
            Ok(axes) => axes,
            Err(e) => {
                return Err(e);
            },
        },
        Some(_) => {
            return Err(DecodeError::WrongType(String::from_str("axes")));
        },
        None => {
            return Err(DecodeError::MissingField(String::from_str("axes")));
        },
    };
    let datasets = match obj_get(entries, "datasets") {
        Some(JsonValue::Arr(items)) => match decode_datasets(items) {
            Ok(datasets) => datasets,
            Err(e) => {
                return Err(e);
            },
        },
        Some(_) => {
            return Err(DecodeError::WrongType(String::from_str("datasets")));
        },
        None => {
            return Err(DecodeError::MissingField(String::from_str("datasets")));
        },
    };
    let coordinate_transformations = match obj_get(entries, "coordinateTransformations") {
        None => None,
        Some(JsonValue::Null) => None,
        Some(JsonValue::Arr(items)) => match decode_cts(items) {
            Ok(cts) => Some(cts),
            Err(e) => {
                return Err(e);
            },
        },
        Some(_) => {
            return Err(
                DecodeError::WrongType(String::from_str("coordinateTransformations")),
            );
        },
    };
    let downscaling_type = match get_opt_str(entries, "type") {
        Ok(t) => t,
        Err(e) => {
            return Err(e);
        },
    };
    let metadata = match obj_get(entries, "metadata") {
        None => None,
        Some(JsonValue::Null) => None,
        Some(JsonValue::Obj(_)) => Some(MultiscaleImageMetadata(Vec::new())),
        Some(_) => {
            return Err(DecodeError::WrongType(String::from_str("metadata")));
        },
    };
    Ok(
        MultiscaleImage {
            name,
            axes,
            datasets,
            coordinate_transformations,
            downscaling_type,
            metadata,
        },
    )
}

/// The acquisition a tree node declares, if its shape is right.
pub open spec fn spec_decode_acquisition(v: JsonValue) -> Option<PlateAcquisition> {
    match v {
        JsonValue::Obj(entries) => if !keys_within(
            entries@,
            seq![
                "id"@,
                "name"@,
                "maximumfieldcount"@,
                "description"@,
                "starttime"@,
                "endtime"@,
            ],
        ) {
            None
        } else {
            match (
                req_u64_field(entries@, "id"@),
                opt_str_field(entries@, "name"@),
                opt_u64_field(entries@, "maximumfieldcount"@),
                opt_str_field(entries@, "description"@),
                opt_u64_field(entries@, "starttime"@),
                opt_u64_field(entries@, "endtime"@),
            ) {
                (Some(id), Some(name), Some(mfc), Some(description), Some(st), Some(en)) => if (
                mfc matches Some(m) ==> m != 0) {
                    Some(
                        PlateAcquisition {
                            id,
                            name,
                            maximum_field_count: mfc,
                            description,
                            start_time: st,
                            end_time: en,
                        },
                    )
                } else {
                    None
                },
                _ => None,
            }
        },
        _ => None,
    }
}

/// Decode one acquisition.
pub fn decode_acquisition(v: &JsonValue) -> (r: Result<PlateAcquisition, DecodeError>)
    ensures
        match spec_decode_acquisition(*v) {
            Some(a) => r == Ok::<PlateAcquisition, DecodeError>(a),
            None => r is Err,
        },
{
    let entries = match v {
        JsonValue::Obj(entries) => entries,
        _ => {
            return Err(DecodeError::WrongType(String::from_str("acquisition")));
        },
    };
    let mut allowed: Vec<String> = Vec::new();
    allowed.push(String::from_str("id"));
    allowed.push(String::from_str("name"));
    allowed.push(String::from_str("maximumfieldcount"));
    allowed.push(String::from_str("description"));
    allowed.push(String::from_str("starttime"));
    allowed.push(String::from_str("endtime"));
    proof {
        assert(allowed@.map_values(|s: String| s@) =~= seq![
            "id"@,
            "name"@,
            "maximumfieldcount"@,
            "description"@,
            "starttime"@,
            "endtime"@,
        ]);
    }
    match check_keys_within(entries, &allowed) {
        Some(k) => {
            return Err(DecodeError::UnknownField(k));
        },
        None => {},
    }
    let id = match get_req_u64(entries, "id") {
        Ok(id) => id,
        Err(e) => {
            return Err(e);
        },
    };
    let name = match get_opt_str(entries, "name") {
        Ok(name) => name,
        Err(e) => {
            return Err(e);
        },
    };
    let maximum_field_count = match get_opt_u64(entries, "maximumfieldcount") {
        Ok(Some(m)) => {
            if m == 0 {
                return Err(DecodeError::WrongType(String::from_str("maximumfieldcount")));
            }
            Some(m)
        },
        Ok(None) => None,
        Err(e) => {
            return Err(e);
        },
    };
    let description = match get_opt_str(entries, "description") {
        Ok(d) => d,
        Err(e) => {
            return Err(e);
        },
    };
    let start_time = match get_opt_u64(entries, "starttime") {
        Ok(t) => t,
        Err(e) => {
            return Err(e);
        },
    };
    let end_time = match get_opt_u64(entries, "endtime") {
        Ok(t) => t,
        Err(e) => {
            return Err(e);
        },
    };
    Ok(PlateAcquisition { id, name, maximum_field_count, description, start_time, end_time })
}

/// The column a tree node declares, if its shape is right.
pub open spec fn spec_decode_column(v: JsonValue) -> Option<PlateColumn> {
    match v {
        JsonValue::Obj(entries) => if keys_within(entries@, seq!["name"@]) {
            match req_str_field(entries@, "name"@) {
                Some(name) => Some(PlateColumn { name }),
                None => None,
            }
        } else {
            None
        },
        _ => None,
    }
}

/// The row a tree node declares, if its shape is right.
pub open spec fn spec_decode_row(v: JsonValue) -> Option<PlateRow> {
    match v {
        JsonValue::Obj(entries) => if keys_within(entries@, seq!["name"@]) {
            match req_str_field(entries@, "name"@) {
                Some(name) => Some(PlateRow { name }),
                None => None,
            }
        } else {
            None
        },
        _ => None,
    }
}

/// Decode one column.
pub fn decode_column(v: &JsonValue) -> (r: Result<PlateColumn, DecodeError>)
    ensures
        match spec_decode_column(*v) {
            Some(c) => r == Ok::<PlateColumn, DecodeError>(c),
            None => r is Err,
        },
{
    let entries = match v {
        JsonValue::Obj(entries) => entries,
        _ => {
            return Err(DecodeError::WrongType(String::from_str("column")));
        },
    };
    let mut allowed: Vec<String> = Vec::new();
    allowed.push(String::from_str("name"));
    proof {
        assert(allowed@.map_values(|s: String| s@) =~= seq!["name"@]);
    }
    match check_keys_within(entries, &allowed) {
        Some(k) => {
            return Err(DecodeError::UnknownField(k));
        },
        None => {},
    }
    match get_req_str(entries, "name") {
        Ok(name) => Ok(PlateColumn { name }),
        Err(e) => Err(e),
    }
}

/// Decode one row.
pub fn decode_row(v: &JsonValue) -> (r: Result<PlateRow, DecodeError>)
    ensures
        match spec_decode_row(*v) {
            Some(c) => r == Ok::<PlateRow, DecodeError>(c),
            None => r is Err,
        },
{
    let entries = match v {
        JsonValue::Obj(entries) => entries,
        _ => {
            return Err(DecodeError::WrongType(String::from_str("row")));
        },
    };
    let mut allowed: Vec<String> = Vec::new();
    allowed.push(String::from_str("name"));
    proof {
        assert(allowed@.map_values(|s: String| s@) =~= seq!["name"@]);
    }
    match check_keys_within(entries, &allowed) {
        Some(k) => {
            return Err(DecodeError::UnknownField(k));
        },
        None => {},
    }
    match get_req_str(entries, "name") {
        Ok(name) => Ok(PlateRow { name }),
        Err(e) => Err(e),
    }
}

/// The well reference a tree node declares, if its shape is right.
pub open spec fn spec_decode_plate_well(v: JsonValue) -> Option<PlateWell> {
    match v {
        JsonValue::Obj(entries) => if !keys_within(
            entries@,
            seq!["path"@, "rowIndex"@, "columnIndex"@],
        ) {
            None
        } else {
            match (
                req_str_field(entries@, "path"@),
                req_u64_field(entries@, "rowIndex"@),
                req_u64_field(entries@, "columnIndex"@),
            ) {
                (Some(path), Some(ri), Some(ci)) => if ri <= usize::MAX as u64 && ci
                    <= usize::MAX as u64 {
                    Some(PlateWell { path, row_index: ri as usize, column_index: ci as usize })
                } else {
                    None
                },
                _ => None,
            }
        },
        _ => None,
    }
}

/// Decode one well reference.
pub fn decode_plate_well(v: &JsonValue) -> (r: Result<PlateWell, DecodeError>)
    ensures
        match spec_decode_plate_well(*v) {
            Some(w) => r == Ok::<PlateWell, DecodeError>(w),
            None => r is Err,
        },
{
    let entries = match v {
        JsonValue::Obj(entries) => entries,
        _ => {
            return Err(DecodeError::WrongType(String::from_str("well")));
        },
    };
    let mut allowed: Vec<String> = Vec::new();
    allowed.push(String::from_str("path"));
    allowed.push(String::from_str("rowIndex"));
    allowed.push(String::from_str("columnIndex"));
    proof {
        assert(allowed@.map_values(|s: String| s@) =~= seq![
            "path"@,
            "rowIndex"@,
            "columnIndex"@,
        ]);
    }
    match check_keys_within(entries, &allowed) {
        Some(k) => {
            return Err(DecodeError::UnknownField(k));
        },
        None => {},
    }
    let path = match get_req_str(entries, "path") {
        Ok(path) => path,
        Err(e) => {
            return Err(e);
        },
    };
    let ri = match get_req_u64(entries, "rowIndex") {
        Ok(ri) => ri,
        Err(e) => {
            return Err(e);
        },
    };
    let ci = match get_req_u64(entries, "columnIndex") {
        Ok(ci) => ci,
        Err(e) => {
            return Err(e);
        },
    };
    if ri > usize::MAX as u64 || ci > usize::MAX as u64 {
        return Err(DecodeError::WrongType(String::from_str("rowIndex")));
    }
    Ok(PlateWell { path, row_index: ri as usize, column_index: ci as usize })
}


/// Decode an array of acquisitions.
pub fn decode_acquisitions(items: &Vec<JsonValue>) -> (r: Result<
    Vec<PlateAcquisition>,
    DecodeError,
>)
    ensures
        r is Ok <==> (forall|i: int|
            0 <= i < items@.len() ==> spec_decode_acquisition(#[trigger] items@[i]) is Some),
        r matches Ok(v) ==> v@.len() == items@.len() && (forall|i: int|
            0 <= i < items@.len() ==> Some(#[trigger] v@[i]) == spec_decode_acquisition(
                items@[i],
            )),
{
    let mut out: Vec<PlateAcquisition> = Vec::new();
    let mut i: usize = 0;
    while i < items.len()
        invariant
            0 <= i <= items@.len(),
            out@.len() == i,
            forall|k: int| 0 <= k < i ==> spec_decode_acquisition(#[trigger] items@[k]) is Some,
            forall|k: int|
                0 <= k < i ==> Some(#[trigger] out@[k]) == spec_decode_acquisition(items@[k]),
        decreases items@.len() - i,
    {
        match decode_acquisition(&items[i]) {
            Ok(a) => {
                out.push(a);
            },
            Err(e) => {
                return Err(e);
            },
        }
        i = i + 1;
    }
    Ok(out)
}

/// Decode an array of columns.
pub fn decode_columns(items: &Vec<JsonValue>) -> (r: Result<Vec<PlateColumn>, DecodeError>)
    ensures
        r is Ok <==> (forall|i: int|
            0 <= i < items@.len() ==> spec_decode_column(#[trigger] items@[i]) is Some),
        r matches Ok(v) ==> v@.len() == items@.len() && (forall|i: int|
            0 <= i < items@.len() ==> Some(#[trigger] v@[i]) == spec_decode_column(items@[i])),
{
    let mut out: Vec<PlateColumn> = Vec::new();
    let mut i: usize = 0;
    while i < items.len()
        invariant
            0 <= i <= items@.len(),
            out@.len() == i,
            forall|k: int| 0 <= k < i ==> spec_decode_column(#[trigger] items@[k]) is Some,
            forall|k: int|
                0 <= k < i ==> Some(#[trigger] out@[k]) == spec_decode_column(items@[k]),
        decreases items@.len() - i,
    {
        match decode_column(&items[i]) {
            Ok(c) => {
                out.push(c);
            },
            Err(e) => {
                return Err(e);
            },
        }
        i = i + 1;
    }
    Ok(out)
}

/// Decode an array of rows.
pub fn decode_rows(items: &Vec<JsonValue>) -> (r: Result<Vec<PlateRow>, DecodeError>)
    ensures
        r is Ok <==> (forall|i: int|
            0 <= i < items@.len() ==> spec_decode_row(#[trigger] items@[i]) is Some),
        r matches Ok(v) ==> v@.len() == items@.len() && (forall|i: int|
            0 <= i < items@.len() ==> Some(#[trigger] v@[i]) == spec_decode_row(items@[i])),
{
    let mut out: Vec<PlateRow> = Vec::new();
    let mut i: usize = 0;
    while i < items.len()
        invariant
            0 <= i <= items@.len(),
            out@.len() == i,
            forall|k: int| 0 <= k < i ==> spec_decode_row(#[trigger] items@[k]) is Some,
            forall|k: int| 0 <= k < i ==> Some(#[trigger] out@[k]) == spec_decode_row(items@[k]),
        decreases items@.len() - i,
    {
        match decode_row(&items[i]) {
            Ok(c) => {
                out.push(c);
            },
            Err(e) => {
                return Err(e);
            },
        }
        i = i + 1;
    }
    Ok(out)
}

/// Decode an array of well references.
pub fn decode_plate_wells(items: &Vec<JsonValue>) -> (r: Result<Vec<PlateWell>, DecodeError>)
    ensures
        r is Ok <==> (forall|i: int|
            0 <= i < items@.len() ==> spec_decode_plate_well(#[trigger] items@[i]) is Some),
        r matches Ok(v) ==> v@.len() == items@.len() && (forall|i: int|
            0 <= i < items@.len() ==> Some(#[trigger] v@[i]) == spec_decode_plate_well(
                items@[i],
            )),
{
    let mut out: Vec<PlateWell> = Vec::new();
    let mut i: usize = 0;
    while i < items.len()
        invariant
            0 <= i <= items@.len(),
            out@.len() == i,
            forall|k: int| 0 <= k < i ==> spec_decode_plate_well(#[trigger] items@[k]) is Some,
            forall|k: int|
                0 <= k < i ==> Some(#[trigger] out@[k]) == spec_decode_plate_well(items@[k]),
        decreases items@.len() - i,
    {
        match decode_plate_well(&items[i]) {
            Ok(w) => {
                out.push(w);
            },
            Err(e) => {
                return Err(e);
            },
        }
        i = i + 1;
    }
    Ok(out)
}

/// Whether a tree node declares a plate: the version marker when this
/// era demands it, columns, rows, wells, and the optional fields.
pub open spec fn plate_decodable(v: JsonValue, versioned: bool) -> bool {
    &&& v matches JsonValue::Obj(entries)
    &&& keys_within(
        entries@,
        if versioned {
            seq![
                "version"@,
                "acquisitions"@,
                "columns"@,
                "field_count"@,
                "name"@,
                "rows"@,
                "wells"@,
            ]
        } else {
            seq!["acquisitions"@, "columns"@, "field_count"@, "name"@, "rows"@, "wells"@]
        },
    )
    &&& (versioned ==> version_ok(entries@, "0.4"@))
    &&& match spec_obj_get(entries@, "acquisitions"@) {
        None => true,
        Some(JsonValue::Null) => true,
        Some(JsonValue::Arr(items)) => forall|i: int|
            0 <= i < items@.len() ==> spec_decode_acquisition(#[trigger] items@[i]) is Some,
        Some(_) => false,
    }
    &&& spec_obj_get(entries@, "columns"@) matches Some(JsonValue::Arr(items)) && (forall|i: int|
        0 <= i < items@.len() ==> spec_decode_column(#[trigger] items@[i]) is Some)
    &&& match opt_u64_field(entries@, "field_count"@) {
        Some(Some(u)) => u != 0,
        Some(None) => true,
        None => false,
    }
    &&& opt_str_field(entries@, "name"@) is Some
    &&& spec_obj_get(entries@, "rows"@) matches Some(JsonValue::Arr(items)) && (forall|i: int|
        0 <= i < items@.len() ==> spec_decode_row(#[trigger] items@[i]) is Some)
    &&& spec_obj_get(entries@, "wells"@) matches Some(JsonValue::Arr(items)) && (forall|i: int|
        0 <= i < items@.len() ==> spec_decode_plate_well(#[trigger] items@[i]) is Some)
}

/// Whether `p` is what decoding the tree node yields.
pub open spec fn plate_rep(p: Plate, v: JsonValue) -> bool {
    &&& v matches JsonValue::Obj(entries)
    &&& match spec_obj_get(entries@, "acquisitions"@) {
        None => p.acquisitions is None,
        Some(JsonValue::Null) => p.acquisitions is None,
        Some(JsonValue::Arr(items)) => p.acquisitions matches Some(acqs) && acqs@.len()
            == items@.len() && (forall|i: int|
            0 <= i < items@.len() ==> Some(#[trigger] acqs@[i]) == spec_decode_acquisition(
                items@[i],
            )),
        Some(_) => false,
    }
    &&& spec_obj_get(entries@, "columns"@) matches Some(JsonValue::Arr(items)) && p.columns@.len()
        == items@.len() && (forall|i: int|
        0 <= i < items@.len() ==> Some(#[trigger] p.columns@[i]) == spec_decode_column(items@[i]))
    &&& opt_u64_field(entries@, "field_count"@) == Some(p.field_count)
    &&& opt_str_field(entries@, "name"@) == Some(p.name)
    &&& spec_obj_get(entries@, "rows"@) matches Some(JsonValue::Arr(items)) && p.rows@.len()
        == items@.len() && (forall|i: int|
        0 <= i < items@.len() ==> Some(#[trigger] p.rows@[i]) == spec_decode_row(items@[i]))
    &&& spec_obj_get(entries@, "wells"@) matches Some(JsonValue::Arr(items)) && p.wells@.len()
        == items@.len() && (forall|i: int|
        0 <= i < items@.len() ==> Some(#[trigger] p.wells@[i]) == spec_decode_plate_well(
            items@[i],
        ))
}

/// Decode one plate, demanding the version marker when this era carries
/// one.
#[verifier::rlimit(60)]
pub fn decode_plate(v: &JsonValue, versioned: bool) -> (r: Result<Plate, DecodeError>)
    ensures
        r is Ok <==> plate_decodable(*v, versioned),
        r matches Ok(p) ==> plate_rep(p, *v),
{
    let entries = match v {
        JsonValue::Obj(entries) => entries,
        _ => {
            return Err(DecodeError::WrongType(String::from_str("plate")));
        },
    };
    let mut allowed: Vec<String> = Vec::new();
    if versioned {
        allowed.push(String::from_str("version"));
    }
    allowed.push(String::from_str("acquisitions"));
    allowed.push(String::from_str("columns"));
    allowed.push(String::from_str("field_count"));
    allowed.push(String::from_str("name"));
    allowed.push(String::from_str("rows"));
    allowed.push(String::from_str("wells"));
    proof {
        if versioned {
            assert(allowed@.map_values(|s: String| s@) =~= seq![
                "version"@,
                "acquisitions"@,
                "columns"@,
                "field_count"@,
                "name"@,
                "rows"@,
                "wells"@,
            ]);
        } else {
            assert(allowed@.map_values(|s: String| s@) =~= seq![
                "acquisitions"@,
                "columns"@,
                "field_count"@,
                "name"@,
                "rows"@,
                "wells"@,
            ]);
        }
    }
    match check_keys_within(entries, &allowed) {
        Some(k) => {
            return Err(DecodeError::UnknownField(k));
        },
        None => {},
    }
    if versioned && !check_version_0_4(entries) {
        return Err(DecodeError::WrongVersion);
    }
    let acquisitions = match obj_get(entries, "acquisitions") {
        None => None,
        Some(JsonValue::Null) => None,
        Some(JsonValue::Arr(items)) => match decode_acquisitions(items) {
            Ok(out) => Some(out),
            Err(e) => {
                return Err(e);
            },
        },
        Some(_) => {
            return Err(DecodeError::WrongType(String::from_str("acquisitions")));
        },
    };
    let columns = match obj_get(entries, "columns") {
        Some(JsonValue::Arr(items)) => match decode_columns(items) {
            Ok(out) => out,
            Err(e) => {
                return Err(e);
            },
        },
        Some(_) => {
            return Err(DecodeError::WrongType(String::from_str("columns")));
        },
        None => {
            return Err(DecodeError::MissingField(String::from_str("columns")));
        },
    };
    let field_count = match get_opt_u64(entries, "field_count") {
        Ok(Some(u)) => {
            if u == 0 {
                return Err(DecodeError::WrongType(String::from_str("field_count")));
            }
            Some(u)
        },
        Ok(None) => None,
        Err(e) => {
            return Err(e);
        },
    };
    let name = match get_opt_str(entries, "name") {
        Ok(name) => name,
        Err(e) => {
            return Err(e);
        },
    };
    let rows = match obj_get(entries, "rows") {
        Some(JsonValue::Arr(items)) => match decode_rows(items) {
            Ok(out) => out,
            Err(e) => {
                return Err(e);
            },
        },
        Some(_) => {
            return Err(DecodeError::WrongType(String::from_str("rows")));
        },
        None => {
            return Err(DecodeError::MissingField(String::from_str("rows")));
        },
    };
    let wells = match obj_get(entries, "wells") {
        Some(JsonValue::Arr(items)) => match decode_plate_wells(items) {
            Ok(out) => out,
            Err(e) => {
                return Err(e);
            },
        },
        Some(_) => {
            return Err(DecodeError::WrongType(String::from_str("wells")));
        },
        None => {
            return Err(DecodeError::MissingField(String::from_str("wells")));
        },
    };
    Ok(Plate { acquisitions, columns, field_count, name, rows, wells })
}

/// Decode an RGBA quadruple of bytes.
fn decode_rgba(items: &Vec<JsonValue>) -> (r: Result<[u8; 4], DecodeError>)
    ensures
        r is Ok <==> (items@.len() == 4 && (forall|i: int|
            0 <= i < 4 ==> ((#[trigger] items@[i]) matches JsonValue::Num(JsonNum::Unsigned(u))
                && u <= 255))),
        r matches Ok(rgba) ==> (items@.len() == 4 && (forall|i: int|
            0 <= i < 4 ==> (#[trigger] items@[i]) == JsonValue::Num(
                JsonNum::Unsigned(rgba@[i] as u64),
            ))),
{
    if items.len() != 4 {
        return Err(DecodeError::WrongType(String::from_str("rgba")));
    }
    let mut rgba: [u8; 4] = [0, 0, 0, 0];
    let mut i: usize = 0;
    while i < 4
        invariant
            0 <= i <= 4,
            items@.len() == 4,
            forall|k: int|
                0 <= k < i ==> ((#[trigger] items@[k]) matches JsonValue::Num(
                    JsonNum::Unsigned(u),
                ) && u <= 255),
            forall|k: int|
                0 <= k < i ==> (#[trigger] items@[k]) == JsonValue::Num(
                    JsonNum::Unsigned(rgba@[k] as u64),
                ),
        decreases 4 - i,
    {
        match &items[i] {
            JsonValue::Num(JsonNum::Unsigned(u)) => {
                if *u > 255 {
                    return Err(DecodeError::WrongType(String::from_str("rgba")));
                }
                rgba[i] = *u as u8;
            },
            _ => {
                return Err(DecodeError::WrongType(String::from_str("rgba")));
            },
        }
        i = i + 1;
    }
    Ok(rgba)
}


/// The label colour a tree node declares, if its shape is right: a
/// label value and an RGBA quadruple of bytes.
pub open spec fn label_color_decodable(v: JsonValue) -> bool {
    &&& v matches JsonValue::Obj(entries)
    &&& keys_within(entries@, seq!["label-value"@, "rgba"@])
    &&& req_u64_field(entries@, "label-value"@) is Some
    &&& spec_obj_get(entries@, "rgba"@) matches Some(JsonValue::Arr(items)) && items@.len() == 4
        && (forall|i: int|
        0 <= i < 4 ==> ((#[trigger] items@[i]) matches JsonValue::Num(JsonNum::Unsigned(u))
            && u <= 255))
}

/// Whether `c` is what decoding the tree node yields.
pub open spec fn label_color_rep(c: ImageLabelColor, v: JsonValue) -> bool {
    &&& v matches JsonValue::Obj(entries)
    &&& req_u64_field(entries@, "label-value"@) == Some(c.label_value)
    &&& spec_obj_get(entries@, "rgba"@) matches Some(JsonValue::Arr(items)) && items@.len() == 4
        && (forall|i: int|
        0 <= i < 4 ==> (#[trigger] items@[i]) == JsonValue::Num(
            JsonNum::Unsigned(c.rgba@[i] as u64),
        ))
}

/// Decode one label colour.
pub fn decode_label_color(v: &JsonValue) -> (r: Result<ImageLabelColor, DecodeError>)
    ensures
        r is Ok <==> label_color_decodable(*v),
        r matches Ok(c) ==> label_color_rep(c, *v),
{
    let entries = match v {
        JsonValue::Obj(entries) => entries,
        _ => {
            return Err(DecodeError::WrongType(String::from_str("color")));
        },
    };
    let mut allowed: Vec<String> = Vec::new();
    allowed.push(String::from_str("label-value"));
    allowed.push(String::from_str("rgba"));
    proof {
        assert(allowed@.map_values(|s: String| s@) =~= seq!["label-value"@, "rgba"@]);
    }
    match check_keys_within(entries, &allowed) {
        Some(k) => {
            return Err(DecodeError::UnknownField(k));
        },
        None => {},
    }
    let label_value = match get_req_u64(entries, "label-value") {
        Ok(l) => l,
        Err(e) => {
            return Err(e);
        },
    };
    let items = match obj_get(entries, "rgba") {
        Some(JsonValue::Arr(items)) => items,
        Some(_) => {
            return Err(DecodeError::WrongType(String::from_str("rgba")));
        },
        None => {
            return Err(DecodeError::MissingField(String::from_str("rgba")));
        },
    };
    let rgba = match decode_rgba(items) {
        Ok(rgba) => rgba,
        Err(e) => {
            return Err(e);
        },
    };
    Ok(ImageLabelColor { label_value, rgba })
}

/// The label properties entry a tree node declares: a label value, with
/// any other fields accepted but not carried through.
pub open spec fn label_properties_decodable(v: JsonValue) -> bool {
    &&& v matches JsonValue::Obj(entries)
    &&& req_u64_field(entries@, "label-value"@) is Some
}

/// Decode one label properties entry.
pub fn decode_label_properties(v: &JsonValue) -> (r: Result<ImageLabelProperties, DecodeError>)
    ensures
        r is Ok <==> label_properties_decodable(*v),
        r matches Ok(p) ==> (v matches JsonValue::Obj(entries) && req_u64_field(
            entries@,
            "label-value"@,
        ) == Some(p.label_value)),
{
    let entries = match v {
        JsonValue::Obj(entries) => entries,
        _ => {
            return Err(DecodeError::WrongType(String::from_str("properties")));
        },
    };
    let label_value = match get_req_u64(entries, "label-value") {
        Ok(l) => l,
        Err(e) => {
            return Err(e);
        },
    };
    Ok(ImageLabelProperties { label_value, properties: Vec::new() })
}

/// The label source a tree node declares: an optional image path, with
/// any other fields accepted.
pub open spec fn spec_decode_label_source(v: JsonValue) -> Option<ImageLabelSource> {
    match v {
        JsonValue::Obj(entries) => match opt_str_field(entries@, "image"@) {
            Some(image) => Some(ImageLabelSource { image }),
            None => None,
        },
        _ => None,
    }
}

/// Decode one label source.
pub fn decode_label_source(v: &JsonValue) -> (r: Result<ImageLabelSource, DecodeError>)
    ensures
        match spec_decode_label_source(*v) {
            Some(s) => r == Ok::<ImageLabelSource, DecodeError>(s),
            None => r is Err,
        },
{
    let entries = match v {
        JsonValue::Obj(entries) => entries,
        _ => {
            return Err(DecodeError::WrongType(String::from_str("source")));
        },
    };
    match get_opt_str(entries, "image") {
        Ok(image) => Ok(ImageLabelSource { image }),
        Err(e) => Err(e),
    }
}

/// Decode an array of label colours.
pub fn decode_label_colors(items: &Vec<JsonValue>) -> (r: Result<
    Vec<ImageLabelColor>,
    DecodeError,
>)
    ensures
        r is Ok <==> (forall|i: int|
            0 <= i < items@.len() ==> label_color_decodable(#[trigger] items@[i])),
        r matches Ok(v) ==> v@.len() == items@.len() && (forall|i: int|
            0 <= i < items@.len() ==> label_color_rep(#[trigger] v@[i], items@[i])),
{
    let mut out: Vec<ImageLabelColor> = Vec::new();
    let mut i: usize = 0;
    while i < items.len()
        invariant
            0 <= i <= items@.len(),
            out@.len() == i,
            forall|k: int| 0 <= k < i ==> label_color_decodable(#[trigger] items@[k]),
            forall|k: int| 0 <= k < i ==> label_color_rep(#[trigger] out@[k], items@[k]),
        decreases items@.len() - i,
    {
        match decode_label_color(&items[i]) {
            Ok(c) => {
                out.push(c);
            },
            Err(e) => {
                return Err(e);
            },
        }
        i = i + 1;
    }
    Ok(out)
}

/// Decode an array of label properties entries.
pub fn decode_label_properties_list(items: &Vec<JsonValue>) -> (r: Result<
    Vec<ImageLabelProperties>,
    DecodeError,
>)
    ensures
        r is Ok <==> (forall|i: int|
            0 <= i < items@.len() ==> label_properties_decodable(#[trigger] items@[i])),
        r matches Ok(v) ==> v@.len() == items@.len(),
{
    let mut out: Vec<ImageLabelProperties> = Vec::new();
    let mut i: usize = 0;
    while i < items.len()
        invariant
            0 <= i <= items@.len(),
            out@.len() == i,
            forall|k: int| 0 <= k < i ==> label_properties_decodable(#[trigger] items@[k]),
        decreases items@.len() - i,
    {
        match decode_label_properties(&items[i]) {
            Ok(c) => {
                out.push(c);
            },
            Err(e) => {
                return Err(e);
            },
        }
        i = i + 1;
    }
    Ok(out)
}

/// Whether a tree node declares an image-label block of this era: the
/// version marker when demanded, colours, properties and source.
pub open spec fn image_label_decodable(v: JsonValue, versioned: bool) -> bool {
    &&& v matches JsonValue::Obj(entries)
    &&& keys_within(
        entries@,
        if versioned {
            seq!["version"@, "colors"@, "properties"@, "source"@]
        } else {
            seq!["colors"@, "properties"@, "source"@]
        },
    )
    &&& (versioned ==> version_ok(entries@, "0.4"@))
    &&& match spec_obj_get(entries@, "colors"@) {
        None => true,
        Some(JsonValue::Null) => true,
        Some(JsonValue::Arr(items)) => forall|i: int|
            0 <= i < items@.len() ==> label_color_decodable(#[trigger] items@[i]),
        Some(_) => false,
    }
    &&& match spec_obj_get(entries@, "properties"@) {
        None => true,
        Some(JsonValue::Null) => true,
        Some(JsonValue::Arr(items)) => forall|i: int|
            0 <= i < items@.len() ==> label_properties_decodable(#[trigger] items@[i]),
        Some(_) => false,
    }
    &&& match spec_obj_get(entries@, "source"@) {
        None => true,
        Some(JsonValue::Null) => true,
        Some(src) => spec_decode_label_source(src) is Some,
    }
}

/// Whether `l` is what decoding the tree node yields, apart from the
/// free-form properties contents.
pub open spec fn image_label_rep(l: ImageLabel, v: JsonValue) -> bool {
    &&& v matches JsonValue::Obj(entries)
    &&& match spec_obj_get(entries@, "colors"@) {
        None => l.colors is None,
        Some(JsonValue::Null) => l.colors is None,
        Some(JsonValue::Arr(items)) => l.colors matches Some(cs) && cs@.len() == items@.len() && (
        forall|i: int| 0 <= i < items@.len() ==> label_color_rep(#[trigger] cs@[i], items@[i])),
        Some(_) => false,
    }
    &&& match spec_obj_get(entries@, "properties"@) {
        None => l.properties is None,
        Some(JsonValue::Null) => l.properties is None,
        Some(JsonValue::Arr(items)) => l.properties matches Some(ps) && ps@.len() == items@.len(),
        Some(_) => false,
    }
    &&& match spec_obj_get(entries@, "source"@) {
        None => l.source is None,
        Some(JsonValue::Null) => l.source is None,
        Some(src) => l.source matches Some(s) && Some(s) == spec_decode_label_source(src),
    }
}

/// Decode one image-label block, demanding the version marker when this
/// era carries one.
pub fn decode_image_label(v: &JsonValue, versioned: bool) -> (r: Result<ImageLabel, DecodeError>)
    ensures
        r is Ok <==> image_label_decodable(*v, versioned),
        r matches Ok(l) ==> image_label_rep(l, *v),
{
    let entries = match v {
        JsonValue::Obj(entries) => entries,
        _ => {
            return Err(DecodeError::WrongType(String::from_str("image-label")));
        },
    };
    let mut allowed: Vec<String> = Vec::new();
    if versioned {
        allowed.push(String::from_str("version"));
    }
    allowed.push(String::from_str("colors"));
    allowed.push(String::from_str("properties"));
    allowed.push(String::from_str("source"));
    proof {
        if versioned {
            assert(allowed@.map_values(|s: String| s@) =~= seq![
                "version"@,
                "colors"@,
                "properties"@,
                "source"@,
            ]);
        } else {
            assert(allowed@.map_values(|s: String| s@) =~= seq![
                "colors"@,
                "properties"@,
                "source"@,
            ]);
        }
    }
    match check_keys_within(entries, &allowed) {
        Some(k) => {
            return Err(DecodeError::UnknownField(k));
        },
        None => {},
    }
    if versioned && !check_version_0_4(entries) {
        return Err(DecodeError::WrongVersion);
    }
    let colors = match obj_get(entries, "colors") {
        None => None,
        Some(JsonValue::Null) => None,
        Some(JsonValue::Arr(items)) => match decode_label_colors(items) {
            Ok(cs) => Some(cs),
            Err(e) => {
                return Err(e);
            },
        },
        Some(_) => {
            return Err(DecodeError::WrongType(String::from_str("colors")));
        },
    };
    let properties = match obj_get(entries, "properties") {
        None => None,
        Some(JsonValue::Null) => None,
        Some(JsonValue::Arr(items)) => match decode_label_properties_list(items) {
            Ok(ps) => Some(ps),
            Err(e) => {
                return Err(e);
            },
        },
        Some(_) => {
            return Err(DecodeError::WrongType(String::from_str("properties")));
        },
    };
    let source = match obj_get(entries, "source") {
        None => None,
        Some(JsonValue::Null) => None,
        Some(src) => match decode_label_source(src) {
            Ok(s) => Some(s),
            Err(e) => {
                return Err(e);
            },
        },
    };
    Ok(ImageLabel { colors, properties, source })
}

/// The field of view a tree node declares, if its shape is right.
pub open spec fn spec_decode_well_image(v: JsonValue) -> Option<WellImage> {
    match v {
        JsonValue::Obj(entries) => if !keys_within(entries@, seq!["path"@, "acquisition"@]) {
            None
        } else {
            match (req_str_field(entries@, "path"@), opt_u64_field(entries@, "acquisition"@)) {
                (Some(path), Some(acquisition)) => Some(WellImage { path, acquisition }),
                _ => None,
            }
        },
        _ => None,
    }
}

/// Decode one field of view.
pub fn decode_well_image(v: &JsonValue) -> (r: Result<WellImage, DecodeError>)
    ensures
        match spec_decode_well_image(*v) {
            Some(w) => r == Ok::<WellImage, DecodeError>(w),
            None => r is Err,
        },
{
    let entries = match v {
        JsonValue::Obj(entries) => entries,
        _ => {
            return Err(DecodeError::WrongType(String::from_str("image")));
        },
    };
    let mut allowed: Vec<String> = Vec::new();
    allowed.push(String::from_str("path"));
    allowed.push(String::from_str("acquisition"));
    proof {
        assert(allowed@.map_values(|s: String| s@) =~= seq!["path"@, "acquisition"@]);
    }
    match check_keys_within(entries, &allowed) {
        Some(k) => {
            return Err(DecodeError::UnknownField(k));
        },
        None => {},
    }
    let path = match get_req_str(entries, "path") {
        Ok(path) => path,
        Err(e) => {
            return Err(e);
        },
    };
    let acquisition = match get_opt_u64(entries, "acquisition") {
        Ok(a) => a,
        Err(e) => {
            return Err(e);
        },
    };
    Ok(WellImage { path, acquisition })
}

/// Whether a tree node declares a well: the version marker when this era
/// demands it, and the fields of view.
pub open spec fn well_decodable(v: JsonValue, versioned: bool) -> bool {
    &&& v matches JsonValue::Obj(entries)
    &&& keys_within(
        entries@,
        if versioned {
            seq!["version"@, "images"@]
        } else {
            seq!["images"@]
        },
    )
    &&& (versioned ==> version_ok(entries@, "0.4"@))
    &&& spec_obj_get(entries@, "images"@) matches Some(JsonValue::Arr(items)) && (forall|i: int|
        0 <= i < items@.len() ==> spec_decode_well_image(#[trigger] items@[i]) is Some)
}

/// Whether `w` is what decoding the tree node yields.
pub open spec fn well_rep(w: Well, v: JsonValue) -> bool {
    &&& v matches JsonValue::Obj(entries)
    &&& spec_obj_get(entries@, "images"@) matches Some(JsonValue::Arr(items)) && w.images@.len()
        == items@.len() && (forall|i: int|
        0 <= i < items@.len() ==> Some(#[trigger] w.images@[i]) == spec_decode_well_image(
            items@[i],
        ))
}

/// Decode an array of fields of view.
pub fn decode_well_images(items: &Vec<JsonValue>) -> (r: Result<Vec<WellImage>, DecodeError>)
    ensures
        r is Ok <==> (forall|i: int|
            0 <= i < items@.len() ==> spec_decode_well_image(#[trigger] items@[i]) is Some),
        r matches Ok(v) ==> v@.len() == items@.len() && (forall|i: int|
            0 <= i < items@.len() ==> Some(#[trigger] v@[i]) == spec_decode_well_image(
                items@[i],
            )),
{
    let mut out: Vec<WellImage> = Vec::new();
    let mut i: usize = 0;
    while i < items.len()
        invariant
            0 <= i <= items@.len(),
            out@.len() == i,
            forall|k: int| 0 <= k < i ==> spec_decode_well_image(#[trigger] items@[k]) is Some,
            forall|k: int|
                0 <= k < i ==> Some(#[trigger] out@[k]) == spec_decode_well_image(items@[k]),
        decreases items@.len() - i,
    {
        match decode_well_image(&items[i]) {
            Ok(w) => {
                out.push(w);
            },
            Err(e) => {
                return Err(e);
            },
        }
        i = i + 1;
    }
    Ok(out)
}

/// Decode one well, demanding the version marker when this era carries
/// one.
pub fn decode_well(v: &JsonValue, versioned: bool) -> (r: Result<Well, DecodeError>)
    ensures
        r is Ok <==> well_decodable(*v, versioned),
        r matches Ok(w) ==> well_rep(w, *v),
{
    let entries = match v {
        JsonValue::Obj(entries) => entries,
        _ => {
            return Err(DecodeError::WrongType(String::from_str("well")));
        },
    };
    let mut allowed: Vec<String> = Vec::new();
    if versioned {
        allowed.push(String::from_str("version"));
    }
    allowed.push(String::from_str("images"));
    proof {
        if versioned {
            assert(allowed@.map_values(|s: String| s@) =~= seq!["version"@, "images"@]);
        } else {
            assert(allowed@.map_values(|s: String| s@) =~= seq!["images"@]);
        }
    }
    match check_keys_within(entries, &allowed) {
        Some(k) => {
            return Err(DecodeError::UnknownField(k));
        },
        None => {},
    }
    if versioned && !check_version_0_4(entries) {
        return Err(DecodeError::WrongVersion);
    }
    let images = match obj_get(entries, "images") {
        Some(JsonValue::Arr(items)) => match decode_well_images(items) {
            Ok(images) => images,
            Err(e) => {
                return Err(e);
            },
        },
        Some(_) => {
            return Err(DecodeError::WrongType(String::from_str("images")));
        },
        None => {
            return Err(DecodeError::MissingField(String::from_str("images")));
        },
    };
    Ok(Well { images })
}

/// Whether a tree node declares a channel window: the four boundary
/// numbers, with any other fields accepted.
pub open spec fn window_decodable(v: JsonValue) -> bool {
    &&& v matches JsonValue::Obj(entries)
    &&& (spec_obj_get(entries@, "min"@) matches Some(JsonValue::Num(n)) && spec_float_of_num(n)
        is Some)
    &&& (spec_obj_get(entries@, "max"@) matches Some(JsonValue::Num(n)) && spec_float_of_num(n)
        is Some)
    &&& (spec_obj_get(entries@, "start"@) matches Some(JsonValue::Num(n)) && spec_float_of_num(n)
        is Some)
    &&& (spec_obj_get(entries@, "end"@) matches Some(JsonValue::Num(n)) && spec_float_of_num(n)
        is Some)
}

/// Whether `w` is what decoding the tree node yields.
pub open spec fn window_rep(w: Window, v: JsonValue) -> bool {
    &&& v matches JsonValue::Obj(entries)
    &&& (spec_obj_get(entries@, "min"@) matches Some(JsonValue::Num(n)) && spec_float_of_num(n)
        == Some(w.min))
    &&& (spec_obj_get(entries@, "max"@) matches Some(JsonValue::Num(n)) && spec_float_of_num(n)
        == Some(w.max))
    &&& (spec_obj_get(entries@, "start"@) matches Some(JsonValue::Num(n)) && spec_float_of_num(n)
        == Some(w.start))
    &&& (spec_obj_get(entries@, "end"@) matches Some(JsonValue::Num(n)) && spec_float_of_num(n)
        == Some(w.end))
}

/// Fetch a required number field as a floating-point value.
fn get_req_float(entries: &Vec<(String, JsonValue)>, key: &str) -> (r: Result<
    Float64,
    DecodeError,
>)
    ensures
        r is Ok <==> (spec_obj_get(entries@, key@) matches Some(JsonValue::Num(n))
            && spec_float_of_num(n) is Some),
        r matches Ok(f) ==> (spec_obj_get(entries@, key@) matches Some(JsonValue::Num(n))
            && spec_float_of_num(n) == Some(f)),
{
    match obj_get(entries, key) {
        Some(JsonValue::Num(n)) => match float_of_num(n) {
            Some(f) => Ok(f),
            None => Err(DecodeError::WrongType(String::from_str(key))),
        },
        Some(_) => Err(DecodeError::WrongType(String::from_str(key))),
        None => Err(DecodeError::MissingField(String::from_str(key))),
    }
}

/// Decode one channel window.
pub fn decode_window(v: &JsonValue) -> (r: Result<Window, DecodeError>)
    ensures
        r is Ok <==> window_decodable(*v),
        r matches Ok(w) ==> window_rep(w, *v),
{
    let entries = match v {
        JsonValue::Obj(entries) => entries,
        _ => {
            return Err(DecodeError::WrongType(String::from_str("window")));
        },
    };
    let min = match get_req_float(entries, "min") {
        Ok(f) => f,
        Err(e) => {
            return Err(e);
        },
    };
    let max = match get_req_float(entries, "max") {
        Ok(f) => f,
        Err(e) => {
            return Err(e);
        },
    };
    let start = match get_req_float(entries, "start") {
        Ok(f) => f,
        Err(e) => {
            return Err(e);
        },
    };
    let end = match get_req_float(entries, "end") {
        Ok(f) => f,
        Err(e) => {
            return Err(e);
        },
    };
    Ok(Window { min, max, start, end })
}

/// Whether a tree node declares a channel: a hex colour and a window,
/// with any other fields accepted.
pub open spec fn channel_decodable(v: JsonValue) -> bool {
    &&& v matches JsonValue::Obj(entries)
    &&& (req_str_field(entries@, "color"@) matches Some(s) && valid_hex_color(s@))
    &&& (spec_obj_get(entries@, "window"@) matches Some(w) && window_decodable(w))
}

/// Whether `c` is what decoding the tree node yields, apart from the
/// extra fields, which are not carried through.
pub open spec fn channel_rep(c: Channel, v: JsonValue) -> bool {
    &&& v matches JsonValue::Obj(entries)
    &&& (req_str_field(entries@, "color"@) matches Some(s) && c.color@ == s@)
    &&& (spec_obj_get(entries@, "window"@) matches Some(w) && window_rep(c.window, w))
}

/// Decode one channel.
pub fn decode_channel(v: &JsonValue) -> (r: Result<Channel, DecodeError>)
    ensures
        r is Ok <==> channel_decodable(*v),
        r matches Ok(c) ==> channel_rep(c, *v),
{
    let entries = match v {
        JsonValue::Obj(entries) => entries,
        _ => {
            return Err(DecodeError::WrongType(String::from_str("channel")));
        },
    };
    let color_str = match get_req_str(entries, "color") {
        Ok(s) => s,
        Err(e) => {
            return Err(e);
        },
    };
    let color = match HexColor::try_from(color_str) {
        Ok(c) => c,
        Err(_) => {
            return Err(DecodeError::WrongType(String::from_str("color")));
        },
    };
    let window = match obj_get(entries, "window") {
        Some(w) => match decode_window(w) {
            Ok(w) => w,
            Err(e) => {
                return Err(e);
            },
        },
        None => {
            return Err(DecodeError::MissingField(String::from_str("window")));
        },
    };
    Ok(Channel { color, window, other: Vec::new() })
}

/// Whether a tree node declares an OMERO block: an array of channels,
/// with any other fields accepted.
pub open spec fn omero_decodable(v: JsonValue) -> bool {
    &&& v matches JsonValue::Obj(entries)
    &&& spec_obj_get(entries@, "channels"@) matches Some(JsonValue::Arr(items)) && (forall|i: int|
        0 <= i < items@.len() ==> channel_decodable(#[trigger] items@[i]))
}

/// Whether `o` is what decoding the tree node yields.
pub open spec fn omero_rep(o: Omero, v: JsonValue) -> bool {
    &&& v matches JsonValue::Obj(entries)
    &&& spec_obj_get(entries@, "channels"@) matches Some(JsonValue::Arr(items))
        && o.channels@.len() == items@.len() && (forall|i: int|
        0 <= i < items@.len() ==> channel_rep(#[trigger] o.channels@[i], items@[i]))
}

/// Decode an array of channels.
pub fn decode_channels(items: &Vec<JsonValue>) -> (r: Result<Vec<Channel>, DecodeError>)
    ensures
        r is Ok <==> (forall|i: int|
            0 <= i < items@.len() ==> channel_decodable(#[trigger] items@[i])),
        r matches Ok(v) ==> v@.len() == items@.len() && (forall|i: int|
            0 <= i < items@.len() ==> channel_rep(#[trigger] v@[i], items@[i])),
{
    let mut out: Vec<Channel> = Vec::new();
    let mut i: usize = 0;
    while i < items.len()
        invariant
            0 <= i <= items@.len(),
            out@.len() == i,
            forall|k: int| 0 <= k < i ==> channel_decodable(#[trigger] items@[k]),
            forall|k: int| 0 <= k < i ==> channel_rep(#[trigger] out@[k], items@[k]),
        decreases items@.len() - i,
    {
        match decode_channel(&items[i]) {
            Ok(c) => {
                out.push(c);
            },
            Err(e) => {
                return Err(e);
            },
        }
        i = i + 1;
    }
    Ok(out)
}

/// Decode one OMERO block.
pub fn decode_omero(v: &JsonValue) -> (r: Result<Omero, DecodeError>)
    ensures
        r is Ok <==> omero_decodable(*v),
        r matches Ok(o) ==> omero_rep(o, *v),
{
    let entries = match v {
        JsonValue::Obj(entries) => entries,
        _ => {
            return Err(DecodeError::WrongType(String::from_str("omero")));
        },
    };
    let channels = match obj_get(entries, "channels") {
        Some(JsonValue::Arr(items)) => match decode_channels(items) {
            Ok(cs) => cs,
            Err(e) => {
                return Err(e);
            },
        },
        Some(_) => {
            return Err(DecodeError::WrongType(String::from_str("channels")));
        },
        None => {
            return Err(DecodeError::MissingField(String::from_str("channels")));
        },
    };
    Ok(Omero { channels, other: Vec::new() })
}

/// Whether the top-level entries declare the transitional converter
/// block: the layout marker fixed to 3 and an optional series list.
pub open spec fn bf2raw_state(entries: Seq<(String, JsonValue)>) -> Option<bool> {
    match spec_obj_get(entries, "bioformats2raw.layout"@) {
        None => Some(false),
        Some(JsonValue::Num(JsonNum::Unsigned(u))) => if u == 3 {
            match spec_obj_get(entries, "series"@) {
                None => Some(true),
                Some(JsonValue::Null) => Some(true),
                Some(JsonValue::Arr(items)) => if strings_decodable(items@) {
                    Some(true)
                } else {
                    None
                },
                Some(_) => None,
            }
        } else {
            None
        },
        Some(_) => None,
    }
}

/// Decode the transitional converter block from the top-level entries,
/// when its layout marker is there.
pub fn decode_bf2raw(entries: &Vec<(String, JsonValue)>) -> (r: Result<
    Option<Bioformats2Raw>,
    DecodeError,
>)
    ensures
        r is Ok <==> bf2raw_state(entries@) is Some,
        r is Ok ==> (r matches Ok(o) && (o is Some <==> bf2raw_state(entries@) == Some(true))),
{
    match obj_get(entries, "bioformats2raw.layout") {
        None => Ok(None),
        Some(JsonValue::Num(JsonNum::Unsigned(u))) => {
            if *u != 3 {
                return Err(DecodeError::WrongType(String::from_str("bioformats2raw.layout")));
            }
            let series = match obj_get(entries, "series") {
                None => None,
                Some(JsonValue::Null) => None,
                Some(JsonValue::Arr(items)) => match decode_strings(items) {
                    Ok(ss) => Some(ss),
                    Err(e) => {
                        return Err(e);
                    },
                },
                Some(_) => {
                    return Err(DecodeError::WrongType(String::from_str("series")));
                },
            };
            Ok(Some(Bioformats2Raw { series }))
        },
        Some(_) => Err(DecodeError::WrongType(String::from_str("bioformats2raw.layout"))),
    }
}

/// Decode an array of multiscale images.
pub fn decode_multiscales(items: &Vec<JsonValue>, versioned: bool) -> (r: Result<
    Vec<MultiscaleImage>,
    DecodeError,
>)
    ensures
        r is Ok <==> (forall|i: int|
            0 <= i < items@.len() ==> multiscale_decodable(#[trigger] items@[i], versioned)),
        r matches Ok(v) ==> v@.len() == items@.len() && (forall|i: int|
            0 <= i < items@.len() ==> multiscale_rep(#[trigger] v@[i], items@[i])),
{
    let mut out: Vec<MultiscaleImage> = Vec::new();
    let mut i: usize = 0;
    while i < items.len()
        invariant
            0 <= i <= items@.len(),
            out@.len() == i,
            forall|k: int| 0 <= k < i ==> multiscale_decodable(#[trigger] items@[k], versioned),
            forall|k: int| 0 <= k < i ==> multiscale_rep(#[trigger] out@[k], items@[k]),
        decreases items@.len() - i,
    {
        match decode_multiscale(&items[i], versioned) {
            Ok(m) => {
                out.push(m);
            },
            Err(e) => {
                return Err(e);
            },
        }
        i = i + 1;
    }
    Ok(out)
}

/// Whether a tree node declares this era's free-form top-level
/// attributes. Unknown fields are allowed.
pub open spec fn ngff_attrs_decodable(v: JsonValue) -> bool {
    &&& v matches JsonValue::Obj(entries)
    &&& bf2raw_state(entries@) is Some
    &&& match spec_obj_get(entries@, "multiscales"@) {
        None => true,
        Some(JsonValue::Null) => true,
        Some(JsonValue::Arr(items)) => forall|i: int|
            0 <= i < items@.len() ==> multiscale_decodable(#[trigger] items@[i], true),
        Some(_) => false,
    }
    &&& match spec_obj_get(entries@, "labels"@) {
        None => true,
        Some(JsonValue::Null) => true,
        Some(JsonValue::Arr(items)) => strings_decodable(items@),
        Some(_) => false,
    }
    &&& match spec_obj_get(entries@, "image-label"@) {
        None => true,
        Some(JsonValue::Null) => true,
        Some(il) => image_label_decodable(il, true),
    }
    &&& match spec_obj_get(entries@, "plate"@) {
        None => true,
        Some(JsonValue::Null) => true,
        Some(p) => plate_decodable(p, true),
    }
    &&& match spec_obj_get(entries@, "well"@) {
        None => true,
        Some(JsonValue::Null) => true,
        Some(w) => well_decodable(w, true),
    }
    &&& match spec_obj_get(entries@, "omero"@) {
        None => true,
        Some(JsonValue::Null) => true,
        Some(o) => omero_decodable(o),
    }
}

/// Whether `a` is what decoding the tree node yields.
pub open spec fn ngff_attrs_rep(a: OmeNgffGroupAttributes, v: JsonValue) -> bool {
    &&& v matches JsonValue::Obj(entries)
    &&& (a.bioformats2raw is Some <==> bf2raw_state(entries@) == Some(true))
    &&& match spec_obj_get(entries@, "multiscales"@) {
        None => a.multiscales is None,
        Some(JsonValue::Null) => a.multiscales is None,
        Some(JsonValue::Arr(items)) => a.multiscales matches Some(ms) && ms@.len()
            == items@.len() && (forall|i: int|
            0 <= i < items@.len() ==> multiscale_rep(#[trigger] ms@[i], items@[i])),
        Some(_) => false,
    }
    &&& match spec_obj_get(entries@, "labels"@) {
        None => a.labels is None,
        Some(JsonValue::Null) => a.labels is None,
        Some(JsonValue::Arr(items)) => a.labels matches Some(ls) && ls@ == spec_strings(items@),
        Some(_) => false,
    }
    &&& match spec_obj_get(entries@, "image-label"@) {
        None => a.image_label is None,
        Some(JsonValue::Null) => a.image_label is None,
        Some(il) => a.image_label matches Some(l) && image_label_rep(l, il),
    }
    &&& match spec_obj_get(entries@, "plate"@) {
        None => a.plate is None,
        Some(JsonValue::Null) => a.plate is None,
        Some(pv) => a.plate matches Some(p) && plate_rep(p, pv),
    }
    &&& match spec_obj_get(entries@, "well"@) {
        None => a.well is None,
        Some(JsonValue::Null) => a.well is None,
        Some(wv) => a.well matches Some(w) && well_rep(w, wv),
    }
    &&& match spec_obj_get(entries@, "omero"@) {
        None => a.omero is None,
        Some(JsonValue::Null) => a.omero is None,
        Some(ov) => a.omero matches Some(o) && omero_rep(o, ov),
    }
}

/// Decode this era's free-form top-level attributes.
#[verifier::rlimit(60)]
pub fn decode_ngff_attrs(v: &JsonValue) -> (r: Result<OmeNgffGroupAttributes, DecodeError>)
    ensures
        r is Ok <==> ngff_attrs_decodable(*v),
        r matches Ok(a) ==> ngff_attrs_rep(a, *v),
{
    let entries = match v {
        JsonValue::Obj(entries) => entries,
        _ => {
            return Err(DecodeError::WrongType(String::from_str("attributes")));
        },
    };
    let bioformats2raw = match decode_bf2raw(entries) {
        Ok(b) => b,
        Err(e) => {
            return Err(e);
        },
    };
    let multiscales = match obj_get(entries, "multiscales") {
        None => None,
        Some(JsonValue::Null) => None,
        Some(JsonValue::Arr(items)) => match decode_multiscales(items, true) {
            Ok(ms) => Some(ms),
            Err(e) => {
                return Err(e);
            },
        },
        Some(_) => {
            return Err(DecodeError::WrongType(String::from_str("multiscales")));
        },
    };
    let labels = match obj_get(entries, "labels") {
        None => None,
        Some(JsonValue::Null) => None,
        Some(JsonValue::Arr(items)) => match decode_strings(items) {
            Ok(ls) => Some(ls),
            Err(e) => {
                return Err(e);
            },
        },
        Some(_) => {
            return Err(DecodeError::WrongType(String::from_str("labels")));
        },
    };
    let image_label = match obj_get(entries, "image-label") {
        None => None,
        Some(JsonValue::Null) => None,
        Some(il) => match decode_image_label(il, true) {
            Ok(l) => Some(l),
            Err(e) => {
                return Err(e);
            },
        },
    };
    let plate = match obj_get(entries, "plate") {
        None => None,
        Some(JsonValue::Null) => None,
        Some(pv) => match decode_plate(pv, true) {
            Ok(p) => Some(p),
            Err(e) => {
                return Err(e);
            },
        },
    };
    let well = match obj_get(entries, "well") {
        None => None,
        Some(JsonValue::Null) => None,
        Some(wv) => match decode_well(wv, true) {
            Ok(w) => Some(w),
            Err(e) => {
                return Err(e);
            },
        },
    };
    let omero = match obj_get(entries, "omero") {
        None => None,
        Some(JsonValue::Null) => None,
        Some(ov) => match decode_omero(ov) {
            Ok(o) => Some(o),
            Err(e) => {
                return Err(e);
            },
        },
    };
    Ok(
        OmeNgffGroupAttributes {
            bioformats2raw,
            multiscales,
            labels,
            image_label,
            plate,
            well,
            omero,
        },
    )
}

} // verus!
