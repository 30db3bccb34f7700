//! Version resolution, structural decoding and round-trip tests.

use ome_zarr_metadata::any::AnyOme;
use ome_zarr_metadata::errors::{DecodeError, Error};
use ome_zarr_metadata::floats::Float64;
use ome_zarr_metadata::json::{JsonNum, JsonValue};
use ome_zarr_metadata::v0_4::axes::{Axis, AxisType, AxisUnit, AxisUnitSpace, AxisUnitTime};
use ome_zarr_metadata::v0_4::decode::{axis_type_of, decode_axis, decode_ngff_attrs, decode_plate_well};
use ome_zarr_metadata::v0_4::encode::{encode_axis, encode_column, encode_plate_well, encode_row};
use ome_zarr_metadata::v0_4::plate::{PlateColumn, PlateRow, PlateWell};
use ome_zarr_metadata::v0_5::get_ome_attribute_from_zarr_group_metadata;

fn s(x: &str) -> JsonValue {
    JsonValue::Str(x.to_string())
}

fn num(u: u64) -> JsonValue {
    JsonValue::Num(JsonNum::Unsigned(u))
}

fn fnum(x: f64) -> JsonValue {
    JsonValue::Num(JsonNum::Float(Float64::from_bits(x.to_bits())))
}

fn obj(fields: Vec<(&str, JsonValue)>) -> JsonValue {
    JsonValue::Obj(fields.into_iter().map(|(k, v)| (k.to_string(), v)).collect())
}

fn arr(items: Vec<JsonValue>) -> JsonValue {
    JsonValue::Arr(items)
}

fn scale_ct(values: Vec<f64>) -> JsonValue {
    obj(vec![
        ("type", s("scale")),
        ("scale", arr(values.into_iter().map(fnum).collect())),
    ])
}

fn v04_multiscale_tree() -> JsonValue {
    obj(vec![
        ("version", s("0.4")),
        ("name", s("test")),
        (
            "axes",
            arr(vec![
                obj(vec![("name", s("y")), ("type", s("space"))]),
                obj(vec![("name", s("x")), ("type", s("space"))]),
            ]),
        ),
        (
            "datasets",
            arr(vec![obj(vec![
                ("path", s("0")),
                ("coordinateTransformations", arr(vec![scale_ct(vec![1.0, 1.0])])),
            ])]),
        ),
    ])
}

#[test]
fn can_deser_v0_4() {
    let tree = obj(vec![("multiscales", arr(vec![v04_multiscale_tree()]))]);
    let any = AnyOme::from_tree(&tree).unwrap();
    assert_eq!(any.version(), "0.4");
    assert!(any.validate().is_ok());
}

#[test]
fn can_deser_v0_5() {
    let inner = obj(vec![
        ("version", s("0.5")),
        (
            "multiscales",
            arr(vec![obj(vec![
                ("name", s("test")),
                (
                    "axes",
                    arr(vec![
                        obj(vec![("name", s("y")), ("type", s("space"))]),
                        obj(vec![("name", s("x")), ("type", s("space"))]),
                    ]),
                ),
                (
                    "datasets",
                    arr(vec![obj(vec![
                        ("path", s("0")),
                        ("coordinateTransformations", arr(vec![scale_ct(vec![1.0, 1.0])])),
                    ])]),
                ),
            ])]),
        ),
    ]);
    let tree = obj(vec![("ome", inner)]);
    let any = AnyOme::from_tree(&tree).unwrap();
    assert_eq!(any.version(), "0.5");
    assert!(any.validate().is_ok());
}

#[test]
fn namespace_key_never_falls_back() {
    // the nested value is broken under the namespaced schema, while the
    // whole document would decode fine under the legacy one
    let tree = obj(vec![("ome", obj(vec![("version", s("0.4"))]))]);
    assert!(decode_ngff_attrs(&tree).is_ok());
    assert!(AnyOme::from_tree(&tree).is_err());
}

#[test]
fn version_markers_are_demanded() {
    // a multiscale without its version marker is refused under the legacy era
    let mut ms = v04_multiscale_tree();
    if let JsonValue::Obj(entries) = &mut ms {
        entries.retain(|(k, _)| k != "version");
    }
    let tree = obj(vec![("multiscales", arr(vec![ms]))]);
    assert!(AnyOme::from_tree(&tree).is_err());
}

#[test]
fn unknown_fields_are_refused_where_denied() {
    let tree = obj(vec![(
        "multiscales",
        arr(vec![{
            let mut ms = v04_multiscale_tree();
            if let JsonValue::Obj(entries) = &mut ms {
                entries.push(("surprise".to_string(), num(1)));
            }
            ms
        }]),
    )]);
    assert!(AnyOme::from_tree(&tree).is_err());
}

#[test]
fn axis_round_trip() {
    let cases = vec![
        Axis { name: "x".to_string(), axis_type: Some(AxisType::Space), unit: Some(AxisUnit::Space(AxisUnitSpace::Micrometer)) },
        Axis { name: "t".to_string(), axis_type: Some(AxisType::Time), unit: Some(AxisUnit::Time(AxisUnitTime::Second)) },
        Axis { name: "c".to_string(), axis_type: Some(AxisType::Channel), unit: None },
        Axis { name: "p".to_string(), axis_type: Some(AxisType::Custom("potato".to_string())), unit: Some(AxisUnit::Custom("fathom".to_string())) },
        Axis { name: "q".to_string(), axis_type: None, unit: None },
    ];
    for a in &cases {
        let tree = encode_axis(a);
        let back = decode_axis(&tree).unwrap();
        assert_eq!(back.name, a.name);
        assert_eq!(format!("{:?}", back), format!("{:?}", a));
    }
}

#[test]
fn record_round_trips() {
    let c = PlateColumn { name: "7".to_string() };
    let tree = encode_column(&c);
    let back = ome_zarr_metadata::v0_4::decode::decode_column(&tree).unwrap();
    assert_eq!(back.name, "7");

    let r = PlateRow { name: "B".to_string() };
    let tree = encode_row(&r);
    let back = ome_zarr_metadata::v0_4::decode::decode_row(&tree).unwrap();
    assert_eq!(back.name, "B");

    let w = PlateWell { path: "B/7".to_string(), row_index: 1, column_index: 6 };
    let tree = encode_plate_well(&w);
    let back = decode_plate_well(&tree).unwrap();
    assert_eq!(back.path, "B/7");
    assert_eq!(back.row_index, 1);
    assert_eq!(back.column_index, 6);
}

#[test]
fn custom_axis() {
    assert!(matches!(axis_type_of("space".to_string()), AxisType::Space));
    match axis_type_of("potato".to_string()) {
        AxisType::Custom(sv) => assert_eq!(sv, "potato"),
        _ => panic!("expected a custom type"),
    }
    match axis_type_of("custom".to_string()) {
        AxisType::Custom(sv) => assert_eq!(sv, "custom"),
        _ => panic!("expected a custom type"),
    }
}

#[test]
fn decode_errors_name_their_shape() {
    // missing field
    let tree = obj(vec![("multiscales", arr(vec![obj(vec![("version", s("0.4"))])]))]);
    match AnyOme::from_tree(&tree) {
        Err(DecodeError::MissingField(_)) | Err(DecodeError::WrongType(_))
        | Err(DecodeError::UnknownField(_)) | Err(DecodeError::WrongVersion)
        | Err(DecodeError::UnknownVariant(_)) => {},
        other => panic!("expected a decode error, got {:?}", other),
    }
    // wrong kind
    let tree = obj(vec![("multiscales", num(1))]);
    assert!(matches!(AnyOme::from_tree(&tree), Err(DecodeError::WrongType(_))));
}

#[test]
fn migration_rejects_two_multiscales() {
    let mk = || ome_zarr_metadata::v0_4::multiscales::MultiscaleImage {
        name: None,
        axes: vec![],
        datasets: vec![],
        coordinate_transformations: None,
        downscaling_type: None,
        metadata: None,
    };
    let fields = ome_zarr_metadata::v0_5::OmeFields {
        bioformats2raw: None,
        multiscales: Some(vec![mk(), mk()]),
        labels: None,
        image_label: None,
        plate: None,
        well: None,
        omero: None,
    };
    match ome_zarr_metadata::v0_6::OmeFields::try_from(fields) {
        Err(Error::General(msg)) => assert_eq!(msg, "multiscales must have length 0 or 1"),
        _ => panic!("expected the migration to fail"),
    }

    let fields = ome_zarr_metadata::v0_5::OmeFields {
        bioformats2raw: None,
        multiscales: Some(vec![mk()]),
        labels: None,
        image_label: None,
        plate: None,
        well: None,
        omero: None,
    };
    let up = ome_zarr_metadata::v0_6::OmeFields::try_from(fields).unwrap();
    assert!(up.multiscales.is_some());
}

#[test]
fn migration_carries_the_omero_block() {
    let omero_tree = obj(vec![(
        "channels",
        arr(vec![obj(vec![
            ("color", s("FF0000")),
            (
                "window",
                obj(vec![
                    ("min", fnum(0.0)),
                    ("max", fnum(255.0)),
                    ("start", fnum(0.0)),
                    ("end", fnum(255.0)),
                ]),
            ),
        ])]),
    )]);
    let fields = ome_zarr_metadata::v0_5::OmeFields {
        bioformats2raw: None,
        multiscales: None,
        labels: None,
        image_label: None,
        plate: None,
        well: None,
        omero: Some(omero_tree),
    };
    let up = ome_zarr_metadata::v0_6::OmeFields::try_from(fields).unwrap();
    let omero = up.omero.expect("the OMERO block must be carried over");
    assert_eq!(omero.channels.len(), 1);
    assert_eq!(omero.channels[0].color.as_str(), "FF0000");

    // a block that does not fit this era's typed form fails the upgrade
    let fields = ome_zarr_metadata::v0_5::OmeFields {
        bioformats2raw: None,
        multiscales: None,
        labels: None,
        image_label: None,
        plate: None,
        well: None,
        omero: Some(obj(vec![("channels", num(3))])),
    };
    assert!(matches!(
        ome_zarr_metadata::v0_6::OmeFields::try_from(fields),
        Err(Error::Decode(_))
    ));
}

#[test]
fn v0_5_decode_retains_the_omero_block() {
    let inner = obj(vec![
        ("version", s("0.5")),
        ("omero", obj(vec![("anything", num(3))])),
    ]);
    let tree = obj(vec![("ome", inner)]);
    match AnyOme::from_tree(&tree).unwrap() {
        AnyOme::V0_5(fields) => {
            let kept = fields.omero.expect("the opaque OMERO block must be retained");
            match kept {
                JsonValue::Obj(entries) => {
                    assert_eq!(entries.len(), 1);
                    assert_eq!(entries[0].0, "anything");
                },
                _ => panic!("expected the block to stay an object"),
            }
        },
        _ => panic!("expected the namespaced era"),
    }
}

#[test]
fn upgrade_v0_4_to_v0_5() {
    let attrs = ome_zarr_metadata::v0_4::OmeNgffGroupAttributes {
        bioformats2raw: None,
        multiscales: None,
        labels: Some(vec!["x".to_string()]),
        image_label: None,
        plate: None,
        well: None,
        omero: None,
    };
    let fields = ome_zarr_metadata::v0_5::OmeFields::from(attrs);
    assert_eq!(fields.labels.as_ref().unwrap()[0], "x");
    assert!(fields.omero.is_none());
}

#[test]
fn v0_5_fields_default() {
    let fields = ome_zarr_metadata::v0_5::OmeFields {
        labels: Some(vec!["x".to_string(), "y".to_string()]),
        ..Default::default()
    };
    assert_eq!(fields.labels.as_ref().unwrap().len(), 2);
}

#[test]
fn v0_6_fields_default() {
    let fields = ome_zarr_metadata::v0_6::OmeFields {
        labels: Some(vec!["x".to_string(), "y".to_string()]),
        ..Default::default()
    };
    assert_eq!(fields.labels.as_ref().unwrap().len(), 2);
}

#[test]
fn full_document_decodes_and_validates() {
    let plate = obj(vec![
        ("version", s("0.4")),
        ("columns", arr(vec![obj(vec![("name", s("1"))]), obj(vec![("name", s("2"))])])),
        ("rows", arr(vec![obj(vec![("name", s("A"))])])),
        (
            "wells",
            arr(vec![obj(vec![
                ("path", s("A/2")),
                ("rowIndex", num(0)),
                ("columnIndex", num(1)),
            ])]),
        ),
        (
            "acquisitions",
            arr(vec![obj(vec![
                ("id", num(1)),
                ("starttime", num(5)),
                ("endtime", num(9)),
            ])]),
        ),
    ]);
    let omero = obj(vec![(
        "channels",
        arr(vec![obj(vec![
            ("color", s("00FF00")),
            (
                "window",
                obj(vec![
                    ("min", fnum(0.0)),
                    ("max", fnum(255.0)),
                    ("start", fnum(10.0)),
                    ("end", fnum(200.0)),
                ]),
            ),
        ])]),
    )]);
    let label = obj(vec![
        ("version", s("0.4")),
        (
            "colors",
            arr(vec![obj(vec![
                ("label-value", num(1)),
                ("rgba", arr(vec![num(0), num(0), num(0), num(255)])),
            ])]),
        ),
    ]);
    let tree = obj(vec![
        ("bioformats2raw.layout", num(3)),
        ("series", arr(vec![s("0")])),
        ("multiscales", arr(vec![v04_multiscale_tree()])),
        ("labels", arr(vec![s("0/labels")])),
        ("image-label", label),
        ("plate", plate),
        (
            "well",
            obj(vec![
                ("version", s("0.4")),
                ("images", arr(vec![obj(vec![("path", s("0")), ("acquisition", num(1))])])),
            ]),
        ),
        ("omero", omero),
    ]);
    let any = AnyOme::from_tree(&tree).unwrap();
    assert_eq!(any.version(), "0.4");
    assert!(any.validate().is_ok());
}

#[test]
fn group_metadata_probe() {
    let good = obj(vec![(
        "attributes",
        obj(vec![("ome", obj(vec![("version", s("0.5"))]))]),
    )]);
    assert!(get_ome_attribute_from_zarr_group_metadata(&good).is_ok());

    let wrong_version = obj(vec![(
        "attributes",
        obj(vec![("ome", obj(vec![("version", s("0.4"))]))]),
    )]);
    assert!(get_ome_attribute_from_zarr_group_metadata(&wrong_version).is_err());

    let no_ome = obj(vec![("attributes", obj(vec![]))]);
    assert!(get_ome_attribute_from_zarr_group_metadata(&no_ome).is_err());
}
