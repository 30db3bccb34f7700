//! Rendering, floats, versions, multiscale consistency, and the relaxed
//! axis rules of the later eras.

use ome_zarr_metadata::floats::Float64;
use ome_zarr_metadata::v0_4::axes::{Axis, AxisType};
use ome_zarr_metadata::v0_4::coordinate_transformations::{
    CoordinateTransform, CoordinateTransformScale, CoordinateTransformTranslation,
};
use ome_zarr_metadata::v0_4::multiscales::{MultiscaleImage, MultiscaleImageDataset};
use ome_zarr_metadata::v0_4::omero::{HexColor, Window};
use ome_zarr_metadata::json::{JsonNum, JsonValue};
use ome_zarr_metadata::next::multiscales::MultiscaleImage as DraftMultiscaleImage;
use ome_zarr_metadata::text::u64_to_string;
use ome_zarr_metadata::v0_4::decode::decode_ct;
use ome_zarr_metadata::v0_4::labels::{ImageLabel, ImageLabelColor};
use ome_zarr_metadata::v0_5::labels::ImageLabel as RelaxedImageLabel;
use ome_zarr_metadata::validation::run_validation;
use ome_zarr_metadata::version::ConstrainedVersion;

fn f(x: f64) -> Float64 {
    Float64::from_bits(x.to_bits())
}

fn axis(name: &str, t: Option<AxisType>) -> Axis {
    Axis { name: name.to_string(), axis_type: t, unit: None }
}

fn scale(values: Vec<f64>) -> CoordinateTransform {
    CoordinateTransform::Scale(CoordinateTransformScale::List {
        scale: values.into_iter().map(f).collect(),
    })
}

fn translation(values: Vec<f64>) -> CoordinateTransform {
    CoordinateTransform::Translation(CoordinateTransformTranslation::List {
        translation: values.into_iter().map(f).collect(),
    })
}

fn dataset(cts: Vec<CoordinateTransform>) -> MultiscaleImageDataset {
    MultiscaleImageDataset { path: "0".to_string(), coordinate_transformations: cts }
}

fn multiscale(axes: Vec<Axis>, datasets: Vec<MultiscaleImageDataset>) -> MultiscaleImage {
    MultiscaleImage {
        name: None,
        axes,
        datasets,
        coordinate_transformations: None,
        downscaling_type: None,
        metadata: None,
    }
}

fn yx() -> Vec<Axis> {
    vec![axis("y", Some(AxisType::Space)), axis("x", Some(AxisType::Space))]
}

#[test]
fn multiscale_consistent_image_passes() {
    let m = multiscale(yx(), vec![dataset(vec![scale(vec![1.0, 1.0]), translation(vec![0.0, 0.0])])]);
    assert!(run_validation(&m).is_ok());
}

#[test]
fn multiscale_chain_rules() {
    // identity is disallowed in a chain
    let m = multiscale(yx(), vec![dataset(vec![CoordinateTransform::Identity, scale(vec![1.0, 1.0])])]);
    let fails = run_validation(&m).unwrap_err();
    assert_eq!(fails.len(), 1);
    assert_eq!(fails[0].problem.message(), "identity transform cannot be used here");
    assert_eq!(fails[0].path_string(), "datasets.0.coordinateTransformations.0");

    // translation before scale, and a chain missing its scale
    let m = multiscale(yx(), vec![dataset(vec![translation(vec![0.0, 0.0])])]);
    let fails = run_validation(&m).unwrap_err();
    assert_eq!(fails.len(), 2);
    assert_eq!(fails[0].problem.message(), "translation before scale transformation");
    assert_eq!(fails[1].problem.message(), "no scale transformation");

    // repeated scale and repeated translation
    let m = multiscale(yx(), vec![dataset(vec![
        scale(vec![1.0, 1.0]),
        scale(vec![2.0, 2.0]),
        translation(vec![0.0, 0.0]),
        translation(vec![1.0, 1.0]),
    ])]);
    let fails = run_validation(&m).unwrap_err();
    assert_eq!(fails.len(), 2);
    assert_eq!(fails[0].problem.message(), "multiple scale transformations");
    assert_eq!(fails[1].problem.message(), "multiple translation transformations");
}

#[test]
fn multiscale_dimensionality_must_agree() {
    // the axes demand two dimensions; the dataset declares three
    let m = multiscale(yx(), vec![dataset(vec![scale(vec![1.0, 1.0, 1.0])])]);
    let fails = run_validation(&m).unwrap_err();
    assert_eq!(fails.len(), 1);
    assert_eq!(
        fails[0].problem.message(),
        "inconsistent dimensionality: got 3D, expected 2D"
    );
    assert_eq!(fails[0].path_string(), "datasets.0");

    // the shared top-level chain is held to the same dimensionality
    let mut m = multiscale(yx(), vec![dataset(vec![scale(vec![1.0, 1.0])])]);
    m.coordinate_transformations = Some(vec![scale(vec![1.0, 1.0, 1.0])]);
    let fails = run_validation(&m).unwrap_err();
    assert_eq!(fails.len(), 1);
    assert_eq!(fails[0].path_string(), "coordinateTransformations.0");

    // an empty dataset list is its own failure
    let m = multiscale(yx(), vec![]);
    let fails = run_validation(&m).unwrap_err();
    assert_eq!(fails.len(), 1);
    assert_eq!(fails[0].problem.message(), "empty multiscale datasets");
}

/// This would be illegal under the strict eras due to axis type and
/// order constraints; the draft era enforces only name uniqueness.
#[test]
fn test_new_axis_validation() {
    let axes = vec![
        axis("c1", Some(AxisType::Custom("potato".into()))),
        axis("x", Some(AxisType::Space)),
        axis("t", Some(AxisType::Time)),
        axis("z", Some(AxisType::Space)),
        axis("c2", Some(AxisType::Custom("spade".into()))),
        axis("c3", Some(AxisType::Custom("orange".into()))),
    ];
    let dataset = MultiscaleImageDataset {
        path: "0".into(),
        coordinate_transformations: vec![scale(vec![1.0, 1.0, 1.0, 1.0, 1.0, 1.0])],
    };
    assert!(run_validation(&dataset).is_ok());

    let mim = DraftMultiscaleImage {
        name: None,
        axes,
        datasets: vec![dataset],
        coordinate_transformations: None,
        downscaling_type: None,
        metadata: None,
    };
    assert!(run_validation(&mim).is_ok());
}

#[test]
fn window_ordering() {
    let w = Window { min: f(0.0), max: f(-1.0), start: f(0.0), end: f(1.0) };
    let fails = run_validation(&w).unwrap_err();
    assert_eq!(fails.len(), 1);
    assert_eq!(fails[0].path_string(), "max");
    assert_eq!(fails[0].problem.message(), "less than min");

    let w = Window { min: f(0.0), max: f(1.0), start: f(2.0), end: f(1.0) };
    let fails = run_validation(&w).unwrap_err();
    assert_eq!(fails[0].problem.message(), "before start");

    // NaN boundaries never order, and the two zeros are equal
    let w = Window { min: f(f64::NAN), max: f(f64::NAN), start: f(-0.0), end: f(0.0) };
    assert!(run_validation(&w).is_ok());
}

#[test]
fn hex_color_shape() {
    assert!(HexColor::try_from("00FF00".to_string()).is_ok());
    assert!(HexColor::try_from("00ff00".to_string()).is_ok());
    match HexColor::try_from("00FF0".to_string()) {
        Err(ome_zarr_metadata::errors::Error::InvalidColor(sv)) => assert_eq!(sv, "00FF0"),
        _ => panic!("expected the colour to be refused"),
    }
    assert!(HexColor::try_from("00FF0G".to_string()).is_err());
}

#[test]
fn float_classification() {
    assert!(f(f64::NAN).is_nan());
    assert!(!f(1.0).is_nan());
    assert!(f(f64::INFINITY).is_infinite());
    assert!(f(f64::NEG_INFINITY).is_infinite());
    assert!(f(-2.0).lt_zero());
    assert!(!f(-0.0).lt_zero());
    assert!(!f(f64::NAN).lt_zero());
    assert!(f(0.5).gt_zero());
    assert!(!f(0.0).gt_zero());
    assert!(f(-1.0).lt(&f(1.0)));
    assert!(f(-2.0).lt(&f(-1.0)));
    assert!(!f(1.0).lt(&f(1.0)));
    assert!(!f(-0.0).lt(&f(0.0)));
    assert!(!f(f64::NAN).lt(&f(1.0)));
    assert!(f(f64::NEG_INFINITY).lt(&f(f64::INFINITY)));
}

#[test]
fn integer_numbers_become_exact_floats() {
    let tree = JsonValue::Obj(vec![
        ("type".to_string(), JsonValue::Str("scale".to_string())),
        (
            "scale".to_string(),
            JsonValue::Arr(vec![
                JsonValue::Num(JsonNum::Unsigned(1)),
                JsonValue::Num(JsonNum::Signed(-2)),
            ]),
        ),
    ]);
    match decode_ct(&tree).unwrap() {
        CoordinateTransform::Scale(CoordinateTransformScale::List { scale }) => {
            assert_eq!(scale[0].bits, (1.0f64).to_bits());
            assert_eq!(scale[1].bits, (-2.0f64).to_bits());
        },
        _ => panic!("expected an explicit scale"),
    }
}

#[test]
fn rendering_numbers_and_paths() {
    assert_eq!(u64_to_string(0), "0");
    assert_eq!(u64_to_string(10), "10");
    assert_eq!(u64_to_string(90210), "90210");
    assert_eq!(u64_to_string(u64::MAX), "18446744073709551615");
}

#[test]
fn constrained_version_bounds() {
    assert!(ConstrainedVersion::from_str("0.6.dev3").is_ok());
    assert!(ConstrainedVersion::from_str("0.6").is_ok());
    assert!(ConstrainedVersion::from_str("0.7.1").is_ok());
    assert!(ConstrainedVersion::from_str("1.0").is_ok());
    assert!(ConstrainedVersion::from_str("1!0.1").is_ok());
    assert!(ConstrainedVersion::from_str("0.5").is_err());
    assert!(ConstrainedVersion::from_str("0.5.9").is_err());
    assert!(ConstrainedVersion::from_str("not a version").is_err());
    let v = ConstrainedVersion::from_str("0.6.dev3").unwrap();
    assert_eq!(v.as_str(), "0.6.dev3");
    assert_eq!(v.epoch, 0);
    assert_eq!(v.release, vec![0, 6]);
}

#[test]
fn labels_uniqueness() {
    let il = ImageLabel {
        colors: Some(vec![
            ImageLabelColor { label_value: 1, rgba: [0, 0, 0, 255] },
            ImageLabelColor { label_value: 1, rgba: [255, 0, 0, 255] },
        ]),
        properties: None,
        source: None,
    };
    let fails = run_validation(&il).unwrap_err();
    assert_eq!(fails.len(), 1);
    assert_eq!(fails[0].path_string(), "colors.1");
    assert_eq!(fails[0].problem.message(), "repeated label 1");

    let empty = ImageLabel { colors: Some(vec![]), properties: None, source: None };
    let fails = run_validation(&empty).unwrap_err();
    assert_eq!(fails[0].problem.message(), "empty");

    // the later era drops the empty-list rule
    let relaxed = RelaxedImageLabel {
        colors: Some(vec![]),
        properties: None,
        source: None,
    };
    assert!(run_validation(&relaxed).is_ok());
}
