//! Transform algebra tests: inference, invertibility and validation.

use ome_zarr_metadata::floats::Float64;
use ome_zarr_metadata::next::coordinate_transformations::{
    Affine, Bijection, CoordinateTransform, CoordinateTransformOuter, Identity, InverseOf,
    MapAxis, Scale, Sequence, TransformationType, Translation,
};
use ome_zarr_metadata::validation::{run_validation, Segment};

fn f(x: f64) -> Float64 {
    Float64::from_bits(x.to_bits())
}

fn outer(config: CoordinateTransform) -> CoordinateTransformOuter {
    CoordinateTransformOuter { name: None, input: None, output: None, config }
}

#[test]
fn map_axis_identity_permutation_passes() {
    let m = MapAxis { map_axis: vec![0, 1, 2] };
    assert!(run_validation(&m).is_ok());
}

#[test]
fn map_axis_repeated_axis() {
    let m = MapAxis { map_axis: vec![0, 0, 2] };
    let fails = run_validation(&m).unwrap_err();
    assert_eq!(fails.len(), 2);
    assert_eq!(fails[0].problem.message(), "repeated input axis 0");
    assert_eq!(fails[0].path_string(), "mapAxis.1");
    assert_eq!(fails[1].problem.message(), "did not map 1 axes");
}

#[test]
fn map_axis_out_of_range() {
    let m = MapAxis { map_axis: vec![0, 1, 3] };
    let fails = run_validation(&m).unwrap_err();
    assert_eq!(fails.len(), 2);
    assert_eq!(fails[0].problem.message(), "input axis 3 does not exist");
    assert_eq!(fails[1].problem.message(), "did not map 1 axes");
}

#[test]
fn scale_negative_and_nan_fail_at_index() {
    let s = Scale::Scale(vec![f(1.0), f(-2.0)]);
    let fails = run_validation(&s).unwrap_err();
    assert_eq!(fails.len(), 1);
    assert_eq!(fails[0].problem.message(), "scale value is negative");
    assert_eq!(fails[0].path_string(), "scale.1");

    let s = Scale::Scale(vec![f(1.0), f(f64::NAN)]);
    let fails = run_validation(&s).unwrap_err();
    assert_eq!(fails.len(), 1);
    assert_eq!(fails[0].problem.message(), "scale value is NaN");
    assert_eq!(fails[0].path_string(), "scale.1");

    let s = Scale::Scale(vec![f(f64::INFINITY)]);
    let fails = run_validation(&s).unwrap_err();
    assert_eq!(fails[0].problem.message(), "scale value is infinite");
}

#[test]
fn scale_invertible_classification() {
    assert_eq!(Scale::Scale(vec![f(1.0), f(2.5)]).invertible(), Some(true));
    assert_eq!(Scale::Scale(vec![f(1.0), f(-2.0)]).invertible(), Some(false));
    assert_eq!(Scale::Scale(vec![f(0.0)]).invertible(), Some(false));
    assert_eq!(Scale::Scale(vec![f(f64::INFINITY)]).invertible(), Some(false));
    assert_eq!(Scale::Path("0/scale".to_string()).invertible(), None);
}

#[test]
fn sequence_invertible_first_non_true() {
    // false when a child is explicitly non-invertible and all before are yes
    let seq = Sequence {
        transformations: vec![
            outer(CoordinateTransform::Translation(Translation::Translation(vec![f(1.0)]))),
            outer(CoordinateTransform::Scale(Scale::Scale(vec![f(-1.0)]))),
        ],
    };
    assert_eq!(seq.invertible(), Some(false));

    // true only when every child is explicitly invertible
    let seq = Sequence {
        transformations: vec![
            outer(CoordinateTransform::Identity(Identity)),
            outer(CoordinateTransform::Scale(Scale::Scale(vec![f(2.0)]))),
        ],
    };
    assert_eq!(seq.invertible(), Some(true));

    // unknown when an undetermined child stands before the explicit no
    let seq = Sequence {
        transformations: vec![
            outer(CoordinateTransform::Scale(Scale::Path("p".to_string()))),
            outer(CoordinateTransform::Scale(Scale::Scale(vec![f(-1.0)]))),
        ],
    };
    assert_eq!(seq.invertible(), None);

    let empty = Sequence { transformations: vec![] };
    assert_eq!(empty.invertible(), Some(true));
}

#[test]
fn sequence_validation_rules() {
    // empty sequence
    let seq = Sequence { transformations: vec![] };
    let fails = run_validation(&seq).unwrap_err();
    assert_eq!(fails[0].problem.message(), "empty sequence of transformations");

    // nested sequence
    let seq = Sequence {
        transformations: vec![outer(CoordinateTransform::Sequence(Sequence {
            transformations: vec![outer(CoordinateTransform::Identity(Identity))],
        }))],
    };
    let fails = run_validation(&seq).unwrap_err();
    assert_eq!(fails.len(), 1);
    assert_eq!(fails[0].problem.message(), "sequences cannot contain sequences");

    // coordinate systems of consecutive children must compose
    let mut a = outer(CoordinateTransform::Identity(Identity));
    a.output = Some("mid".to_string());
    let mut b = outer(CoordinateTransform::Identity(Identity));
    b.input = Some("other".to_string());
    let seq = Sequence { transformations: vec![a, b] };
    let fails = run_validation(&seq).unwrap_err();
    assert_eq!(fails.len(), 1);
    assert_eq!(
        fails[0].problem.message(),
        "input coordinate system does not match previous transformation's output"
    );
    assert_eq!(fails[0].path, vec![
        Segment::Field(ome_zarr_metadata::validation::Key::Transformations),
        Segment::Index(1),
    ]);

    // dimensionality of consecutive children must compose
    let a = outer(CoordinateTransform::Scale(Scale::Scale(vec![f(1.0), f(1.0)])));
    let b = outer(CoordinateTransform::Scale(Scale::Scale(vec![f(1.0), f(1.0), f(1.0)])));
    let seq = Sequence { transformations: vec![a, b] };
    let fails = run_validation(&seq).unwrap_err();
    assert_eq!(fails.len(), 1);
    assert_eq!(
        fails[0].problem.message(),
        "input dimensionality does not match previous transformation's output dimensionality"
    );
}

#[test]
fn outer_declared_system_mismatch() {
    let inner = Sequence {
        transformations: vec![{
            let mut t = outer(CoordinateTransform::Identity(Identity));
            t.input = Some("a".to_string());
            t.output = Some("b".to_string());
            t
        }],
    };
    let mut t = outer(CoordinateTransform::Sequence(inner));
    t.input = Some("other".to_string());
    let fails = run_validation(&t).unwrap_err();
    assert_eq!(fails.len(), 1);
    assert_eq!(fails[0].problem.message(), "mismatched coordinate systems");
    assert_eq!(fails[0].path_string(), "input");
}

#[test]
fn identity_inference() {
    let i = Identity;
    assert_eq!(i.invertible(), Some(true));
    assert_eq!(i.input_ndim(), None);
    assert_eq!(i.output_ndim(), None);
    assert!(i.input_system().is_none());
}

#[test]
fn map_axis_ndim() {
    let m = MapAxis { map_axis: vec![2, 0, 1] };
    assert_eq!(m.input_ndim(), Some(3));
    assert_eq!(m.output_ndim(), Some(3));
    assert_eq!(m.invertible(), Some(true));
}

#[test]
fn bijection_system_consistency() {
    let mut fwd = outer(CoordinateTransform::Identity(Identity));
    fwd.input = Some("a".to_string());
    fwd.output = Some("b".to_string());
    let mut inv = outer(CoordinateTransform::Identity(Identity));
    inv.input = Some("c".to_string());
    inv.output = Some("d".to_string());
    let b = Bijection { forward: Box::new(fwd), inverse: Box::new(inv) };
    assert_eq!(b.invertible(), Some(true));
    assert_eq!(b.input_system(), Some("a"));
    assert_eq!(b.output_system(), Some("b"));
    let fails = run_validation(&b).unwrap_err();
    assert_eq!(fails.len(), 2);
    assert_eq!(fails[0].path_string(), "inverse");
    assert_eq!(
        fails[0].problem.message(),
        "forward input and inverse output coordinate systems do not match"
    );
    assert_eq!(
        fails[1].problem.message(),
        "forward output and inverse input coordinate systems do not match"
    );

    // the inverse child supplies a system the forward child leaves open
    let fwd = outer(CoordinateTransform::Identity(Identity));
    let mut inv = outer(CoordinateTransform::Identity(Identity));
    inv.input = Some("b".to_string());
    inv.output = Some("a".to_string());
    let b = Bijection { forward: Box::new(fwd), inverse: Box::new(inv) };
    assert_eq!(b.input_system(), Some("a"));
    assert_eq!(b.output_system(), Some("b"));
    assert!(run_validation(&b).is_ok());
}

#[test]
fn inverse_of_demands_an_invertible_child() {
    let child = outer(CoordinateTransform::Scale(Scale::Scale(vec![f(-1.0)])));
    let io = InverseOf { transformation: Box::new(child) };
    assert_eq!(io.invertible(), Some(true));
    let fails = run_validation(&io).unwrap_err();
    // the child's own scale failure comes first, then the invertibility demand
    assert_eq!(fails.len(), 2);
    assert_eq!(fails[0].path_string(), "transformation.scale.0");
    assert_eq!(fails[0].problem.message(), "scale value is negative");
    assert_eq!(fails[1].path_string(), "transformation");
    assert_eq!(fails[1].problem.message(), "not invertible");

    // a merely undetermined child is allowed
    let child = outer(CoordinateTransform::Scale(Scale::Path("p".to_string())));
    let io = InverseOf { transformation: Box::new(child) };
    assert!(run_validation(&io).is_ok());
}

#[test]
fn affine_matrix_shape() {
    let a = Affine::Affine(vec![vec![f(1.0), f(0.0), f(0.0)], vec![f(0.0), f(1.0), f(0.0)]]);
    assert!(run_validation(&a).is_ok());
    assert_eq!(a.input_ndim(), Some(3));
    assert_eq!(a.output_ndim(), Some(2));
    assert_eq!(a.invertible(), None);

    let a = Affine::Affine(vec![]);
    let fails = run_validation(&a).unwrap_err();
    assert_eq!(fails.len(), 1);
    assert_eq!(fails[0].path_string(), "affine");
    assert_eq!(fails[0].problem.message(), "zero-dimensional output");

    let a = Affine::Affine(vec![vec![f(1.0)], vec![]]);
    let fails = run_validation(&a).unwrap_err();
    assert_eq!(fails.len(), 2);
    assert_eq!(fails[0].problem.message(), "zero-dimensional input");
    assert_eq!(fails[1].problem.message(), "ragged matrix");

    let a = Affine::Path("0/affine".to_string());
    assert!(run_validation(&a).is_ok());
    assert_eq!(a.input_ndim(), None);
}

#[test]
fn sequence_systems_and_dims_come_from_the_ends() {
    let mut a = outer(CoordinateTransform::Scale(Scale::Scale(vec![f(1.0), f(1.0)])));
    a.input = Some("in".to_string());
    a.output = Some("mid".to_string());
    let mut b = outer(CoordinateTransform::Scale(Scale::Scale(vec![f(2.0), f(2.0)])));
    b.input = Some("mid".to_string());
    b.output = Some("out".to_string());
    let seq = Sequence { transformations: vec![a, b] };
    assert_eq!(seq.input_system(), Some("in"));
    assert_eq!(seq.output_system(), Some("out"));
    assert_eq!(seq.input_ndim(), Some(2));
    assert_eq!(seq.output_ndim(), Some(2));
    assert!(run_validation(&seq).is_ok());
}
