//! Axis policy and unit name tests.

use ome_zarr_metadata::v0_4::axes::{Axis, AxisType, AxisUnit, AxisUnitSpace, AxisUnitTime};
use ome_zarr_metadata::v0_4::axes::valid_axes;
use ome_zarr_metadata::v0_4::units::{
    axis_unit_from_name, space_unit_from_name, space_unit_name, time_unit_from_name,
    time_unit_name,
};
use ome_zarr_metadata::validation::{Accumulator, Problem, Segment};

fn axis(name: &str, t: Option<AxisType>) -> Axis {
    Axis { name: name.to_string(), axis_type: t, unit: None }
}

fn run_axes(axes: &Vec<Axis>) -> Vec<ome_zarr_metadata::validation::Failure> {
    let mut accum = Accumulator::new();
    valid_axes(&mut accum, axes);
    accum.failures
}

#[test]
fn axes_conforming_lists_pass() {
    // every zone shape the order rule allows, from two to five axes
    let cases: Vec<Vec<Axis>> = vec![
        vec![axis("y", Some(AxisType::Space)), axis("x", Some(AxisType::Space))],
        vec![
            axis("z", Some(AxisType::Space)),
            axis("y", Some(AxisType::Space)),
            axis("x", Some(AxisType::Space)),
        ],
        vec![
            axis("t", Some(AxisType::Time)),
            axis("y", Some(AxisType::Space)),
            axis("x", Some(AxisType::Space)),
        ],
        vec![
            axis("c", Some(AxisType::Channel)),
            axis("y", Some(AxisType::Space)),
            axis("x", Some(AxisType::Space)),
        ],
        vec![
            axis("t", Some(AxisType::Time)),
            axis("c", Some(AxisType::Channel)),
            axis("y", Some(AxisType::Space)),
            axis("x", Some(AxisType::Space)),
        ],
        vec![
            axis("t", Some(AxisType::Time)),
            axis("c", Some(AxisType::Channel)),
            axis("z", Some(AxisType::Space)),
            axis("y", Some(AxisType::Space)),
            axis("x", Some(AxisType::Space)),
        ],
        vec![
            axis("q", None),
            axis("y", Some(AxisType::Space)),
            axis("x", Some(AxisType::Space)),
        ],
        vec![
            axis("p", Some(AxisType::Custom("potato".to_string()))),
            axis("y", Some(AxisType::Space)),
            axis("x", Some(AxisType::Space)),
        ],
    ];
    for axes in &cases {
        assert!(run_axes(axes).is_empty());
    }
}

#[test]
fn axes_two_channel_axes_fail_once() {
    let axes = vec![
        axis("c1", Some(AxisType::Channel)),
        axis("c2", Some(AxisType::Channel)),
        axis("y", Some(AxisType::Space)),
        axis("x", Some(AxisType::Space)),
    ];
    let fails = run_axes(&axes);
    assert_eq!(fails.len(), 1);
    assert_eq!(fails[0].path, vec![Segment::Index(1)]);
    assert_eq!(fails[0].problem.message(), "unexpected channel/custom/unknown axis");
}

#[test]
fn axes_time_after_space_fails() {
    let axes = vec![
        axis("y", Some(AxisType::Space)),
        axis("x", Some(AxisType::Space)),
        axis("t", Some(AxisType::Time)),
    ];
    let fails = run_axes(&axes);
    assert_eq!(fails.len(), 1);
    assert_eq!(fails[0].problem.message(), "unexpected time axis");
}

#[test]
fn axes_too_many_and_too_few() {
    let one = vec![axis("x", Some(AxisType::Space))];
    let fails = run_axes(&one);
    // wrong total count and too few space axes
    assert_eq!(fails.len(), 2);
    assert_eq!(fails[0].problem.message(), "got 1 axes, expected 2-5");
    assert_eq!(fails[1].problem.message(), "got 1 space axes, expected 2-3");

    let four_space = vec![
        axis("a", Some(AxisType::Space)),
        axis("b", Some(AxisType::Space)),
        axis("c", Some(AxisType::Space)),
        axis("d", Some(AxisType::Space)),
    ];
    let fails = run_axes(&four_space);
    assert_eq!(fails.len(), 1);
    assert_eq!(fails[0].problem.message(), "at least 4 space axes, should be max 3");
}

#[test]
fn axes_duplicate_name() {
    let axes = vec![
        axis("x", Some(AxisType::Space)),
        axis("x", Some(AxisType::Space)),
    ];
    let fails = run_axes(&axes);
    assert_eq!(fails.len(), 1);
    assert_eq!(fails[0].path, vec![Segment::Index(1)]);
    assert_eq!(fails[0].problem.message(), "duplicate axis name 'x'");
}

#[test]
fn axis_unit_type_consistency() {
    let bad = Axis {
        name: "t".to_string(),
        axis_type: Some(AxisType::Time),
        unit: Some(AxisUnit::Space(AxisUnitSpace::Meter)),
    };
    let fails = ome_zarr_metadata::validation::run_validation(&bad).unwrap_err();
    assert_eq!(fails.len(), 1);
    assert_eq!(fails[0].problem.message(), "got space unit for non-space axis");

    let bad = Axis {
        name: "x".to_string(),
        axis_type: Some(AxisType::Space),
        unit: Some(AxisUnit::Time(AxisUnitTime::Second)),
    };
    let fails = ome_zarr_metadata::validation::run_validation(&bad).unwrap_err();
    assert_eq!(fails[0].problem.message(), "got time unit for non-time axis");
}

#[test]
fn unit_names_round_trip() {
    assert!(matches!(space_unit_from_name("meter"), Some(AxisUnitSpace::Meter)));
    assert!(matches!(space_unit_from_name("second"), None));
    assert!(matches!(time_unit_from_name("second"), Some(AxisUnitTime::Second)));
    assert_eq!(space_unit_name(&AxisUnitSpace::Micrometer), "micrometer");
    assert_eq!(time_unit_name(&AxisUnitTime::Millisecond), "millisecond");
    assert!(matches!(
        axis_unit_from_name("parsec".to_string()),
        AxisUnit::Space(AxisUnitSpace::Parsec)
    ));
    match axis_unit_from_name("fathom".to_string()) {
        AxisUnit::Custom(s) => assert_eq!(s, "fathom"),
        _ => panic!("expected a custom unit"),
    }
}
