//! Plate and well topology tests.

use ome_zarr_metadata::v0_4::plate::{
    Plate, PlateAcquisition, PlateColumn, PlateRow, PlateWell,
};
use ome_zarr_metadata::validation::run_validation;

fn plate(rows: Vec<&str>, cols: Vec<&str>, wells: Vec<(&str, usize, usize)>) -> Plate {
    Plate {
        acquisitions: None,
        columns: cols.iter().map(|n| PlateColumn { name: n.to_string() }).collect(),
        field_count: None,
        name: None,
        rows: rows.iter().map(|n| PlateRow { name: n.to_string() }).collect(),
        wells: wells
            .iter()
            .map(|(p, r, c)| PlateWell { path: p.to_string(), row_index: *r, column_index: *c })
            .collect(),
    }
}

#[test]
fn well_path_matches_grid() {
    let p = plate(vec!["A", "B"], vec!["1", "2"], vec![("A/2", 0, 1)]);
    assert!(run_validation(&p).is_ok());
}

#[test]
fn well_path_column_mismatch() {
    let p = plate(vec!["A", "B"], vec!["1", "2"], vec![("A/1", 0, 1)]);
    let fails = run_validation(&p).unwrap_err();
    assert_eq!(fails.len(), 1);
    assert_eq!(fails[0].path_string(), "wells.0.path");
    assert_eq!(fails[0].problem.message(), "column name does not match column index");
}

#[test]
fn well_path_row_mismatch_and_components() {
    let p = plate(vec!["A", "B"], vec!["1", "2"], vec![("B/2", 0, 1)]);
    let fails = run_validation(&p).unwrap_err();
    assert_eq!(fails.len(), 1);
    assert_eq!(fails[0].problem.message(), "row name does not match row index");

    let p = plate(vec!["A"], vec!["1", "2"], vec![("A", 0, 0)]);
    let fails = run_validation(&p).unwrap_err();
    assert_eq!(fails[0].problem.message(), "no column name");

    let p = plate(vec!["A"], vec!["1", "2"], vec![("A/1/extra", 0, 0)]);
    let fails = run_validation(&p).unwrap_err();
    assert_eq!(fails[0].problem.message(), "too many path components");

    let p = plate(vec!["A"], vec!["1", "2"], vec![("", 0, 0)]);
    let fails = run_validation(&p).unwrap_err();
    assert_eq!(fails[0].problem.message(), "no row name");
}

#[test]
fn well_indices_out_of_range() {
    let p = plate(vec!["A"], vec!["1"], vec![("A/1", 2, 3)]);
    let fails = run_validation(&p).unwrap_err();
    assert_eq!(fails.len(), 2);
    assert_eq!(fails[0].problem.message(), "column index 3 does not exist");
    assert_eq!(fails[0].path_string(), "wells.0.columnIndex");
    assert_eq!(fails[1].problem.message(), "row index 2 does not exist");
}

#[test]
fn duplicate_names_and_ids() {
    let mut p = plate(vec!["A", "A"], vec!["1"], vec![]);
    p.acquisitions = Some(vec![
        PlateAcquisition {
            id: 7,
            name: None,
            maximum_field_count: None,
            description: None,
            start_time: None,
            end_time: None,
        },
        PlateAcquisition {
            id: 7,
            name: None,
            maximum_field_count: None,
            description: None,
            start_time: None,
            end_time: None,
        },
    ]);
    let fails = run_validation(&p).unwrap_err();
    assert_eq!(fails.len(), 2);
    assert_eq!(fails[0].path_string(), "acquisitions.1.id");
    assert_eq!(fails[0].problem.message(), "not unique: 7");
    assert_eq!(fails[1].path_string(), "rows.1.name");
    assert_eq!(fails[1].problem.message(), "not unique: A");
}

#[test]
fn acquisition_times_ordered() {
    let mut p = plate(vec!["A"], vec!["1"], vec![]);
    p.acquisitions = Some(vec![PlateAcquisition {
        id: 1,
        name: None,
        maximum_field_count: None,
        description: None,
        start_time: Some(10),
        end_time: Some(5),
    }]);
    let fails = run_validation(&p).unwrap_err();
    assert_eq!(fails.len(), 1);
    assert_eq!(fails[0].path_string(), "acquisitions.0.endtime");
    assert_eq!(fails[0].problem.message(), "before starttime");
}

#[test]
fn non_alphanumeric_names() {
    let p = plate(vec!["A-1"], vec!["1"], vec![]);
    let fails = run_validation(&p).unwrap_err();
    assert_eq!(fails.len(), 1);
    assert_eq!(fails[0].path_string(), "rows.0.name");
    assert_eq!(fails[0].problem.message(), "not alphanumeric: A-1");
}
