//! Writing record values back into the document tree.
//!
//! Each writer's contract states the round trip: decoding the written
//! node yields the value again. A custom axis type or unit may not reuse
//! one of the reserved names, since decoding resolves those names first.

use vstd::prelude::*;

use crate::json::{JsonValue, key_in, keys_within, spec_obj_get};
use crate::v0_4::axes::{Axis, AxisType, AxisUnit};
use crate::v0_4::decode::{
    spec_axis_type, spec_decode_axis, spec_decode_column, spec_decode_plate_well, spec_decode_row,
};
use crate::v0_4::plate::{PlateColumn, PlateRow, PlateWell};
use crate::v0_4::units::{
    lemma_space_unit_round_trip, lemma_time_name_not_space, lemma_time_unit_round_trip,
    spec_axis_unit, spec_space_unit, spec_space_unit_name, spec_time_unit, spec_time_unit_name,
    space_unit_name, time_unit_name,
};

verus! {

/// Whether the axis uses no reserved name for a custom type or unit, so
/// that writing and decoding it cannot reinterpret the name.
pub open spec fn axis_encodable(a: Axis) -> bool {
    &&& match a.axis_type {
        Some(AxisType::Custom(s)) => s@ != "space"@ && s@ != "time"@ && s@ != "channel"@,
        _ => true,
    }
    &&& match a.unit {
        Some(AxisUnit::Custom(s)) => spec_space_unit(s@) is None && spec_time_unit(s@) is None,
        _ => true,
    }
}

/// The name a document writes for an axis type.
pub open spec fn spec_axis_type_name(t: AxisType) -> Seq<char> {
    match t {
        AxisType::Space => "space"@,
        AxisType::Time => "time"@,
        AxisType::Channel => "channel"@,
        AxisType::Custom(s) => s@,
    }
}

/// Write the name of an axis type.
fn axis_type_name(t: &AxisType) -> (r: String)
    ensures
        r@ == spec_axis_type_name(*t),
        t matches AxisType::Custom(s) ==> r == s,
{
    match t {
        AxisType::Space => String::from_str("space"),
        AxisType::Time => String::from_str("time"),
        AxisType::Channel => String::from_str("channel"),
        AxisType::Custom(s) => s.clone(),
    }
}

/// Write the name of an axis unit.
fn axis_unit_name(u: &AxisUnit) -> (r: String)
    ensures
        match u {
            AxisUnit::Space(su) => r@ == spec_space_unit_name(*su),
            AxisUnit::Time(tu) => r@ == spec_time_unit_name(*tu),
            AxisUnit::Custom(s) => r == s,
        },
{
    match u {
        AxisUnit::Space(su) => String::from_str(space_unit_name(su)),
        AxisUnit::Time(tu) => String::from_str(time_unit_name(tu)),
        AxisUnit::Custom(s) => s.clone(),
    }
}

/// Write one axis into the tree. Decoding the written node yields the
/// axis again.
pub fn encode_axis(a: &Axis) -> (r: JsonValue)
    requires
        axis_encodable(*a),
    ensures
        spec_decode_axis(r) == Some(*a),
{
    let mut entries: Vec<(String, JsonValue)> = Vec::new();
    entries.push((String::from_str("name"), JsonValue::Str(a.name.clone())));
    match &a.axis_type {
        Some(t) => {
            entries.push((String::from_str("type"), JsonValue::Str(axis_type_name(t))));
        },
        None => {},
    }
    match &a.unit {
        Some(u) => {
            entries.push((String::from_str("unit"), JsonValue::Str(axis_unit_name(u))));
        },
        None => {},
    }
    let r = JsonValue::Obj(entries);
    proof {
        reveal_strlit("name");
        reveal_strlit("type");
        reveal_strlit("unit");
        assert("name"@.len() == 4 && "type"@.len() == 4 && "unit"@.len() == 4);
        assert("name"@[0] == 'n' && "type"@[0] == 't' && "unit"@[0] == 'u');
        let es = entries@;
        let allowed = seq!["name"@, "type"@, "unit"@];
        assert forall|i: int| 0 <= i < es.len() implies key_in(
            (#[trigger] es[i]).0@,
            allowed,
        ) by {
            if es[i].0@ == "name"@ {
                assert(allowed[0] == es[i].0@);
            } else if es[i].0@ == "type"@ {
                assert(allowed[1] == es[i].0@);
            } else {
                assert(allowed[2] == es[i].0@);
            }
        }
        assert(keys_within(es, allowed));
        assert("type"@[0] == 't' && "unit"@[0] == 'u');
        assert(es[0].0@ == "name"@);
        if es.len() >= 2 {
            assert(es.drop_first()[0] == es[1]);
            assert(es.drop_first().len() == es.len() - 1);
        }
        if es.len() >= 3 {
            assert(es.drop_first().drop_first()[0] == es[2]);
            assert(es.drop_first().drop_first().len() == 1);
        }
        assert(spec_obj_get(es, "name"@) == Some(es[0].1));
        match (&a.axis_type, &a.unit) {
            (None, None) => {
                assert(es.len() == 1);
                assert(es.drop_first().len() == 0);
                assert(spec_obj_get(es, "type"@) is None);
                assert(spec_obj_get(es, "unit"@) is None);
            },
            (Some(_), None) => {
                assert(es.len() == 2);
                assert(es[1].0@ == "type"@);
                assert(es.drop_first()[0].0@ == "type"@);
                assert(es.drop_first().len() == 1);
                assert(es.drop_first().drop_first().len() == 0);
                assert(spec_obj_get(es, "type"@) == Some(es[1].1));
                assert(spec_obj_get(es.drop_first().drop_first(), "unit"@) is None);
                assert(spec_obj_get(es.drop_first(), "unit"@) is None);
                assert(spec_obj_get(es, "unit"@) is None);
            },
            (None, Some(_)) => {
                assert(es.len() == 2);
                assert(es[1].0@ == "unit"@);
                assert(es.drop_first()[0].0@ == "unit"@);
                assert(es.drop_first().len() == 1);
                assert(es.drop_first().drop_first().len() == 0);
                assert(spec_obj_get(es.drop_first(), "unit"@) == Some(es[1].1));
                assert(spec_obj_get(es, "unit"@) == Some(es[1].1));
                assert(spec_obj_get(es.drop_first().drop_first(), "type"@) is None);
                assert(spec_obj_get(es.drop_first(), "type"@) is None);
                assert(spec_obj_get(es, "type"@) is None);
            },
            (Some(_), Some(_)) => {
                assert(es.len() == 3);
                assert(es[1].0@ == "type"@ && es[2].0@ == "unit"@);
                assert(es.drop_first()[0].0@ == "type"@);
                assert(es.drop_first().len() == 2);
                assert(es.drop_first().drop_first()[0].0@ == "unit"@);
                assert(es.drop_first().drop_first().len() == 1);
                assert(spec_obj_get(es.drop_first(), "type"@) == Some(es[1].1));
                assert(spec_obj_get(es, "type"@) == Some(es[1].1));
                assert(spec_obj_get(es.drop_first().drop_first(), "unit"@) == Some(es[2].1));
                assert(spec_obj_get(es.drop_first(), "unit"@) == Some(es[2].1));
                assert(spec_obj_get(es, "unit"@) == Some(es[2].1));
            },
        }
        match a.unit {
            Some(AxisUnit::Space(su)) => {
                lemma_space_unit_round_trip(su);
            },
            Some(AxisUnit::Time(tu)) => {
                lemma_time_unit_round_trip(tu);
                lemma_time_name_not_space(tu);
            },
            _ => {},
        }
        match a.axis_type {
            Some(AxisType::Space) => {
                reveal_strlit("space");
            },
            Some(AxisType::Time) => {
                reveal_strlit("time");
                reveal_strlit("space");
                assert("time"@.len() == 4 && "space"@.len() == 5);
            },
            Some(AxisType::Channel) => {
                reveal_strlit("channel");
                reveal_strlit("space");
                reveal_strlit("time");
                assert("channel"@.len() == 7 && "space"@.len() == 5 && "time"@.len() == 4);
            },
            _ => {},
        }
        assert(spec_decode_axis(r) == Some(*a));
    }
    r
}

/// Write one plate column into the tree. Decoding the written node
/// yields the column again.
pub fn encode_column(c: &PlateColumn) -> (r: JsonValue)
    ensures
        spec_decode_column(r) == Some(*c),
{
    let mut entries: Vec<(String, JsonValue)> = Vec::new();
    entries.push((String::from_str("name"), JsonValue::Str(c.name.clone())));
    let r = JsonValue::Obj(entries);
    proof {
        let es = entries@;
        assert(es.len() == 1);
        assert forall|i: int| 0 <= i < es.len() implies key_in(
            (#[trigger] es[i]).0@,
            seq!["name"@],
        ) by {
            assert(seq!["name"@][0] == es[i].0@);
        }
        assert(keys_within(es, seq!["name"@]));
        assert(spec_obj_get(es, "name"@) == Some(es[0].1));
        assert(spec_decode_column(r) == Some(*c));
    }
    r
}

/// Write one plate row into the tree. Decoding the written node yields
/// the row again.
pub fn encode_row(c: &PlateRow) -> (r: JsonValue)
    ensures
        spec_decode_row(r) == Some(*c),
{
    let mut entries: Vec<(String, JsonValue)> = Vec::new();
    entries.push((String::from_str("name"), JsonValue::Str(c.name.clone())));
    let r = JsonValue::Obj(entries);
    proof {
        let es = entries@;
        assert(es.len() == 1);
        assert forall|i: int| 0 <= i < es.len() implies key_in(
            (#[trigger] es[i]).0@,
            seq!["name"@],
        ) by {
            assert(seq!["name"@][0] == es[i].0@);
        }
        assert(keys_within(es, seq!["name"@]));
        assert(spec_obj_get(es, "name"@) == Some(es[0].1));
        assert(spec_decode_row(r) == Some(*c));
    }
    r
}

/// Write one well reference into the tree. Decoding the written node
/// yields the well reference again.
pub fn encode_plate_well(w: &PlateWell) -> (r: JsonValue)
    ensures
        spec_decode_plate_well(r) == Some(*w),
{
    let mut entries: Vec<(String, JsonValue)> = Vec::new();
    entries.push((String::from_str("path"), JsonValue::Str(w.path.clone())));
    entries.push(
        (
            String::from_str("rowIndex"),
            JsonValue::Num(crate::json::JsonNum::Unsigned(w.row_index as u64)),
        ),
    );
    entries.push(
        (
            String::from_str("columnIndex"),
            JsonValue::Num(crate::json::JsonNum::Unsigned(w.column_index as u64)),
        ),
    );
    let r = JsonValue::Obj(entries);
    proof {
        reveal_strlit("path");
        reveal_strlit("rowIndex");
        reveal_strlit("columnIndex");
        assert("path"@.len() == 4 && "rowIndex"@.len() == 8 && "columnIndex"@.len() == 11);
        let es = entries@;
        assert(es.len() == 3);
        let allowed = seq!["path"@, "rowIndex"@, "columnIndex"@];
        assert forall|i: int| 0 <= i < es.len() implies key_in(
            (#[trigger] es[i]).0@,
            allowed,
        ) by {
            if i == 0 {
                assert(allowed[0] == es[i].0@);
            } else if i == 1 {
                assert(allowed[1] == es[i].0@);
            } else {
                assert(allowed[2] == es[i].0@);
            }
        }
        assert(keys_within(es, allowed));
        assert(es[0].0@ == "path"@ && es[1].0@ == "rowIndex"@ && es[2].0@ == "columnIndex"@);
        assert(es.drop_first()[0] == es[1]);
        assert(es.drop_first().drop_first()[0] == es[2]);
        assert(es.drop_first().len() == 2 && es.drop_first().drop_first().len() == 1);
        assert(spec_obj_get(es, "path"@) == Some(es[0].1));
        assert(spec_obj_get(es.drop_first(), "rowIndex"@) == Some(es[1].1));
        assert(spec_obj_get(es.drop_first().drop_first(), "columnIndex"@) == Some(es[2].1));
        assert(spec_obj_get(es.drop_first(), "columnIndex"@) == Some(es[2].1));
        assert(spec_obj_get(es, "rowIndex"@) == Some(es[1].1));
        assert(spec_obj_get(es, "columnIndex"@) == Some(es[2].1));
        assert(spec_decode_plate_well(r) == Some(*w));
    }
    r
}

} // verus!
