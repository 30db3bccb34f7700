//! An in-memory tree of plain values, as decoded from the interchange
//! format.
//!
//! The core never touches text: a surrounding collaborator decodes the
//! raw document into this tree, and the crate resolves, decodes and
//! validates it from here.

use vstd::prelude::*;

use crate::errors::DecodeError;
use crate::floats::{Float64, f64_bits_of_neg_uint, f64_bits_from_neg, f64_bits_from_u64, f64_bits_of_uint};
use crate::text::str_eq;

verus! {

/// A number leaf: a non-negative integer, a negative integer, or a
/// floating-point value held as its bit pattern.
#[derive(Debug, Clone, Copy, PartialEq, Eq, Structural)]
pub enum JsonNum {
    /// A non-negative integer.
    Unsigned(u64),
    /// A negative integer.
    Signed(i64),
    /// A floating-point value.
    Float(Float64),
}

/// One node of a decoded document tree.
#[derive(Debug)]
#[verifier::ext_equal]
pub enum JsonValue {
    /// The null value.
    Null,
    /// A boolean.
    Bool(bool),
    /// A number.
    Num(JsonNum),
    /// A string.
    Str(String),
    /// An ordered list of values.
    Arr(Vec<JsonValue>),
    /// An object: ordered fields, each a name and a value.
    Obj(Vec<(String, JsonValue)>),
}

/// The first value stored under `key`, scanning the fields in order.
pub open spec fn spec_obj_get(entries: Seq<(String, JsonValue)>, key: Seq<char>) -> Option<
    JsonValue,
>
    decreases entries.len(),
{
    if entries.len() == 0 {
        None
    } else if entries[0].0@ == key {
        Some(entries[0].1)
    } else {
        spec_obj_get(entries.drop_first(), key)
    }
}

/// Look a key up among an object's fields.
pub fn obj_get<'a>(entries: &'a Vec<(String, JsonValue)>, key: &str) -> (r: Option<
    &'a JsonValue,
>)
    ensures
        match r {
            Some(v) => spec_obj_get(entries@, key@) == Some(*v),
            None => spec_obj_get(entries@, key@) is None,
        },
{
    let mut i: usize = 0;
    proof {
        assert(entries@.skip(0) =~= entries@);
    }
    while i < entries.len()
        invariant
            0 <= i <= entries@.len(),
            spec_obj_get(entries@, key@) == spec_obj_get(entries@.skip(i as int), key@),
        decreases entries@.len() - i,
    {
        if str_eq(entries[i].0.as_str(), key) {
            proof {
                assert(entries@.skip(i as int)[0] == entries@[i as int]);
            }
            return Some(&entries[i].1);
        }
        proof {
            assert(entries@.skip(i as int)[0] == entries@[i as int]);
            assert(entries@.skip(i as int).drop_first() =~= entries@.skip(i as int + 1));
        }
        i = i + 1;
    }
    proof {
        assert(entries@.skip(entries@.len() as int) =~= Seq::<(String, JsonValue)>::empty());
    }
    None
}

/// The string stored under `key`: present, absent (or null), or of the
/// wrong kind.
pub open spec fn opt_str_field(entries: Seq<(String, JsonValue)>, key: Seq<char>) -> Option<
    Option<String>,
> {
    match spec_obj_get(entries, key) {
        None => Some(None),
        Some(JsonValue::Null) => Some(None),
        Some(JsonValue::Str(s)) => Some(Some(s)),
        Some(_) => None,
    }
}

/// The string required under `key`, if it is there and a string.
pub open spec fn req_str_field(entries: Seq<(String, JsonValue)>, key: Seq<char>) -> Option<
    String,
> {
    match spec_obj_get(entries, key) {
        Some(JsonValue::Str(s)) => Some(s),
        _ => None,
    }
}

/// The non-negative integer stored under `key`: present, absent (or
/// null), or of the wrong kind.
pub open spec fn opt_u64_field(entries: Seq<(String, JsonValue)>, key: Seq<char>) -> Option<
    Option<u64>,
> {
    match spec_obj_get(entries, key) {
        None => Some(None),
        Some(JsonValue::Null) => Some(None),
        Some(JsonValue::Num(JsonNum::Unsigned(u))) => Some(Some(u)),
        Some(_) => None,
    }
}

/// The non-negative integer required under `key`.
pub open spec fn req_u64_field(entries: Seq<(String, JsonValue)>, key: Seq<char>) -> Option<u64> {
    match spec_obj_get(entries, key) {
        Some(JsonValue::Num(JsonNum::Unsigned(u))) => Some(u),
        _ => None,
    }
}

/// Fetch an optional string field.
pub fn get_opt_str(entries: &Vec<(String, JsonValue)>, key: &str) -> (r: Result<
    Option<String>,
    DecodeError,
>)
    ensures
        match opt_str_field(entries@, key@) {
            Some(x) => r == Ok::<Option<String>, DecodeError>(x),
            None => r is Err,
        },
{
    match obj_get(entries, key) {
        None => Ok(None),
        Some(JsonValue::Null) => Ok(None),
        Some(JsonValue::Str(s)) => Ok(Some(s.clone())),
        Some(_) => Err(DecodeError::WrongType(String::from_str(key))),
    }
}

/// Fetch a required string field.
pub fn get_req_str(entries: &Vec<(String, JsonValue)>, key: &str) -> (r: Result<
    String,
    DecodeError,
>)
    ensures
        match req_str_field(entries@, key@) {
            Some(x) => r == Ok::<String, DecodeError>(x),
            None => r is Err,
        },
{
    match obj_get(entries, key) {
        Some(JsonValue::Str(s)) => Ok(s.clone()),
        Some(_) => Err(DecodeError::WrongType(String::from_str(key))),
        None => Err(DecodeError::MissingField(String::from_str(key))),
    }
}

/// Fetch an optional non-negative integer field.
pub fn get_opt_u64(entries: &Vec<(String, JsonValue)>, key: &str) -> (r: Result<
    Option<u64>,
    DecodeError,
>)
    ensures
        match opt_u64_field(entries@, key@) {
            Some(x) => r == Ok::<Option<u64>, DecodeError>(x),
            None => r is Err,
        },
{
    match obj_get(entries, key) {
        None => Ok(None),
        Some(JsonValue::Null) => Ok(None),
        Some(JsonValue::Num(JsonNum::Unsigned(u))) => Ok(Some(*u)),
        Some(_) => Err(DecodeError::WrongType(String::from_str(key))),
    }
}

/// Fetch a required non-negative integer field.
pub fn get_req_u64(entries: &Vec<(String, JsonValue)>, key: &str) -> (r: Result<u64, DecodeError>)
    ensures
        match req_u64_field(entries@, key@) {
            Some(x) => r == Ok::<u64, DecodeError>(x),
            None => r is Err,
        },
{
    match obj_get(entries, key) {
        Some(JsonValue::Num(JsonNum::Unsigned(u))) => Ok(*u),
        Some(_) => Err(DecodeError::WrongType(String::from_str(key))),
        None => Err(DecodeError::MissingField(String::from_str(key))),
    }
}

/// Whether the key is among the allowed field names.
pub open spec fn key_in(k: Seq<char>, allowed: Seq<Seq<char>>) -> bool {
    exists|j: int| 0 <= j < allowed.len() && allowed[j] == k
}

/// Whether every field name of the object is among the allowed ones.
pub open spec fn keys_within(entries: Seq<(String, JsonValue)>, allowed: Seq<Seq<char>>) -> bool {
    forall|i: int| 0 <= i < entries.len() ==> key_in((#[trigger] entries[i]).0@, allowed)
}

/// Check that every field name of the object is among the allowed ones,
/// handing back an offending name otherwise.
pub fn check_keys_within(entries: &Vec<(String, JsonValue)>, allowed: &Vec<String>) -> (r: Option<
    String,
>)
    ensures
        r is None <==> keys_within(entries@, allowed@.map_values(|s: String| s@)),
{
    let ghost names = allowed@.map_values(|s: String| s@);
    let mut i: usize = 0;
    while i < entries.len()
        invariant
            0 <= i <= entries@.len(),
            names == allowed@.map_values(|s: String| s@),
            forall|k: int| 0 <= k < i ==> key_in((#[trigger] entries@[k]).0@, names),
        decreases entries@.len() - i,
    {
        let mut found = false;
        let mut j: usize = 0;
        while j < allowed.len()
            invariant
                0 <= j <= allowed@.len(),
                i < entries@.len(),
                names == allowed@.map_values(|s: String| s@),
                found == exists|k: int| 0 <= k < j && names[k] == entries@[i as int].0@,
            decreases allowed@.len() - j,
        {
            proof {
                assert(names[j as int] == allowed@[j as int]@);
            }
            if str_eq(entries[i].0.as_str(), allowed[j].as_str()) {
                found = true;
            }
            j = j + 1;
        }
        if !found {
            proof {
                assert(!key_in(entries@[i as int].0@, names));
            }
            return Some(entries[i].0.clone());
        }
        i = i + 1;
    }
    None
}

/// Turn a number leaf into the floating-point value it declares: a float
/// directly, an integer exactly when the format can represent it.
pub open spec fn spec_float_of_num(n: JsonNum) -> Option<Float64> {
    match n {
        JsonNum::Float(f) => Some(f),
        JsonNum::Unsigned(u) => if u < 0x20_0000_0000_0000 {
            Some(Float64 { bits: f64_bits_of_uint(u as nat) })
        } else {
            None
        },
        JsonNum::Signed(i) => if -0x20_0000_0000_0000 < i < 0 {
            Some(Float64 { bits: f64_bits_of_neg_uint((-i) as nat) })
        } else {
            None
        },
    }
}

/// Turn a number leaf into the floating-point value it declares.
pub fn float_of_num(n: &JsonNum) -> (r: Option<Float64>)
    ensures
        r == spec_float_of_num(*n),
{
    match n {
        JsonNum::Float(f) => Some(*f),
        JsonNum::Unsigned(u) => if *u < 0x20_0000_0000_0000 {
            Some(f64_bits_from_u64(*u))
        } else {
            None
        },
        JsonNum::Signed(i) => if *i < 0 && *i > -0x20_0000_0000_0000 {
            Some(f64_bits_from_neg((-*i) as u64))
        } else {
            None
        },
    }
}

/// The floating-point values an array of number leaves declares.
pub open spec fn floats_decodable(items: Seq<JsonValue>) -> bool {
    forall|i: int|
        0 <= i < items.len() ==> ((#[trigger] items[i]) matches JsonValue::Num(n)
            && spec_float_of_num(n) is Some)
}

/// The floating-point values of a decodable array of number leaves.
pub open spec fn spec_floats(items: Seq<JsonValue>) -> Seq<Float64> {
    Seq::new(
        items.len(),
        |i: int|
            match items[i] {
                JsonValue::Num(n) => spec_float_of_num(n)->Some_0,
                _ => Float64 { bits: 0 },
            },
    )
}

/// Decode an array of number leaves into the floating-point values it
/// declares.
pub fn decode_floats(items: &Vec<JsonValue>) -> (r: Result<Vec<Float64>, DecodeError>)
    ensures
        r is Ok <==> floats_decodable(items@),
        r matches Ok(v) ==> v@ == spec_floats(items@),
{
    let mut out: Vec<Float64> = Vec::new();
    let mut i: usize = 0;
    while i < items.len()
        invariant
            0 <= i <= items@.len(),
            out@.len() == i,
            forall|k: int|
                0 <= k < i ==> ((#[trigger] items@[k]) matches JsonValue::Num(n)
                    && spec_float_of_num(n) is Some),
            forall|k: int| 0 <= k < i ==> out@[k] == spec_floats(items@)[k],
        decreases items@.len() - i,
    {
        match &items[i] {
            JsonValue::Num(n) => {
                match float_of_num(n) {
                    Some(f) => {
                        out.push(f);
                    },
                    None => {
                        return Err(DecodeError::WrongType(String::from_str("number")));
                    },
                }
            },
            _ => {
                return Err(DecodeError::WrongType(String::from_str("number")));
            },
        }
        i = i + 1;
    }
    proof {
        assert(out@ =~= spec_floats(items@));
    }
    Ok(out)
}

/// The strings an array of string leaves holds.
pub open spec fn strings_decodable(items: Seq<JsonValue>) -> bool {
    forall|i: int| 0 <= i < items.len() ==> (#[trigger] items[i]) is Str
}

/// The strings of a decodable array of string leaves.
pub open spec fn spec_strings(items: Seq<JsonValue>) -> Seq<String> {
    Seq::new(
        items.len(),
        |i: int|
            match items[i] {
                JsonValue::Str(s) => s,
                _ => items[i]->Str_0,
            },
    )
}

/// Decode an array of string leaves.
pub fn decode_strings(items: &Vec<JsonValue>) -> (r: Result<Vec<String>, DecodeError>)
    ensures
        r is Ok <==> strings_decodable(items@),
        r matches Ok(v) ==> v@ == spec_strings(items@),
{
    let mut out: Vec<String> = Vec::new();
    let mut i: usize = 0;
    while i < items.len()
        invariant
            0 <= i <= items@.len(),
            out@.len() == i,
            forall|k: int| 0 <= k < i ==> (#[trigger] items@[k]) is Str,
            forall|k: int| 0 <= k < i ==> out@[k] == spec_strings(items@)[k],
        decreases items@.len() - i,
    {
        match &items[i] {
            JsonValue::Str(s) => {
                out.push(s.clone());
            },
            _ => {
                return Err(DecodeError::WrongType(String::from_str("string")));
            },
        }
        i = i + 1;
    }
    proof {
        assert(out@ =~= spec_strings(items@));
    }
    Ok(out)
}

/// Whether two trees hold the same document: equal shape and equal
/// characters at every leaf. Distinguishes value identity, which the
/// verifier does not supply for rebuilt containers, from sameness of
/// content.
pub open spec fn json_equiv(a: JsonValue, b: JsonValue) -> bool
    decreases a,
{
    match (a, b) {
        (JsonValue::Null, JsonValue::Null) => true,
        (JsonValue::Bool(x), JsonValue::Bool(y)) => x == y,
        (JsonValue::Num(x), JsonValue::Num(y)) => x == y,
        (JsonValue::Str(x), JsonValue::Str(y)) => x@ == y@,
        (JsonValue::Arr(xs), JsonValue::Arr(ys)) => xs@.len() == ys@.len() && (forall|i: int|
            0 <= i < xs@.len() ==> json_equiv(#[trigger] xs@[i], ys@[i])),
        (JsonValue::Obj(xs), JsonValue::Obj(ys)) => xs@.len() == ys@.len() && (forall|i: int|
            0 <= i < xs@.len() ==> ((#[trigger] xs@[i]).0@ == ys@[i].0@ && json_equiv(
                xs@[i].1,
                ys@[i].1,
            ))),
        _ => false,
    }
}

impl JsonValue {
    /// An owned copy holding the same document.
    pub fn duplicate(&self) -> (r: JsonValue)
        ensures
            json_equiv(r, *self),
        decreases *self,
    {
        match self {
            JsonValue::Null => JsonValue::Null,
            JsonValue::Bool(b) => JsonValue::Bool(*b),
            JsonValue::Num(n) => JsonValue::Num(*n),
            JsonValue::Str(s) => JsonValue::Str(s.clone()),
            JsonValue::Arr(items) => {
                let mut out: Vec<JsonValue> = Vec::new();
                let mut i: usize = 0;
                while i < items.len()
                    invariant
                        *self matches JsonValue::Arr(its) && its == items,
                        0 <= i <= items@.len(),
                        out@.len() == i,
                        forall|j: int| 0 <= j < i ==> json_equiv(#[trigger] out@[j], items@[j]),
                    decreases items@.len() - i,
                {
                    proof {
                        assert(decreases_to!(*self => *items));
                        assert(decreases_to!(*items => items@[i as int]));
                    }
                    let copy = items[i].duplicate();
                    out.push(copy);
                    i = i + 1;
                }
                JsonValue::Arr(out)
            },
            JsonValue::Obj(entries) => {
                let mut out: Vec<(String, JsonValue)> = Vec::new();
                let mut i: usize = 0;
                while i < entries.len()
                    invariant
                        *self matches JsonValue::Obj(ents) && ents == entries,
                        0 <= i <= entries@.len(),
                        out@.len() == i,
                        forall|j: int|
                            0 <= j < i ==> ((#[trigger] out@[j]).0@ == entries@[j].0@
                                && json_equiv(out@[j].1, entries@[j].1)),
                    decreases entries@.len() - i,
                {
                    let name = entries[i].0.clone();
                    proof {
                        assert(decreases_to!(*self => *entries));
                        assert(decreases_to!(*entries => entries@[i as int]));
                        assert(decreases_to!(entries@[i as int] => entries@[i as int].1));
                    }
                    let copy = entries[i].1.duplicate();
                    out.push((name, copy));
                    i = i + 1;
                }
                JsonValue::Obj(out)
            },
        }
    }
}

} // verus!
