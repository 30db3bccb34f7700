//! Names of the recognised axis units, as they appear in documents.

use vstd::prelude::*;

use crate::text::str_eq;
use crate::v0_4::axes::{AxisUnit, AxisUnitSpace, AxisUnitTime};

verus! {

/// The space unit a document names with this string, if any.
pub open spec fn spec_space_unit(s: Seq<char>) -> Option<AxisUnitSpace> {
    if s == "angstrom"@ {
        Some(AxisUnitSpace::Angstrom)
    } else if s == "attometer"@ {
        Some(AxisUnitSpace::Attometer)
    } else if s == "centimeter"@ {
        Some(AxisUnitSpace::Centimeter)
    } else if s == "decimeter"@ {
        Some(AxisUnitSpace::Decimeter)
    } else if s == "exameter"@ {
        Some(AxisUnitSpace::Exameter)
    } else if s == "femtometer"@ {
        Some(AxisUnitSpace::Femtometer)
    } else if s == "foot"@ {
        Some(AxisUnitSpace::Foot)
    } else if s == "gigameter"@ {
        Some(AxisUnitSpace::Gigameter)
    } else if s == "hectometer"@ {
        Some(AxisUnitSpace::Hectometer)
    } else if s == "inch"@ {
        Some(AxisUnitSpace::Inch)
    } else if s == "kilometer"@ {
        Some(AxisUnitSpace::Kilometer)
    } else if s == "megameter"@ {
        Some(AxisUnitSpace::Megameter)
    } else if s == "meter"@ {
        Some(AxisUnitSpace::Meter)
    } else if s == "micrometer"@ {
        Some(AxisUnitSpace::Micrometer)
    } else if s == "mile"@ {
        Some(AxisUnitSpace::Mile)
    } else if s == "millimeter"@ {
        Some(AxisUnitSpace::Millimeter)
    } else if s == "nanometer"@ {
        Some(AxisUnitSpace::Nanometer)
    } else if s == "parsec"@ {
        Some(AxisUnitSpace::Parsec)
    } else if s == "petameter"@ {
        Some(AxisUnitSpace::Petameter)
    } else if s == "picometer"@ {
        Some(AxisUnitSpace::Picometer)
    } else if s == "terameter"@ {
        Some(AxisUnitSpace::Terameter)
    } else if s == "yard"@ {
        Some(AxisUnitSpace::Yard)
    } else if s == "yoctometer"@ {
        Some(AxisUnitSpace::Yoctometer)
    } else if s == "yottameter"@ {
        Some(AxisUnitSpace::Yottameter)
    } else if s == "zeptometer"@ {
        Some(AxisUnitSpace::Zeptometer)
    } else if s == "zettameter"@ {
        Some(AxisUnitSpace::Zettameter)
    } else {
        None
    }
}

/// Find the space unit a document names with this string.
pub fn space_unit_from_name(s: &str) -> (r: Option<AxisUnitSpace>)
    ensures
        r == spec_space_unit(s@),
{
    if str_eq(s, "angstrom") {
        Some(AxisUnitSpace::Angstrom)
    } else if str_eq(s, "attometer") {
        Some(AxisUnitSpace::Attometer)
    } else if str_eq(s, "centimeter") {
        Some(AxisUnitSpace::Centimeter)
    } else if str_eq(s, "decimeter") {
        Some(AxisUnitSpace::Decimeter)
    } else if str_eq(s, "exameter") {
        Some(AxisUnitSpace::Exameter)
    } else if str_eq(s, "femtometer") {
        Some(AxisUnitSpace::Femtometer)
    } else if str_eq(s, "foot") {
        Some(AxisUnitSpace::Foot)
    } else if str_eq(s, "gigameter") {
        Some(AxisUnitSpace::Gigameter)
    } else if str_eq(s, "hectometer") {
        Some(AxisUnitSpace::Hectometer)
    } else if str_eq(s, "inch") {
        Some(AxisUnitSpace::Inch)
    } else if str_eq(s, "kilometer") {
        Some(AxisUnitSpace::Kilometer)
    } else if str_eq(s, "megameter") {
        Some(AxisUnitSpace::Megameter)
    } else if str_eq(s, "meter") {
        Some(AxisUnitSpace::Meter)
    } else if str_eq(s, "micrometer") {
        Some(AxisUnitSpace::Micrometer)
    } else if str_eq(s, "mile") {
        Some(AxisUnitSpace::Mile)
    } else if str_eq(s, "millimeter") {
        Some(AxisUnitSpace::Millimeter)
    } else if str_eq(s, "nanometer") {
        Some(AxisUnitSpace::Nanometer)
    } else if str_eq(s, "parsec") {
        Some(AxisUnitSpace::Parsec)
    } else if str_eq(s, "petameter") {
        Some(AxisUnitSpace::Petameter)
    } else if str_eq(s, "picometer") {
        Some(AxisUnitSpace::Picometer)
    } else if str_eq(s, "terameter") {
        Some(AxisUnitSpace::Terameter)
    } else if str_eq(s, "yard") {
        Some(AxisUnitSpace::Yard)
    } else if str_eq(s, "yoctometer") {
        Some(AxisUnitSpace::Yoctometer)
    } else if str_eq(s, "yottameter") {
        Some(AxisUnitSpace::Yottameter)
    } else if str_eq(s, "zeptometer") {
        Some(AxisUnitSpace::Zeptometer)
    } else if str_eq(s, "zettameter") {
        Some(AxisUnitSpace::Zettameter)
    } else {
        None
    }
}

/// The name a document writes for this space unit.
pub open spec fn spec_space_unit_name(u: AxisUnitSpace) -> Seq<char> {
    match u {
        AxisUnitSpace::Angstrom => "angstrom"@,
        AxisUnitSpace::Attometer => "attometer"@,
        AxisUnitSpace::Centimeter => "centimeter"@,
        AxisUnitSpace::Decimeter => "decimeter"@,
        AxisUnitSpace::Exameter => "exameter"@,
        AxisUnitSpace::Femtometer => "femtometer"@,
        AxisUnitSpace::Foot => "foot"@,
        AxisUnitSpace::Gigameter => "gigameter"@,
        AxisUnitSpace::Hectometer => "hectometer"@,
        AxisUnitSpace::Inch => "inch"@,
        AxisUnitSpace::Kilometer => "kilometer"@,
        AxisUnitSpace::Megameter => "megameter"@,
        AxisUnitSpace::Meter => "meter"@,
        AxisUnitSpace::Micrometer => "micrometer"@,
        AxisUnitSpace::Mile => "mile"@,
        AxisUnitSpace::Millimeter => "millimeter"@,
        AxisUnitSpace::Nanometer => "nanometer"@,
        AxisUnitSpace::Parsec => "parsec"@,
        AxisUnitSpace::Petameter => "petameter"@,
        AxisUnitSpace::Picometer => "picometer"@,
        AxisUnitSpace::Terameter => "terameter"@,
        AxisUnitSpace::Yard => "yard"@,
        AxisUnitSpace::Yoctometer => "yoctometer"@,
        AxisUnitSpace::Yottameter => "yottameter"@,
        AxisUnitSpace::Zeptometer => "zeptometer"@,
        AxisUnitSpace::Zettameter => "zettameter"@,
    }
}

/// Write the name of this space unit.
pub fn space_unit_name(u: &AxisUnitSpace) -> (r: &'static str)
    ensures
        r@ == spec_space_unit_name(*u),
{
    match u {
        AxisUnitSpace::Angstrom => "angstrom",
        AxisUnitSpace::Attometer => "attometer",
        AxisUnitSpace::Centimeter => "centimeter",
        AxisUnitSpace::Decimeter => "decimeter",
        AxisUnitSpace::Exameter => "exameter",
        AxisUnitSpace::Femtometer => "femtometer",
        AxisUnitSpace::Foot => "foot",
        AxisUnitSpace::Gigameter => "gigameter",
        AxisUnitSpace::Hectometer => "hectometer",
        AxisUnitSpace::Inch => "inch",
        AxisUnitSpace::Kilometer => "kilometer",
        AxisUnitSpace::Megameter => "megameter",
        AxisUnitSpace::Meter => "meter",
        AxisUnitSpace::Micrometer => "micrometer",
        AxisUnitSpace::Mile => "mile",
        AxisUnitSpace::Millimeter => "millimeter",
        AxisUnitSpace::Nanometer => "nanometer",
        AxisUnitSpace::Parsec => "parsec",
        AxisUnitSpace::Petameter => "petameter",
        AxisUnitSpace::Picometer => "picometer",
        AxisUnitSpace::Terameter => "terameter",
        AxisUnitSpace::Yard => "yard",
        AxisUnitSpace::Yoctometer => "yoctometer",
        AxisUnitSpace::Yottameter => "yottameter",
        AxisUnitSpace::Zeptometer => "zeptometer",
        AxisUnitSpace::Zettameter => "zettameter",
    }
}

/// The time unit a document names with this string, if any.
pub open spec fn spec_time_unit(s: Seq<char>) -> Option<AxisUnitTime> {
    if s == "attosecond"@ {
        Some(AxisUnitTime::Attosecond)
    } else if s == "centisecond"@ {
        Some(AxisUnitTime::Centisecond)
    } else if s == "day"@ {
        Some(AxisUnitTime::Day)
    } else if s == "decisecond"@ {
        Some(AxisUnitTime::Decisecond)
    } else if s == "exasecond"@ {
        Some(AxisUnitTime::Exasecond)
    } else if s == "femtosecond"@ {
        Some(AxisUnitTime::Femtosecond)
    } else if s == "gigasecond"@ {
        Some(AxisUnitTime::Gigasecond)
    } else if s == "hectosecond"@ {
        Some(AxisUnitTime::Hectosecond)
    } else if s == "hour"@ {
        Some(AxisUnitTime::Hour)
    } else if s == "kilosecond"@ {
        Some(AxisUnitTime::Kilosecond)
    } else if s == "megasecond"@ {
        Some(AxisUnitTime::Megasecond)
    } else if s == "microsecond"@ {
        Some(AxisUnitTime::Microsecond)
    } else if s == "millisecond"@ {
        Some(AxisUnitTime::Millisecond)
    } else if s == "minute"@ {
        Some(AxisUnitTime::Minute)
    } else if s == "nanosecond"@ {
        Some(AxisUnitTime::Nanosecond)
    } else if s == "petasecond"@ {
        Some(AxisUnitTime::Petasecond)
    } else if s == "picosecond"@ {
        Some(AxisUnitTime::Picosecond)
    } else if s == "second"@ {
        Some(AxisUnitTime::Second)
    } else if s == "terasecond"@ {
        Some(AxisUnitTime::Terasecond)
    } else if s == "yoctosecond"@ {
        Some(AxisUnitTime::Yoctosecond)
    } else if s == "yottasecond"@ {
        Some(AxisUnitTime::Yottasecond)
    } else if s == "zeptosecond"@ {
        Some(AxisUnitTime::Zeptosecond)
    } else if s == "zettasecond"@ {
        Some(AxisUnitTime::Zettasecond)
    } else {
        None
    }
}

/// Find the time unit a document names with this string.
pub fn time_unit_from_name(s: &str) -> (r: Option<AxisUnitTime>)
    ensures
        r == spec_time_unit(s@),
{
    if str_eq(s, "attosecond") {
        Some(AxisUnitTime::Attosecond)
    } else if str_eq(s, "centisecond") {
        Some(AxisUnitTime::Centisecond)
    } else if str_eq(s, "day") {
        Some(AxisUnitTime::Day)
    } else if str_eq(s, "decisecond") {
        Some(AxisUnitTime::Decisecond)
    } else if str_eq(s, "exasecond") {
        Some(AxisUnitTime::Exasecond)
    } else if str_eq(s, "femtosecond") {
        Some(AxisUnitTime::Femtosecond)
    } else if str_eq(s, "gigasecond") {
        Some(AxisUnitTime::Gigasecond)
    } else if str_eq(s, "hectosecond") {
        Some(AxisUnitTime::Hectosecond)
    } else if str_eq(s, "hour") {
        Some(AxisUnitTime::Hour)
    } else if str_eq(s, "kilosecond") {
        Some(AxisUnitTime::Kilosecond)
    } else if str_eq(s, "megasecond") {
        Some(AxisUnitTime::Megasecond)
    } else if str_eq(s, "microsecond") {
        Some(AxisUnitTime::Microsecond)
    } else if str_eq(s, "millisecond") {
        Some(AxisUnitTime::Millisecond)
    } else if str_eq(s, "minute") {
        Some(AxisUnitTime::Minute)
    } else if str_eq(s, "nanosecond") {
        Some(AxisUnitTime::Nanosecond)
    } else if str_eq(s, "petasecond") {
        Some(AxisUnitTime::Petasecond)
    } else if str_eq(s, "picosecond") {
        Some(AxisUnitTime::Picosecond)
    } else if str_eq(s, "second") {
        Some(AxisUnitTime::Second)
    } else if str_eq(s, "terasecond") {
        Some(AxisUnitTime::Terasecond)
    } else if str_eq(s, "yoctosecond") {
        Some(AxisUnitTime::Yoctosecond)
    } else if str_eq(s, "yottasecond") {
        Some(AxisUnitTime::Yottasecond)
    } else if str_eq(s, "zeptosecond") {
        Some(AxisUnitTime::Zeptosecond)
    } else if str_eq(s, "zettasecond") {
        Some(AxisUnitTime::Zettasecond)
    } else {
        None
    }
}

/// The name a document writes for this time unit.
pub open spec fn spec_time_unit_name(u: AxisUnitTime) -> Seq<char> {
    match u {
        AxisUnitTime::Attosecond => "attosecond"@,
        AxisUnitTime::Centisecond => "centisecond"@,
        AxisUnitTime::Day => "day"@,
        AxisUnitTime::Decisecond => "decisecond"@,
        AxisUnitTime::Exasecond => "exasecond"@,
        AxisUnitTime::Femtosecond => "femtosecond"@,
        AxisUnitTime::Gigasecond => "gigasecond"@,
        AxisUnitTime::Hectosecond => "hectosecond"@,
        AxisUnitTime::Hour => "hour"@,
        AxisUnitTime::Kilosecond => "kilosecond"@,
        AxisUnitTime::Megasecond => "megasecond"@,
        AxisUnitTime::Microsecond => "microsecond"@,
        AxisUnitTime::Millisecond => "millisecond"@,
        AxisUnitTime::Minute => "minute"@,
        AxisUnitTime::Nanosecond => "nanosecond"@,
        AxisUnitTime::Petasecond => "petasecond"@,
        AxisUnitTime::Picosecond => "picosecond"@,
        AxisUnitTime::Second => "second"@,
        AxisUnitTime::Terasecond => "terasecond"@,
        AxisUnitTime::Yoctosecond => "yoctosecond"@,
        AxisUnitTime::Yottasecond => "yottasecond"@,
        AxisUnitTime::Zeptosecond => "zeptosecond"@,
        AxisUnitTime::Zettasecond => "zettasecond"@,
    }
}

/// Write the name of this time unit.
pub fn time_unit_name(u: &AxisUnitTime) -> (r: &'static str)
    ensures
        r@ == spec_time_unit_name(*u),
{
    match u {
        AxisUnitTime::Attosecond => "attosecond",
        AxisUnitTime::Centisecond => "centisecond",
        AxisUnitTime::Day => "day",
        AxisUnitTime::Decisecond => "decisecond",
        AxisUnitTime::Exasecond => "exasecond",
        AxisUnitTime::Femtosecond => "femtosecond",
        AxisUnitTime::Gigasecond => "gigasecond",
        AxisUnitTime::Hectosecond => "hectosecond",
        AxisUnitTime::Hour => "hour",
        AxisUnitTime::Kilosecond => "kilosecond",
        AxisUnitTime::Megasecond => "megasecond",
        AxisUnitTime::Microsecond => "microsecond",
        AxisUnitTime::Millisecond => "millisecond",
        AxisUnitTime::Minute => "minute",
        AxisUnitTime::Nanosecond => "nanosecond",
        AxisUnitTime::Petasecond => "petasecond",
        AxisUnitTime::Picosecond => "picosecond",
        AxisUnitTime::Second => "second",
        AxisUnitTime::Terasecond => "terasecond",
        AxisUnitTime::Yoctosecond => "yoctosecond",
        AxisUnitTime::Yottasecond => "yottasecond",
        AxisUnitTime::Zeptosecond => "zeptosecond",
        AxisUnitTime::Zettasecond => "zettasecond",
    }
}

/// The unit a document names with this string: a recognised space unit,
/// else a recognised time unit, else a custom unit.
pub open spec fn spec_axis_unit(s: String) -> AxisUnit {
    match spec_space_unit(s@) {
        Some(u) => AxisUnit::Space(u),
        None => match spec_time_unit(s@) {
            Some(u) => AxisUnit::Time(u),
            None => AxisUnit::Custom(s),
        },
    }
}

/// Find the unit a document names with this string.
pub fn axis_unit_from_name(s: String) -> (r: AxisUnit)
    ensures
        r == spec_axis_unit(s),
{
    match space_unit_from_name(s.as_str()) {
        Some(u) => AxisUnit::Space(u),
        None => match time_unit_from_name(s.as_str()) {
            Some(u) => AxisUnit::Time(u),
            None => AxisUnit::Custom(s),
        },
    }
}

/// Law: the written name of a space unit names that unit again.
pub proof fn lemma_space_unit_round_trip(u: AxisUnitSpace)
    ensures
        spec_space_unit(spec_space_unit_name(u)) == Some(u),
{
    reveal_strlit("angstrom");
    reveal_strlit("attometer");
    reveal_strlit("centimeter");
    reveal_strlit("decimeter");
    reveal_strlit("exameter");
    reveal_strlit("femtometer");
    reveal_strlit("foot");
    reveal_strlit("gigameter");
    reveal_strlit("hectometer");
    reveal_strlit("inch");
    reveal_strlit("kilometer");
    reveal_strlit("megameter");
    reveal_strlit("meter");
    reveal_strlit("micrometer");
    reveal_strlit("mile");
    reveal_strlit("millimeter");
    reveal_strlit("nanometer");
    reveal_strlit("parsec");
    reveal_strlit("petameter");
    reveal_strlit("picometer");
    reveal_strlit("terameter");
    reveal_strlit("yard");
    reveal_strlit("yoctometer");
    reveal_strlit("yottameter");
    reveal_strlit("zeptometer");
    reveal_strlit("zettameter");
    assert("angstrom"@.len() == 8);
    assert("attometer"@.len() == 9);
    assert("centimeter"@.len() == 10);
    assert("decimeter"@.len() == 9);
    assert("exameter"@.len() == 8);
    assert("femtometer"@.len() == 10);
    assert("foot"@.len() == 4);
    assert("gigameter"@.len() == 9);
    assert("hectometer"@.len() == 10);
    assert("inch"@.len() == 4);
    assert("kilometer"@.len() == 9);
    assert("megameter"@.len() == 9);
    assert("meter"@.len() == 5);
    assert("micrometer"@.len() == 10);
    assert("mile"@.len() == 4);
    assert("millimeter"@.len() == 10);
    assert("nanometer"@.len() == 9);
    assert("parsec"@.len() == 6);
    assert("petameter"@.len() == 9);
    assert("picometer"@.len() == 9);
    assert("terameter"@.len() == 9);
    assert("yard"@.len() == 4);
    assert("yoctometer"@.len() == 10);
    assert("yottameter"@.len() == 10);
    assert("zeptometer"@.len() == 10);
    assert("zettameter"@.len() == 10);
    assert("angstrom"@[0] == 'a' && "exameter"@[0] == 'e');
    assert("attometer"@[0] == 'a' && "decimeter"@[0] == 'd');
    assert("attometer"@[0] == 'a' && "gigameter"@[0] == 'g');
    assert("attometer"@[0] == 'a' && "kilometer"@[0] == 'k');
    assert("attometer"@[0] == 'a' && "megameter"@[0] == 'm');
    assert("attometer"@[0] == 'a' && "nanometer"@[0] == 'n');
    assert("attometer"@[0] == 'a' && "petameter"@[0] == 'p');
    assert("attometer"@[0] == 'a' && "picometer"@[0] == 'p');
    assert("attometer"@[0] == 'a' && "terameter"@[0] == 't');
    assert("centimeter"@[0] == 'c' && "femtometer"@[0] == 'f');
    assert("centimeter"@[0] == 'c' && "hectometer"@[0] == 'h');
    assert("centimeter"@[0] == 'c' && "micrometer"@[0] == 'm');
    assert("centimeter"@[0] == 'c' && "millimeter"@[0] == 'm');
    assert("centimeter"@[0] == 'c' && "yoctometer"@[0] == 'y');
    assert("centimeter"@[0] == 'c' && "yottameter"@[0] == 'y');
    assert("centimeter"@[0] == 'c' && "zeptometer"@[0] == 'z');
    assert("centimeter"@[0] == 'c' && "zettameter"@[0] == 'z');
    assert("decimeter"@[0] == 'd' && "gigameter"@[0] == 'g');
    assert("decimeter"@[0] == 'd' && "kilometer"@[0] == 'k');
    assert("decimeter"@[0] == 'd' && "megameter"@[0] == 'm');
    assert("decimeter"@[0] == 'd' && "nanometer"@[0] == 'n');
    assert("decimeter"@[0] == 'd' && "petameter"@[0] == 'p');
    assert("decimeter"@[0] == 'd' && "picometer"@[0] == 'p');
    assert("decimeter"@[0] == 'd' && "terameter"@[0] == 't');
    assert("femtometer"@[0] == 'f' && "hectometer"@[0] == 'h');
    assert("femtometer"@[0] == 'f' && "micrometer"@[0] == 'm');
    assert("femtometer"@[0] == 'f' && "millimeter"@[0] == 'm');
    assert("femtometer"@[0] == 'f' && "yoctometer"@[0] == 'y');
    assert("femtometer"@[0] == 'f' && "yottameter"@[0] == 'y');
    assert("femtometer"@[0] == 'f' && "zeptometer"@[0] == 'z');
    assert("femtometer"@[0] == 'f' && "zettameter"@[0] == 'z');
    assert("foot"@[0] == 'f' && "inch"@[0] == 'i');
    assert("foot"@[0] == 'f' && "mile"@[0] == 'm');
    assert("foot"@[0] == 'f' && "yard"@[0] == 'y');
    assert("gigameter"@[0] == 'g' && "kilometer"@[0] == 'k');
    assert("gigameter"@[0] == 'g' && "megameter"@[0] == 'm');
    assert("gigameter"@[0] == 'g' && "nanometer"@[0] == 'n');
    assert("gigameter"@[0] == 'g' && "petameter"@[0] == 'p');
    assert("gigameter"@[0] == 'g' && "picometer"@[0] == 'p');
    assert("gigameter"@[0] == 'g' && "terameter"@[0] == 't');
    assert("hectometer"@[0] == 'h' && "micrometer"@[0] == 'm');
    assert("hectometer"@[0] == 'h' && "millimeter"@[0] == 'm');
    assert("hectometer"@[0] == 'h' && "yoctometer"@[0] == 'y');
    assert("hectometer"@[0] == 'h' && "yottameter"@[0] == 'y');
    assert("hectometer"@[0] == 'h' && "zeptometer"@[0] == 'z');
    assert("hectometer"@[0] == 'h' && "zettameter"@[0] == 'z');
    assert("inch"@[0] == 'i' && "mile"@[0] == 'm');
    assert("inch"@[0] == 'i' && "yard"@[0] == 'y');
    assert("kilometer"@[0] == 'k' && "megameter"@[0] == 'm');
    assert("kilometer"@[0] == 'k' && "nanometer"@[0] == 'n');
    assert("kilometer"@[0] == 'k' && "petameter"@[0] == 'p');
    assert("kilometer"@[0] == 'k' && "picometer"@[0] == 'p');
    assert("kilometer"@[0] == 'k' && "terameter"@[0] == 't');
    assert("megameter"@[0] == 'm' && "nanometer"@[0] == 'n');
    assert("megameter"@[0] == 'm' && "petameter"@[0] == 'p');
    assert("megameter"@[0] == 'm' && "picometer"@[0] == 'p');
    assert("megameter"@[0] == 'm' && "terameter"@[0] == 't');
    assert("micrometer"@[2] == 'c' && "millimeter"@[2] == 'l');
    assert("micrometer"@[0] == 'm' && "yoctometer"@[0] == 'y');
    assert("micrometer"@[0] == 'm' && "yottameter"@[0] == 'y');
    assert("micrometer"@[0] == 'm' && "zeptometer"@[0] == 'z');
    assert("micrometer"@[0] == 'm' && "zettameter"@[0] == 'z');
    assert("mile"@[0] == 'm' && "yard"@[0] == 'y');
    assert("millimeter"@[0] == 'm' && "yoctometer"@[0] == 'y');
    assert("millimeter"@[0] == 'm' && "yottameter"@[0] == 'y');
    assert("millimeter"@[0] == 'm' && "zeptometer"@[0] == 'z');
    assert("millimeter"@[0] == 'm' && "zettameter"@[0] == 'z');
    assert("nanometer"@[0] == 'n' && "petameter"@[0] == 'p');
    assert("nanometer"@[0] == 'n' && "picometer"@[0] == 'p');
    assert("nanometer"@[0] == 'n' && "terameter"@[0] == 't');
    assert("petameter"@[1] == 'e' && "picometer"@[1] == 'i');
    assert("petameter"@[0] == 'p' && "terameter"@[0] == 't');
    assert("picometer"@[0] == 'p' && "terameter"@[0] == 't');
    assert("yoctometer"@[2] == 'c' && "yottameter"@[2] == 't');
    assert("yoctometer"@[0] == 'y' && "zeptometer"@[0] == 'z');
    assert("yoctometer"@[0] == 'y' && "zettameter"@[0] == 'z');
    assert("yottameter"@[0] == 'y' && "zeptometer"@[0] == 'z');
    assert("yottameter"@[0] == 'y' && "zettameter"@[0] == 'z');
    assert("zeptometer"@[2] == 'p' && "zettameter"@[2] == 't');
    match u {
        AxisUnitSpace::Angstrom => {
            assert(spec_space_unit("angstrom"@) == Some(AxisUnitSpace::Angstrom));
        },
        AxisUnitSpace::Attometer => {
            assert(spec_space_unit("attometer"@) == Some(AxisUnitSpace::Attometer));
        },
        AxisUnitSpace::Centimeter => {
            assert(spec_space_unit("centimeter"@) == Some(AxisUnitSpace::Centimeter));
        },
        AxisUnitSpace::Decimeter => {
            assert(spec_space_unit("decimeter"@) == Some(AxisUnitSpace::Decimeter));
        },
        AxisUnitSpace::Exameter => {
            assert(spec_space_unit("exameter"@) == Some(AxisUnitSpace::Exameter));
        },
        AxisUnitSpace::Femtometer => {
            assert(spec_space_unit("femtometer"@) == Some(AxisUnitSpace::Femtometer));
        },
        AxisUnitSpace::Foot => {
            assert(spec_space_unit("foot"@) == Some(AxisUnitSpace::Foot));
        },
        AxisUnitSpace::Gigameter => {
            assert(spec_space_unit("gigameter"@) == Some(AxisUnitSpace::Gigameter));
        },
        AxisUnitSpace::Hectometer => {
            assert(spec_space_unit("hectometer"@) == Some(AxisUnitSpace::Hectometer));
        },
        AxisUnitSpace::Inch => {
            assert(spec_space_unit("inch"@) == Some(AxisUnitSpace::Inch));
        },
        AxisUnitSpace::Kilometer => {
            assert(spec_space_unit("kilometer"@) == Some(AxisUnitSpace::Kilometer));
        },
        AxisUnitSpace::Megameter => {
            assert(spec_space_unit("megameter"@) == Some(AxisUnitSpace::Megameter));
        },
        AxisUnitSpace::Meter => {
            assert(spec_space_unit("meter"@) == Some(AxisUnitSpace::Meter));
        },
        AxisUnitSpace::Micrometer => {
            assert(spec_space_unit("micrometer"@) == Some(AxisUnitSpace::Micrometer));
        },
        AxisUnitSpace::Mile => {
            assert(spec_space_unit("mile"@) == Some(AxisUnitSpace::Mile));
        },
        AxisUnitSpace::Millimeter => {
            assert(spec_space_unit("millimeter"@) == Some(AxisUnitSpace::Millimeter));
        },
        AxisUnitSpace::Nanometer => {
            assert(spec_space_unit("nanometer"@) == Some(AxisUnitSpace::Nanometer));
        },
        AxisUnitSpace::Parsec => {
            assert(spec_space_unit("parsec"@) == Some(AxisUnitSpace::Parsec));
        },
        AxisUnitSpace::Petameter => {
            assert(spec_space_unit("petameter"@) == Some(AxisUnitSpace::Petameter));
        },
        AxisUnitSpace::Picometer => {
            assert(spec_space_unit("picometer"@) == Some(AxisUnitSpace::Picometer));
        },
        AxisUnitSpace::Terameter => {
            assert(spec_space_unit("terameter"@) == Some(AxisUnitSpace::Terameter));
        },
        AxisUnitSpace::Yard => {
            assert(spec_space_unit("yard"@) == Some(AxisUnitSpace::Yard));
        },
        AxisUnitSpace::Yoctometer => {
            assert(spec_space_unit("yoctometer"@) == Some(AxisUnitSpace::Yoctometer));
        },
        AxisUnitSpace::Yottameter => {
            assert(spec_space_unit("yottameter"@) == Some(AxisUnitSpace::Yottameter));
        },
        AxisUnitSpace::Zeptometer => {
            assert(spec_space_unit("zeptometer"@) == Some(AxisUnitSpace::Zeptometer));
        },
        AxisUnitSpace::Zettameter => {
            assert(spec_space_unit("zettameter"@) == Some(AxisUnitSpace::Zettameter));
        },
    }
}

/// Law: the written name of a time unit names that unit again.
pub proof fn lemma_time_unit_round_trip(u: AxisUnitTime)
    ensures
        spec_time_unit(spec_time_unit_name(u)) == Some(u),
{
    reveal_strlit("angstrom");
    reveal_strlit("attometer");
    reveal_strlit("centimeter");
    reveal_strlit("decimeter");
    reveal_strlit("exameter");
    reveal_strlit("femtometer");
    reveal_strlit("foot");
    reveal_strlit("gigameter");
    reveal_strlit("hectometer");
    reveal_strlit("inch");
    reveal_strlit("kilometer");
    reveal_strlit("megameter");
    reveal_strlit("meter");
    reveal_strlit("micrometer");
    reveal_strlit("mile");
    reveal_strlit("millimeter");
    reveal_strlit("nanometer");
    reveal_strlit("parsec");
    reveal_strlit("petameter");
    reveal_strlit("picometer");
    reveal_strlit("terameter");
    reveal_strlit("yard");
    reveal_strlit("yoctometer");
    reveal_strlit("yottameter");
    reveal_strlit("zeptometer");
    reveal_strlit("zettameter");
    reveal_strlit("attosecond");
    reveal_strlit("centisecond");
    reveal_strlit("day");
    reveal_strlit("decisecond");
    reveal_strlit("exasecond");
    reveal_strlit("femtosecond");
    reveal_strlit("gigasecond");
    reveal_strlit("hectosecond");
    reveal_strlit("hour");
    reveal_strlit("kilosecond");
    reveal_strlit("megasecond");
    reveal_strlit("microsecond");
    reveal_strlit("millisecond");
    reveal_strlit("minute");
    reveal_strlit("nanosecond");
    reveal_strlit("petasecond");
    reveal_strlit("picosecond");
    reveal_strlit("second");
    reveal_strlit("terasecond");
    reveal_strlit("yoctosecond");
    reveal_strlit("yottasecond");
    reveal_strlit("zeptosecond");
    reveal_strlit("zettasecond");
    assert("angstrom"@.len() == 8);
    assert("attometer"@.len() == 9);
    assert("centimeter"@.len() == 10);
    assert("decimeter"@.len() == 9);
    assert("exameter"@.len() == 8);
    assert("femtometer"@.len() == 10);
    assert("foot"@.len() == 4);
    assert("gigameter"@.len() == 9);
    assert("hectometer"@.len() == 10);
    assert("inch"@.len() == 4);
    assert("kilometer"@.len() == 9);
    assert("megameter"@.len() == 9);
    assert("meter"@.len() == 5);
    assert("micrometer"@.len() == 10);
    assert("mile"@.len() == 4);
    assert("millimeter"@.len() == 10);
    assert("nanometer"@.len() == 9);
    assert("parsec"@.len() == 6);
    assert("petameter"@.len() == 9);
    assert("picometer"@.len() == 9);
    assert("terameter"@.len() == 9);
    assert("yard"@.len() == 4);
    assert("yoctometer"@.len() == 10);
    assert("yottameter"@.len() == 10);
    assert("zeptometer"@.len() == 10);
    assert("zettameter"@.len() == 10);
    assert("attosecond"@.len() == 10);
    assert("centisecond"@.len() == 11);
    assert("day"@.len() == 3);
    assert("decisecond"@.len() == 10);
    assert("exasecond"@.len() == 9);
    assert("femtosecond"@.len() == 11);
    assert("gigasecond"@.len() == 10);
    assert("hectosecond"@.len() == 11);
    assert("hour"@.len() == 4);
    assert("kilosecond"@.len() == 10);
    assert("megasecond"@.len() == 10);
    assert("microsecond"@.len() == 11);
    assert("millisecond"@.len() == 11);
    assert("minute"@.len() == 6);
    assert("nanosecond"@.len() == 10);
    assert("petasecond"@.len() == 10);
    assert("picosecond"@.len() == 10);
    assert("second"@.len() == 6);
    assert("terasecond"@.len() == 10);
    assert("yoctosecond"@.len() == 11);
    assert("yottasecond"@.len() == 11);
    assert("zeptosecond"@.len() == 11);
    assert("zettasecond"@.len() == 11);
    assert("angstrom"@[0] == 'a' && "exameter"@[0] == 'e');
    assert("attometer"@[0] == 'a' && "decimeter"@[0] == 'd');
    assert("attometer"@[0] == 'a' && "gigameter"@[0] == 'g');
    assert("attometer"@[0] == 'a' && "kilometer"@[0] == 'k');
    assert("attometer"@[0] == 'a' && "megameter"@[0] == 'm');
    assert("attometer"@[0] == 'a' && "nanometer"@[0] == 'n');
    assert("attometer"@[0] == 'a' && "petameter"@[0] == 'p');
    assert("attometer"@[0] == 'a' && "picometer"@[0] == 'p');
    assert("attometer"@[0] == 'a' && "terameter"@[0] == 't');
    assert("attometer"@[0] == 'a' && "exasecond"@[0] == 'e');
    assert("centimeter"@[0] == 'c' && "femtometer"@[0] == 'f');
    assert("centimeter"@[0] == 'c' && "hectometer"@[0] == 'h');
    assert("centimeter"@[0] == 'c' && "micrometer"@[0] == 'm');
    assert("centimeter"@[0] == 'c' && "millimeter"@[0] == 'm');
    assert("centimeter"@[0] == 'c' && "yoctometer"@[0] == 'y');
    assert("centimeter"@[0] == 'c' && "yottameter"@[0] == 'y');
    assert("centimeter"@[0] == 'c' && "zeptometer"@[0] == 'z');
    assert("centimeter"@[0] == 'c' && "zettameter"@[0] == 'z');
    assert("centimeter"@[0] == 'c' && "attosecond"@[0] == 'a');
    assert("centimeter"@[0] == 'c' && "decisecond"@[0] == 'd');
    assert("centimeter"@[0] == 'c' && "gigasecond"@[0] == 'g');
    assert("centimeter"@[0] == 'c' && "kilosecond"@[0] == 'k');
    assert("centimeter"@[0] == 'c' && "megasecond"@[0] == 'm');
    assert("centimeter"@[0] == 'c' && "nanosecond"@[0] == 'n');
    assert("centimeter"@[0] == 'c' && "petasecond"@[0] == 'p');
    assert("centimeter"@[0] == 'c' && "picosecond"@[0] == 'p');
    assert("centimeter"@[0] == 'c' && "terasecond"@[0] == 't');
    assert("decimeter"@[0] == 'd' && "gigameter"@[0] == 'g');
    assert("decimeter"@[0] == 'd' && "kilometer"@[0] == 'k');
    assert("decimeter"@[0] == 'd' && "megameter"@[0] == 'm');
    assert("decimeter"@[0] == 'd' && "nanometer"@[0] == 'n');
    assert("decimeter"@[0] == 'd' && "petameter"@[0] == 'p');
    assert("decimeter"@[0] == 'd' && "picometer"@[0] == 'p');
    assert("decimeter"@[0] == 'd' && "terameter"@[0] == 't');
    assert("decimeter"@[0] == 'd' && "exasecond"@[0] == 'e');
    assert("femtometer"@[0] == 'f' && "hectometer"@[0] == 'h');
    assert("femtometer"@[0] == 'f' && "micrometer"@[0] == 'm');
    assert("femtometer"@[0] == 'f' && "millimeter"@[0] == 'm');
    assert("femtometer"@[0] == 'f' && "yoctometer"@[0] == 'y');
    assert("femtometer"@[0] == 'f' && "yottameter"@[0] == 'y');
    assert("femtometer"@[0] == 'f' && "zeptometer"@[0] == 'z');
    assert("femtometer"@[0] == 'f' && "zettameter"@[0] == 'z');
    assert("femtometer"@[0] == 'f' && "attosecond"@[0] == 'a');
    assert("femtometer"@[0] == 'f' && "decisecond"@[0] == 'd');
    assert("femtometer"@[0] == 'f' && "gigasecond"@[0] == 'g');
    assert("femtometer"@[0] == 'f' && "kilosecond"@[0] == 'k');
    assert("femtometer"@[0] == 'f' && "megasecond"@[0] == 'm');
    assert("femtometer"@[0] == 'f' && "nanosecond"@[0] == 'n');
    assert("femtometer"@[0] == 'f' && "petasecond"@[0] == 'p');
    assert("femtometer"@[0] == 'f' && "picosecond"@[0] == 'p');
    assert("femtometer"@[0] == 'f' && "terasecond"@[0] == 't');
    assert("foot"@[0] == 'f' && "inch"@[0] == 'i');
    assert("foot"@[0] == 'f' && "mile"@[0] == 'm');
    assert("foot"@[0] == 'f' && "yard"@[0] == 'y');
    assert("foot"@[0] == 'f' && "hour"@[0] == 'h');
    assert("gigameter"@[0] == 'g' && "kilometer"@[0] == 'k');
    assert("gigameter"@[0] == 'g' && "megameter"@[0] == 'm');
    assert("gigameter"@[0] == 'g' && "nanometer"@[0] == 'n');
    assert("gigameter"@[0] == 'g' && "petameter"@[0] == 'p');
    assert("gigameter"@[0] == 'g' && "picometer"@[0] == 'p');
    assert("gigameter"@[0] == 'g' && "terameter"@[0] == 't');
    assert("gigameter"@[0] == 'g' && "exasecond"@[0] == 'e');
    assert("hectometer"@[0] == 'h' && "micrometer"@[0] == 'm');
    assert("hectometer"@[0] == 'h' && "millimeter"@[0] == 'm');
    assert("hectometer"@[0] == 'h' && "yoctometer"@[0] == 'y');
    assert("hectometer"@[0] == 'h' && "yottameter"@[0] == 'y');
    assert("hectometer"@[0] == 'h' && "zeptometer"@[0] == 'z');
    assert("hectometer"@[0] == 'h' && "zettameter"@[0] == 'z');
    assert("hectometer"@[0] == 'h' && "attosecond"@[0] == 'a');
    assert("hectometer"@[0] == 'h' && "decisecond"@[0] == 'd');
    assert("hectometer"@[0] == 'h' && "gigasecond"@[0] == 'g');
    assert("hectometer"@[0] == 'h' && "kilosecond"@[0] == 'k');
    assert("hectometer"@[0] == 'h' && "megasecond"@[0] == 'm');
    assert("hectometer"@[0] == 'h' && "nanosecond"@[0] == 'n');
    assert("hectometer"@[0] == 'h' && "petasecond"@[0] == 'p');
    assert("hectometer"@[0] == 'h' && "picosecond"@[0] == 'p');
    assert("hectometer"@[0] == 'h' && "terasecond"@[0] == 't');
    assert("inch"@[0] == 'i' && "mile"@[0] == 'm');
    assert("inch"@[0] == 'i' && "yard"@[0] == 'y');
    assert("inch"@[0] == 'i' && "hour"@[0] == 'h');
    assert("kilometer"@[0] == 'k' && "megameter"@[0] == 'm');
    assert("kilometer"@[0] == 'k' && "nanometer"@[0] == 'n');
    assert("kilometer"@[0] == 'k' && "petameter"@[0] == 'p');
    assert("kilometer"@[0] == 'k' && "picometer"@[0] == 'p');
    assert("kilometer"@[0] == 'k' && "terameter"@[0] == 't');
    assert("kilometer"@[0] == 'k' && "exasecond"@[0] == 'e');
    assert("megameter"@[0] == 'm' && "nanometer"@[0] == 'n');
    assert("megameter"@[0] == 'm' && "petameter"@[0] == 'p');
    assert("megameter"@[0] == 'm' && "picometer"@[0] == 'p');
    assert("megameter"@[0] == 'm' && "terameter"@[0] == 't');
    assert("megameter"@[0] == 'm' && "exasecond"@[0] == 'e');
    assert("micrometer"@[2] == 'c' && "millimeter"@[2] == 'l');
    assert("micrometer"@[0] == 'm' && "yoctometer"@[0] == 'y');
    assert("micrometer"@[0] == 'm' && "yottameter"@[0] == 'y');
    assert("micrometer"@[0] == 'm' && "zeptometer"@[0] == 'z');
    assert("micrometer"@[0] == 'm' && "zettameter"@[0] == 'z');
    assert("micrometer"@[0] == 'm' && "attosecond"@[0] == 'a');
    assert("micrometer"@[0] == 'm' && "decisecond"@[0] == 'd');
    assert("micrometer"@[0] == 'm' && "gigasecond"@[0] == 'g');
    assert("micrometer"@[0] == 'm' && "kilosecond"@[0] == 'k');
    assert("micrometer"@[1] == 'i' && "megasecond"@[1] == 'e');
    assert("micrometer"@[0] == 'm' && "nanosecond"@[0] == 'n');
    assert("micrometer"@[0] == 'm' && "petasecond"@[0] == 'p');
    assert("micrometer"@[0] == 'm' && "picosecond"@[0] == 'p');
    assert("micrometer"@[0] == 'm' && "terasecond"@[0] == 't');
    assert("mile"@[0] == 'm' && "yard"@[0] == 'y');
    assert("mile"@[0] == 'm' && "hour"@[0] == 'h');
    assert("millimeter"@[0] == 'm' && "yoctometer"@[0] == 'y');
    assert("millimeter"@[0] == 'm' && "yottameter"@[0] == 'y');
    assert("millimeter"@[0] == 'm' && "zeptometer"@[0] == 'z');
    assert("millimeter"@[0] == 'm' && "zettameter"@[0] == 'z');
    assert("millimeter"@[0] == 'm' && "attosecond"@[0] == 'a');
    assert("millimeter"@[0] == 'm' && "decisecond"@[0] == 'd');
    assert("millimeter"@[0] == 'm' && "gigasecond"@[0] == 'g');
    assert("millimeter"@[0] == 'm' && "kilosecond"@[0] == 'k');
    assert("millimeter"@[1] == 'i' && "megasecond"@[1] == 'e');
    assert("millimeter"@[0] == 'm' && "nanosecond"@[0] == 'n');
    assert("millimeter"@[0] == 'm' && "petasecond"@[0] == 'p');
    assert("millimeter"@[0] == 'm' && "picosecond"@[0] == 'p');
    assert("millimeter"@[0] == 'm' && "terasecond"@[0] == 't');
    assert("nanometer"@[0] == 'n' && "petameter"@[0] == 'p');
    assert("nanometer"@[0] == 'n' && "picometer"@[0] == 'p');
    assert("nanometer"@[0] == 'n' && "terameter"@[0] == 't');
    assert("nanometer"@[0] == 'n' && "exasecond"@[0] == 'e');
    assert("parsec"@[0] == 'p' && "minute"@[0] == 'm');
    assert("parsec"@[0] == 'p' && "second"@[0] == 's');
    assert("petameter"@[1] == 'e' && "picometer"@[1] == 'i');
    assert("petameter"@[0] == 'p' && "terameter"@[0] == 't');
    assert("petameter"@[0] == 'p' && "exasecond"@[0] == 'e');
    assert("picometer"@[0] == 'p' && "terameter"@[0] == 't');
    assert("picometer"@[0] == 'p' && "exasecond"@[0] == 'e');
    assert("terameter"@[0] == 't' && "exasecond"@[0] == 'e');
    assert("yard"@[0] == 'y' && "hour"@[0] == 'h');
    assert("yoctometer"@[2] == 'c' && "yottameter"@[2] == 't');
    assert("yoctometer"@[0] == 'y' && "zeptometer"@[0] == 'z');
    assert("yoctometer"@[0] == 'y' && "zettameter"@[0] == 'z');
    assert("yoctometer"@[0] == 'y' && "attosecond"@[0] == 'a');
    assert("yoctometer"@[0] == 'y' && "decisecond"@[0] == 'd');
    assert("yoctometer"@[0] == 'y' && "gigasecond"@[0] == 'g');
    assert("yoctometer"@[0] == 'y' && "kilosecond"@[0] == 'k');
    assert("yoctometer"@[0] == 'y' && "megasecond"@[0] == 'm');
    assert("yoctometer"@[0] == 'y' && "nanosecond"@[0] == 'n');
    assert("yoctometer"@[0] == 'y' && "petasecond"@[0] == 'p');
    assert("yoctometer"@[0] == 'y' && "picosecond"@[0] == 'p');
    assert("yoctometer"@[0] == 'y' && "terasecond"@[0] == 't');
    assert("yottameter"@[0] == 'y' && "zeptometer"@[0] == 'z');
    assert("yottameter"@[0] == 'y' && "zettameter"@[0] == 'z');
    assert("yottameter"@[0] == 'y' && "attosecond"@[0] == 'a');
    assert("yottameter"@[0] == 'y' && "decisecond"@[0] == 'd');
    assert("yottameter"@[0] == 'y' && "gigasecond"@[0] == 'g');
    assert("yottameter"@[0] == 'y' && "kilosecond"@[0] == 'k');
    assert("yottameter"@[0] == 'y' && "megasecond"@[0] == 'm');
    assert("yottameter"@[0] == 'y' && "nanosecond"@[0] == 'n');
    assert("yottameter"@[0] == 'y' && "petasecond"@[0] == 'p');
    assert("yottameter"@[0] == 'y' && "picosecond"@[0] == 'p');
    assert("yottameter"@[0] == 'y' && "terasecond"@[0] == 't');
    assert("zeptometer"@[2] == 'p' && "zettameter"@[2] == 't');
    assert("zeptometer"@[0] == 'z' && "attosecond"@[0] == 'a');
    assert("zeptometer"@[0] == 'z' && "decisecond"@[0] == 'd');
    assert("zeptometer"@[0] == 'z' && "gigasecond"@[0] == 'g');
    assert("zeptometer"@[0] == 'z' && "kilosecond"@[0] == 'k');
    assert("zeptometer"@[0] == 'z' && "megasecond"@[0] == 'm');
    assert("zeptometer"@[0] == 'z' && "nanosecond"@[0] == 'n');
    assert("zeptometer"@[0] == 'z' && "petasecond"@[0] == 'p');
    assert("zeptometer"@[0] == 'z' && "picosecond"@[0] == 'p');
    assert("zeptometer"@[0] == 'z' && "terasecond"@[0] == 't');
    assert("zettameter"@[0] == 'z' && "attosecond"@[0] == 'a');
    assert("zettameter"@[0] == 'z' && "decisecond"@[0] == 'd');
    assert("zettameter"@[0] == 'z' && "gigasecond"@[0] == 'g');
    assert("zettameter"@[0] == 'z' && "kilosecond"@[0] == 'k');
    assert("zettameter"@[0] == 'z' && "megasecond"@[0] == 'm');
    assert("zettameter"@[0] == 'z' && "nanosecond"@[0] == 'n');
    assert("zettameter"@[0] == 'z' && "petasecond"@[0] == 'p');
    assert("zettameter"@[0] == 'z' && "picosecond"@[0] == 'p');
    assert("zettameter"@[0] == 'z' && "terasecond"@[0] == 't');
    assert("attosecond"@[0] == 'a' && "decisecond"@[0] == 'd');
    assert("attosecond"@[0] == 'a' && "gigasecond"@[0] == 'g');
    assert("attosecond"@[0] == 'a' && "kilosecond"@[0] == 'k');
    assert("attosecond"@[0] == 'a' && "megasecond"@[0] == 'm');
    assert("attosecond"@[0] == 'a' && "nanosecond"@[0] == 'n');
    assert("attosecond"@[0] == 'a' && "petasecond"@[0] == 'p');
    assert("attosecond"@[0] == 'a' && "picosecond"@[0] == 'p');
    assert("attosecond"@[0] == 'a' && "terasecond"@[0] == 't');
    assert("centisecond"@[0] == 'c' && "femtosecond"@[0] == 'f');
    assert("centisecond"@[0] == 'c' && "hectosecond"@[0] == 'h');
    assert("centisecond"@[0] == 'c' && "microsecond"@[0] == 'm');
    assert("centisecond"@[0] == 'c' && "millisecond"@[0] == 'm');
    assert("centisecond"@[0] == 'c' && "yoctosecond"@[0] == 'y');
    assert("centisecond"@[0] == 'c' && "yottasecond"@[0] == 'y');
    assert("centisecond"@[0] == 'c' && "zeptosecond"@[0] == 'z');
    assert("centisecond"@[0] == 'c' && "zettasecond"@[0] == 'z');
    assert("decisecond"@[0] == 'd' && "gigasecond"@[0] == 'g');
    assert("decisecond"@[0] == 'd' && "kilosecond"@[0] == 'k');
    assert("decisecond"@[0] == 'd' && "megasecond"@[0] == 'm');
    assert("decisecond"@[0] == 'd' && "nanosecond"@[0] == 'n');
    assert("decisecond"@[0] == 'd' && "petasecond"@[0] == 'p');
    assert("decisecond"@[0] == 'd' && "picosecond"@[0] == 'p');
    assert("decisecond"@[0] == 'd' && "terasecond"@[0] == 't');
    assert("femtosecond"@[0] == 'f' && "hectosecond"@[0] == 'h');
    assert("femtosecond"@[0] == 'f' && "microsecond"@[0] == 'm');
    assert("femtosecond"@[0] == 'f' && "millisecond"@[0] == 'm');
    assert("femtosecond"@[0] == 'f' && "yoctosecond"@[0] == 'y');
    assert("femtosecond"@[0] == 'f' && "yottasecond"@[0] == 'y');
    assert("femtosecond"@[0] == 'f' && "zeptosecond"@[0] == 'z');
    assert("femtosecond"@[0] == 'f' && "zettasecond"@[0] == 'z');
    assert("gigasecond"@[0] == 'g' && "kilosecond"@[0] == 'k');
    assert("gigasecond"@[0] == 'g' && "megasecond"@[0] == 'm');
    assert("gigasecond"@[0] == 'g' && "nanosecond"@[0] == 'n');
    assert("gigasecond"@[0] == 'g' && "petasecond"@[0] == 'p');
    assert("gigasecond"@[0] == 'g' && "picosecond"@[0] == 'p');
    assert("gigasecond"@[0] == 'g' && "terasecond"@[0] == 't');
    assert("hectosecond"@[0] == 'h' && "microsecond"@[0] == 'm');
    assert("hectosecond"@[0] == 'h' && "millisecond"@[0] == 'm');
    assert("hectosecond"@[0] == 'h' && "yoctosecond"@[0] == 'y');
    assert("hectosecond"@[0] == 'h' && "yottasecond"@[0] == 'y');
    assert("hectosecond"@[0] == 'h' && "zeptosecond"@[0] == 'z');
    assert("hectosecond"@[0] == 'h' && "zettasecond"@[0] == 'z');
    assert("kilosecond"@[0] == 'k' && "megasecond"@[0] == 'm');
    assert("kilosecond"@[0] == 'k' && "nanosecond"@[0] == 'n');
    assert("kilosecond"@[0] == 'k' && "petasecond"@[0] == 'p');
    assert("kilosecond"@[0] == 'k' && "picosecond"@[0] == 'p');
    assert("kilosecond"@[0] == 'k' && "terasecond"@[0] == 't');
    assert("megasecond"@[0] == 'm' && "nanosecond"@[0] == 'n');
    assert("megasecond"@[0] == 'm' && "petasecond"@[0] == 'p');
    assert("megasecond"@[0] == 'm' && "picosecond"@[0] == 'p');
    assert("megasecond"@[0] == 'm' && "terasecond"@[0] == 't');
    assert("microsecond"@[2] == 'c' && "millisecond"@[2] == 'l');
    assert("microsecond"@[0] == 'm' && "yoctosecond"@[0] == 'y');
    assert("microsecond"@[0] == 'm' && "yottasecond"@[0] == 'y');
    assert("microsecond"@[0] == 'm' && "zeptosecond"@[0] == 'z');
    assert("microsecond"@[0] == 'm' && "zettasecond"@[0] == 'z');
    assert("millisecond"@[0] == 'm' && "yoctosecond"@[0] == 'y');
    assert("millisecond"@[0] == 'm' && "yottasecond"@[0] == 'y');
    assert("millisecond"@[0] == 'm' && "zeptosecond"@[0] == 'z');
    assert("millisecond"@[0] == 'm' && "zettasecond"@[0] == 'z');
    assert("minute"@[0] == 'm' && "second"@[0] == 's');
    assert("nanosecond"@[0] == 'n' && "petasecond"@[0] == 'p');
    assert("nanosecond"@[0] == 'n' && "picosecond"@[0] == 'p');
    assert("nanosecond"@[0] == 'n' && "terasecond"@[0] == 't');
    assert("petasecond"@[1] == 'e' && "picosecond"@[1] == 'i');
    assert("petasecond"@[0] == 'p' && "terasecond"@[0] == 't');
    assert("picosecond"@[0] == 'p' && "terasecond"@[0] == 't');
    assert("yoctosecond"@[2] == 'c' && "yottasecond"@[2] == 't');
    assert("yoctosecond"@[0] == 'y' && "zeptosecond"@[0] == 'z');
    assert("yoctosecond"@[0] == 'y' && "zettasecond"@[0] == 'z');
    assert("yottasecond"@[0] == 'y' && "zeptosecond"@[0] == 'z');
    assert("yottasecond"@[0] == 'y' && "zettasecond"@[0] == 'z');
    assert("zeptosecond"@[2] == 'p' && "zettasecond"@[2] == 't');
    match u {
        AxisUnitTime::Attosecond => {
            assert(spec_time_unit("attosecond"@) == Some(AxisUnitTime::Attosecond));
        },
        AxisUnitTime::Centisecond => {
            assert(spec_time_unit("centisecond"@) == Some(AxisUnitTime::Centisecond));
        },
        AxisUnitTime::Day => {
            assert(spec_time_unit("day"@) == Some(AxisUnitTime::Day));
        },
        AxisUnitTime::Decisecond => {
            assert(spec_time_unit("decisecond"@) == Some(AxisUnitTime::Decisecond));
        },
        AxisUnitTime::Exasecond => {
            assert(spec_time_unit("exasecond"@) == Some(AxisUnitTime::Exasecond));
        },
        AxisUnitTime::Femtosecond => {
            assert(spec_time_unit("femtosecond"@) == Some(AxisUnitTime::Femtosecond));
        },
        AxisUnitTime::Gigasecond => {
            assert(spec_time_unit("gigasecond"@) == Some(AxisUnitTime::Gigasecond));
        },
        AxisUnitTime::Hectosecond => {
            assert(spec_time_unit("hectosecond"@) == Some(AxisUnitTime::Hectosecond));
        },
        AxisUnitTime::Hour => {
            assert(spec_time_unit("hour"@) == Some(AxisUnitTime::Hour));
        },
        AxisUnitTime::Kilosecond => {
            assert(spec_time_unit("kilosecond"@) == Some(AxisUnitTime::Kilosecond));
        },
        AxisUnitTime::Megasecond => {
            assert(spec_time_unit("megasecond"@) == Some(AxisUnitTime::Megasecond));
        },
        AxisUnitTime::Microsecond => {
            assert(spec_time_unit("microsecond"@) == Some(AxisUnitTime::Microsecond));
        },
        AxisUnitTime::Millisecond => {
            assert(spec_time_unit("millisecond"@) == Some(AxisUnitTime::Millisecond));
        },
        AxisUnitTime::Minute => {
            assert(spec_time_unit("minute"@) == Some(AxisUnitTime::Minute));
        },
        AxisUnitTime::Nanosecond => {
            assert(spec_time_unit("nanosecond"@) == Some(AxisUnitTime::Nanosecond));
        },
        AxisUnitTime::Petasecond => {
            assert(spec_time_unit("petasecond"@) == Some(AxisUnitTime::Petasecond));
        },
        AxisUnitTime::Picosecond => {
            assert(spec_time_unit("picosecond"@) == Some(AxisUnitTime::Picosecond));
        },
        AxisUnitTime::Second => {
            assert(spec_time_unit("second"@) == Some(AxisUnitTime::Second));
        },
        AxisUnitTime::Terasecond => {
            assert(spec_time_unit("terasecond"@) == Some(AxisUnitTime::Terasecond));
        },
        AxisUnitTime::Yoctosecond => {
            assert(spec_time_unit("yoctosecond"@) == Some(AxisUnitTime::Yoctosecond));
        },
        AxisUnitTime::Yottasecond => {
            assert(spec_time_unit("yottasecond"@) == Some(AxisUnitTime::Yottasecond));
        },
        AxisUnitTime::Zeptosecond => {
            assert(spec_time_unit("zeptosecond"@) == Some(AxisUnitTime::Zeptosecond));
        },
        AxisUnitTime::Zettasecond => {
            assert(spec_time_unit("zettasecond"@) == Some(AxisUnitTime::Zettasecond));
        },
    }
}

/// A time unit's name never names a space unit.
pub proof fn lemma_time_name_not_space(u: AxisUnitTime)
    ensures
        spec_space_unit(spec_time_unit_name(u)) is None,
{
    reveal_strlit("angstrom");
    reveal_strlit("attometer");
    reveal_strlit("centimeter");
    reveal_strlit("decimeter");
    reveal_strlit("exameter");
    reveal_strlit("femtometer");
    reveal_strlit("foot");
    reveal_strlit("gigameter");
    reveal_strlit("hectometer");
    reveal_strlit("inch");
    reveal_strlit("kilometer");
    reveal_strlit("megameter");
    reveal_strlit("meter");
    reveal_strlit("micrometer");
    reveal_strlit("mile");
    reveal_strlit("millimeter");
    reveal_strlit("nanometer");
    reveal_strlit("parsec");
    reveal_strlit("petameter");
    reveal_strlit("picometer");
    reveal_strlit("terameter");
    reveal_strlit("yard");
    reveal_strlit("yoctometer");
    reveal_strlit("yottameter");
    reveal_strlit("zeptometer");
    reveal_strlit("zettameter");
    reveal_strlit("attosecond");
    reveal_strlit("centisecond");
    reveal_strlit("day");
    reveal_strlit("decisecond");
    reveal_strlit("exasecond");
    reveal_strlit("femtosecond");
    reveal_strlit("gigasecond");
    reveal_strlit("hectosecond");
    reveal_strlit("hour");
    reveal_strlit("kilosecond");
    reveal_strlit("megasecond");
    reveal_strlit("microsecond");
    reveal_strlit("millisecond");
    reveal_strlit("minute");
    reveal_strlit("nanosecond");
    reveal_strlit("petasecond");
    reveal_strlit("picosecond");
    reveal_strlit("second");
    reveal_strlit("terasecond");
    reveal_strlit("yoctosecond");
    reveal_strlit("yottasecond");
    reveal_strlit("zeptosecond");
    reveal_strlit("zettasecond");
    assert("angstrom"@.len() == 8);
    assert("attometer"@.len() == 9);
    assert("centimeter"@.len() == 10);
    assert("decimeter"@.len() == 9);
    assert("exameter"@.len() == 8);
    assert("femtometer"@.len() == 10);
    assert("foot"@.len() == 4);
    assert("gigameter"@.len() == 9);
    assert("hectometer"@.len() == 10);
    assert("inch"@.len() == 4);
    assert("kilometer"@.len() == 9);
    assert("megameter"@.len() == 9);
    assert("meter"@.len() == 5);
    assert("micrometer"@.len() == 10);
    assert("mile"@.len() == 4);
    assert("millimeter"@.len() == 10);
    assert("nanometer"@.len() == 9);
    assert("parsec"@.len() == 6);
    assert("petameter"@.len() == 9);
    assert("picometer"@.len() == 9);
    assert("terameter"@.len() == 9);
    assert("yard"@.len() == 4);
    assert("yoctometer"@.len() == 10);
    assert("yottameter"@.len() == 10);
    assert("zeptometer"@.len() == 10);
    assert("zettameter"@.len() == 10);
    assert("attosecond"@.len() == 10);
    assert("centisecond"@.len() == 11);
    assert("day"@.len() == 3);
    assert("decisecond"@.len() == 10);
    assert("exasecond"@.len() == 9);
    assert("femtosecond"@.len() == 11);
    assert("gigasecond"@.len() == 10);
    assert("hectosecond"@.len() == 11);
    assert("hour"@.len() == 4);
    assert("kilosecond"@.len() == 10);
    assert("megasecond"@.len() == 10);
    assert("microsecond"@.len() == 11);
    assert("millisecond"@.len() == 11);
    assert("minute"@.len() == 6);
    assert("nanosecond"@.len() == 10);
    assert("petasecond"@.len() == 10);
    assert("picosecond"@.len() == 10);
    assert("second"@.len() == 6);
    assert("terasecond"@.len() == 10);
    assert("yoctosecond"@.len() == 11);
    assert("yottasecond"@.len() == 11);
    assert("zeptosecond"@.len() == 11);
    assert("zettasecond"@.len() == 11);
    assert("angstrom"@[0] == 'a' && "exameter"@[0] == 'e');
    assert("attometer"@[0] == 'a' && "decimeter"@[0] == 'd');
    assert("attometer"@[0] == 'a' && "gigameter"@[0] == 'g');
    assert("attometer"@[0] == 'a' && "kilometer"@[0] == 'k');
    assert("attometer"@[0] == 'a' && "megameter"@[0] == 'm');
    assert("attometer"@[0] == 'a' && "nanometer"@[0] == 'n');
    assert("attometer"@[0] == 'a' && "petameter"@[0] == 'p');
    assert("attometer"@[0] == 'a' && "picometer"@[0] == 'p');
    assert("attometer"@[0] == 'a' && "terameter"@[0] == 't');
    assert("attometer"@[0] == 'a' && "exasecond"@[0] == 'e');
    assert("centimeter"@[0] == 'c' && "femtometer"@[0] == 'f');
    assert("centimeter"@[0] == 'c' && "hectometer"@[0] == 'h');
    assert("centimeter"@[0] == 'c' && "micrometer"@[0] == 'm');
    assert("centimeter"@[0] == 'c' && "millimeter"@[0] == 'm');
    assert("centimeter"@[0] == 'c' && "yoctometer"@[0] == 'y');
    assert("centimeter"@[0] == 'c' && "yottameter"@[0] == 'y');
    assert("centimeter"@[0] == 'c' && "zeptometer"@[0] == 'z');
    assert("centimeter"@[0] == 'c' && "zettameter"@[0] == 'z');
    assert("centimeter"@[0] == 'c' && "attosecond"@[0] == 'a');
    assert("centimeter"@[0] == 'c' && "decisecond"@[0] == 'd');
    assert("centimeter"@[0] == 'c' && "gigasecond"@[0] == 'g');
    assert("centimeter"@[0] == 'c' && "kilosecond"@[0] == 'k');
    assert("centimeter"@[0] == 'c' && "megasecond"@[0] == 'm');
    assert("centimeter"@[0] == 'c' && "nanosecond"@[0] == 'n');
    assert("centimeter"@[0] == 'c' && "petasecond"@[0] == 'p');
    assert("centimeter"@[0] == 'c' && "picosecond"@[0] == 'p');
    assert("centimeter"@[0] == 'c' && "terasecond"@[0] == 't');
    assert("decimeter"@[0] == 'd' && "gigameter"@[0] == 'g');
    assert("decimeter"@[0] == 'd' && "kilometer"@[0] == 'k');
    assert("decimeter"@[0] == 'd' && "megameter"@[0] == 'm');
    assert("decimeter"@[0] == 'd' && "nanometer"@[0] == 'n');
    assert("decimeter"@[0] == 'd' && "petameter"@[0] == 'p');
    assert("decimeter"@[0] == 'd' && "picometer"@[0] == 'p');
    assert("decimeter"@[0] == 'd' && "terameter"@[0] == 't');
    assert("decimeter"@[0] == 'd' && "exasecond"@[0] == 'e');
    assert("femtometer"@[0] == 'f' && "hectometer"@[0] == 'h');
    assert("femtometer"@[0] == 'f' && "micrometer"@[0] == 'm');
    assert("femtometer"@[0] == 'f' && "millimeter"@[0] == 'm');
    assert("femtometer"@[0] == 'f' && "yoctometer"@[0] == 'y');
    assert("femtometer"@[0] == 'f' && "yottameter"@[0] == 'y');
    assert("femtometer"@[0] == 'f' && "zeptometer"@[0] == 'z');
    assert("femtometer"@[0] == 'f' && "zettameter"@[0] == 'z');
    assert("femtometer"@[0] == 'f' && "attosecond"@[0] == 'a');
    assert("femtometer"@[0] == 'f' && "decisecond"@[0] == 'd');
    assert("femtometer"@[0] == 'f' && "gigasecond"@[0] == 'g');
    assert("femtometer"@[0] == 'f' && "kilosecond"@[0] == 'k');
    assert("femtometer"@[0] == 'f' && "megasecond"@[0] == 'm');
    assert("femtometer"@[0] == 'f' && "nanosecond"@[0] == 'n');
    assert("femtometer"@[0] == 'f' && "petasecond"@[0] == 'p');
    assert("femtometer"@[0] == 'f' && "picosecond"@[0] == 'p');
    assert("femtometer"@[0] == 'f' && "terasecond"@[0] == 't');
    assert("foot"@[0] == 'f' && "inch"@[0] == 'i');
    assert("foot"@[0] == 'f' && "mile"@[0] == 'm');
    assert("foot"@[0] == 'f' && "yard"@[0] == 'y');
    assert("foot"@[0] == 'f' && "hour"@[0] == 'h');
    assert("gigameter"@[0] == 'g' && "kilometer"@[0] == 'k');
    assert("gigameter"@[0] == 'g' && "megameter"@[0] == 'm');
    assert("gigameter"@[0] == 'g' && "nanometer"@[0] == 'n');
    assert("gigameter"@[0] == 'g' && "petameter"@[0] == 'p');
    assert("gigameter"@[0] == 'g' && "picometer"@[0] == 'p');
    assert("gigameter"@[0] == 'g' && "terameter"@[0] == 't');
    assert("gigameter"@[0] == 'g' && "exasecond"@[0] == 'e');
    assert("hectometer"@[0] == 'h' && "micrometer"@[0] == 'm');
    assert("hectometer"@[0] == 'h' && "millimeter"@[0] == 'm');
    assert("hectometer"@[0] == 'h' && "yoctometer"@[0] == 'y');
    assert("hectometer"@[0] == 'h' && "yottameter"@[0] == 'y');
    assert("hectometer"@[0] == 'h' && "zeptometer"@[0] == 'z');
    assert("hectometer"@[0] == 'h' && "zettameter"@[0] == 'z');
    assert("hectometer"@[0] == 'h' && "attosecond"@[0] == 'a');
    assert("hectometer"@[0] == 'h' && "decisecond"@[0] == 'd');
    assert("hectometer"@[0] == 'h' && "gigasecond"@[0] == 'g');
    assert("hectometer"@[0] == 'h' && "kilosecond"@[0] == 'k');
    assert("hectometer"@[0] == 'h' && "megasecond"@[0] == 'm');
    assert("hectometer"@[0] == 'h' && "nanosecond"@[0] == 'n');
    assert("hectometer"@[0] == 'h' && "petasecond"@[0] == 'p');
    assert("hectometer"@[0] == 'h' && "picosecond"@[0] == 'p');
    assert("hectometer"@[0] == 'h' && "terasecond"@[0] == 't');
    assert("inch"@[0] == 'i' && "mile"@[0] == 'm');
    assert("inch"@[0] == 'i' && "yard"@[0] == 'y');
    assert("inch"@[0] == 'i' && "hour"@[0] == 'h');
    assert("kilometer"@[0] == 'k' && "megameter"@[0] == 'm');
    assert("kilometer"@[0] == 'k' && "nanometer"@[0] == 'n');
    assert("kilometer"@[0] == 'k' && "petameter"@[0] == 'p');
    assert("kilometer"@[0] == 'k' && "picometer"@[0] == 'p');
    assert("kilometer"@[0] == 'k' && "terameter"@[0] == 't');
    assert("kilometer"@[0] == 'k' && "exasecond"@[0] == 'e');
    assert("megameter"@[0] == 'm' && "nanometer"@[0] == 'n');
    assert("megameter"@[0] == 'm' && "petameter"@[0] == 'p');
    assert("megameter"@[0] == 'm' && "picometer"@[0] == 'p');
    assert("megameter"@[0] == 'm' && "terameter"@[0] == 't');
    assert("megameter"@[0] == 'm' && "exasecond"@[0] == 'e');
    assert("micrometer"@[2] == 'c' && "millimeter"@[2] == 'l');
    assert("micrometer"@[0] == 'm' && "yoctometer"@[0] == 'y');
    assert("micrometer"@[0] == 'm' && "yottameter"@[0] == 'y');
    assert("micrometer"@[0] == 'm' && "zeptometer"@[0] == 'z');
    assert("micrometer"@[0] == 'm' && "zettameter"@[0] == 'z');
    assert("micrometer"@[0] == 'm' && "attosecond"@[0] == 'a');
    assert("micrometer"@[0] == 'm' && "decisecond"@[0] == 'd');
    assert("micrometer"@[0] == 'm' && "gigasecond"@[0] == 'g');
    assert("micrometer"@[0] == 'm' && "kilosecond"@[0] == 'k');
    assert("micrometer"@[1] == 'i' && "megasecond"@[1] == 'e');
    assert("micrometer"@[0] == 'm' && "nanosecond"@[0] == 'n');
    assert("micrometer"@[0] == 'm' && "petasecond"@[0] == 'p');
    assert("micrometer"@[0] == 'm' && "picosecond"@[0] == 'p');
    assert("micrometer"@[0] == 'm' && "terasecond"@[0] == 't');
    assert("mile"@[0] == 'm' && "yard"@[0] == 'y');
    assert("mile"@[0] == 'm' && "hour"@[0] == 'h');
    assert("millimeter"@[0] == 'm' && "yoctometer"@[0] == 'y');
    assert("millimeter"@[0] == 'm' && "yottameter"@[0] == 'y');
    assert("millimeter"@[0] == 'm' && "zeptometer"@[0] == 'z');
    assert("millimeter"@[0] == 'm' && "zettameter"@[0] == 'z');
    assert("millimeter"@[0] == 'm' && "attosecond"@[0] == 'a');
    assert("millimeter"@[0] == 'm' && "decisecond"@[0] == 'd');
    assert("millimeter"@[0] == 'm' && "gigasecond"@[0] == 'g');
    assert("millimeter"@[0] == 'm' && "kilosecond"@[0] == 'k');
    assert("millimeter"@[1] == 'i' && "megasecond"@[1] == 'e');
    assert("millimeter"@[0] == 'm' && "nanosecond"@[0] == 'n');
    assert("millimeter"@[0] == 'm' && "petasecond"@[0] == 'p');
    assert("millimeter"@[0] == 'm' && "picosecond"@[0] == 'p');
    assert("millimeter"@[0] == 'm' && "terasecond"@[0] == 't');
    assert("nanometer"@[0] == 'n' && "petameter"@[0] == 'p');
    assert("nanometer"@[0] == 'n' && "picometer"@[0] == 'p');
    assert("nanometer"@[0] == 'n' && "terameter"@[0] == 't');
    assert("nanometer"@[0] == 'n' && "exasecond"@[0] == 'e');
    assert("parsec"@[0] == 'p' && "minute"@[0] == 'm');
    assert("parsec"@[0] == 'p' && "second"@[0] == 's');
    assert("petameter"@[1] == 'e' && "picometer"@[1] == 'i');
    assert("petameter"@[0] == 'p' && "terameter"@[0] == 't');
    assert("petameter"@[0] == 'p' && "exasecond"@[0] == 'e');
    assert("picometer"@[0] == 'p' && "terameter"@[0] == 't');
    assert("picometer"@[0] == 'p' && "exasecond"@[0] == 'e');
    assert("terameter"@[0] == 't' && "exasecond"@[0] == 'e');
    assert("yard"@[0] == 'y' && "hour"@[0] == 'h');
    assert("yoctometer"@[2] == 'c' && "yottameter"@[2] == 't');
    assert("yoctometer"@[0] == 'y' && "zeptometer"@[0] == 'z');
    assert("yoctometer"@[0] == 'y' && "zettameter"@[0] == 'z');
    assert("yoctometer"@[0] == 'y' && "attosecond"@[0] == 'a');
    assert("yoctometer"@[0] == 'y' && "decisecond"@[0] == 'd');
    assert("yoctometer"@[0] == 'y' && "gigasecond"@[0] == 'g');
    assert("yoctometer"@[0] == 'y' && "kilosecond"@[0] == 'k');
    assert("yoctometer"@[0] == 'y' && "megasecond"@[0] == 'm');
    assert("yoctometer"@[0] == 'y' && "nanosecond"@[0] == 'n');
    assert("yoctometer"@[0] == 'y' && "petasecond"@[0] == 'p');
    assert("yoctometer"@[0] == 'y' && "picosecond"@[0] == 'p');
    assert("yoctometer"@[0] == 'y' && "terasecond"@[0] == 't');
    assert("yottameter"@[0] == 'y' && "zeptometer"@[0] == 'z');
    assert("yottameter"@[0] == 'y' && "zettameter"@[0] == 'z');
    assert("yottameter"@[0] == 'y' && "attosecond"@[0] == 'a');
    assert("yottameter"@[0] == 'y' && "decisecond"@[0] == 'd');
    assert("yottameter"@[0] == 'y' && "gigasecond"@[0] == 'g');
    assert("yottameter"@[0] == 'y' && "kilosecond"@[0] == 'k');
    assert("yottameter"@[0] == 'y' && "megasecond"@[0] == 'm');
    assert("yottameter"@[0] == 'y' && "nanosecond"@[0] == 'n');
    assert("yottameter"@[0] == 'y' && "petasecond"@[0] == 'p');
    assert("yottameter"@[0] == 'y' && "picosecond"@[0] == 'p');
    assert("yottameter"@[0] == 'y' && "terasecond"@[0] == 't');
    assert("zeptometer"@[2] == 'p' && "zettameter"@[2] == 't');
    assert("zeptometer"@[0] == 'z' && "attosecond"@[0] == 'a');
    assert("zeptometer"@[0] == 'z' && "decisecond"@[0] == 'd');
    assert("zeptometer"@[0] == 'z' && "gigasecond"@[0] == 'g');
    assert("zeptometer"@[0] == 'z' && "kilosecond"@[0] == 'k');
    assert("zeptometer"@[0] == 'z' && "megasecond"@[0] == 'm');
    assert("zeptometer"@[0] == 'z' && "nanosecond"@[0] == 'n');
    assert("zeptometer"@[0] == 'z' && "petasecond"@[0] == 'p');
    assert("zeptometer"@[0] == 'z' && "picosecond"@[0] == 'p');
    assert("zeptometer"@[0] == 'z' && "terasecond"@[0] == 't');
    assert("zettameter"@[0] == 'z' && "attosecond"@[0] == 'a');
    assert("zettameter"@[0] == 'z' && "decisecond"@[0] == 'd');
    assert("zettameter"@[0] == 'z' && "gigasecond"@[0] == 'g');
    assert("zettameter"@[0] == 'z' && "kilosecond"@[0] == 'k');
    assert("zettameter"@[0] == 'z' && "megasecond"@[0] == 'm');
    assert("zettameter"@[0] == 'z' && "nanosecond"@[0] == 'n');
    assert("zettameter"@[0] == 'z' && "petasecond"@[0] == 'p');
    assert("zettameter"@[0] == 'z' && "picosecond"@[0] == 'p');
    assert("zettameter"@[0] == 'z' && "terasecond"@[0] == 't');
    assert("attosecond"@[0] == 'a' && "decisecond"@[0] == 'd');
    assert("attosecond"@[0] == 'a' && "gigasecond"@[0] == 'g');
    assert("attosecond"@[0] == 'a' && "kilosecond"@[0] == 'k');
    assert("attosecond"@[0] == 'a' && "megasecond"@[0] == 'm');
    assert("attosecond"@[0] == 'a' && "nanosecond"@[0] == 'n');
    assert("attosecond"@[0] == 'a' && "petasecond"@[0] == 'p');
    assert("attosecond"@[0] == 'a' && "picosecond"@[0] == 'p');
    assert("attosecond"@[0] == 'a' && "terasecond"@[0] == 't');
    assert("centisecond"@[0] == 'c' && "femtosecond"@[0] == 'f');
    assert("centisecond"@[0] == 'c' && "hectosecond"@[0] == 'h');
    assert("centisecond"@[0] == 'c' && "microsecond"@[0] == 'm');
    assert("centisecond"@[0] == 'c' && "millisecond"@[0] == 'm');
    assert("centisecond"@[0] == 'c' && "yoctosecond"@[0] == 'y');
    assert("centisecond"@[0] == 'c' && "yottasecond"@[0] == 'y');
    assert("centisecond"@[0] == 'c' && "zeptosecond"@[0] == 'z');
    assert("centisecond"@[0] == 'c' && "zettasecond"@[0] == 'z');
    assert("decisecond"@[0] == 'd' && "gigasecond"@[0] == 'g');
    assert("decisecond"@[0] == 'd' && "kilosecond"@[0] == 'k');
    assert("decisecond"@[0] == 'd' && "megasecond"@[0] == 'm');
    assert("decisecond"@[0] == 'd' && "nanosecond"@[0] == 'n');
    assert("decisecond"@[0] == 'd' && "petasecond"@[0] == 'p');
    assert("decisecond"@[0] == 'd' && "picosecond"@[0] == 'p');
    assert("decisecond"@[0] == 'd' && "terasecond"@[0] == 't');
    assert("femtosecond"@[0] == 'f' && "hectosecond"@[0] == 'h');
    assert("femtosecond"@[0] == 'f' && "microsecond"@[0] == 'm');
    assert("femtosecond"@[0] == 'f' && "millisecond"@[0] == 'm');
    assert("femtosecond"@[0] == 'f' && "yoctosecond"@[0] == 'y');
    assert("femtosecond"@[0] == 'f' && "yottasecond"@[0] == 'y');
    assert("femtosecond"@[0] == 'f' && "zeptosecond"@[0] == 'z');
    assert("femtosecond"@[0] == 'f' && "zettasecond"@[0] == 'z');
    assert("gigasecond"@[0] == 'g' && "kilosecond"@[0] == 'k');
    assert("gigasecond"@[0] == 'g' && "megasecond"@[0] == 'm');
    assert("gigasecond"@[0] == 'g' && "nanosecond"@[0] == 'n');
    assert("gigasecond"@[0] == 'g' && "petasecond"@[0] == 'p');
    assert("gigasecond"@[0] == 'g' && "picosecond"@[0] == 'p');
    assert("gigasecond"@[0] == 'g' && "terasecond"@[0] == 't');
    assert("hectosecond"@[0] == 'h' && "microsecond"@[0] == 'm');
    assert("hectosecond"@[0] == 'h' && "millisecond"@[0] == 'm');
    assert("hectosecond"@[0] == 'h' && "yoctosecond"@[0] == 'y');
    assert("hectosecond"@[0] == 'h' && "yottasecond"@[0] == 'y');
    assert("hectosecond"@[0] == 'h' && "zeptosecond"@[0] == 'z');
    assert("hectosecond"@[0] == 'h' && "zettasecond"@[0] == 'z');
    assert("kilosecond"@[0] == 'k' && "megasecond"@[0] == 'm');
    assert("kilosecond"@[0] == 'k' && "nanosecond"@[0] == 'n');
    assert("kilosecond"@[0] == 'k' && "petasecond"@[0] == 'p');
    assert("kilosecond"@[0] == 'k' && "picosecond"@[0] == 'p');
    assert("kilosecond"@[0] == 'k' && "terasecond"@[0] == 't');
    assert("megasecond"@[0] == 'm' && "nanosecond"@[0] == 'n');
    assert("megasecond"@[0] == 'm' && "petasecond"@[0] == 'p');
    assert("megasecond"@[0] == 'm' && "picosecond"@[0] == 'p');
    assert("megasecond"@[0] == 'm' && "terasecond"@[0] == 't');
    assert("microsecond"@[2] == 'c' && "millisecond"@[2] == 'l');
    assert("microsecond"@[0] == 'm' && "yoctosecond"@[0] == 'y');
    assert("microsecond"@[0] == 'm' && "yottasecond"@[0] == 'y');
    assert("microsecond"@[0] == 'm' && "zeptosecond"@[0] == 'z');
    assert("microsecond"@[0] == 'm' && "zettasecond"@[0] == 'z');
    assert("millisecond"@[0] == 'm' && "yoctosecond"@[0] == 'y');
    assert("millisecond"@[0] == 'm' && "yottasecond"@[0] == 'y');
    assert("millisecond"@[0] == 'm' && "zeptosecond"@[0] == 'z');
    assert("millisecond"@[0] == 'm' && "zettasecond"@[0] == 'z');
    assert("minute"@[0] == 'm' && "second"@[0] == 's');
    assert("nanosecond"@[0] == 'n' && "petasecond"@[0] == 'p');
    assert("nanosecond"@[0] == 'n' && "picosecond"@[0] == 'p');
    assert("nanosecond"@[0] == 'n' && "terasecond"@[0] == 't');
    assert("petasecond"@[1] == 'e' && "picosecond"@[1] == 'i');
    assert("petasecond"@[0] == 'p' && "terasecond"@[0] == 't');
    assert("picosecond"@[0] == 'p' && "terasecond"@[0] == 't');
    assert("yoctosecond"@[2] == 'c' && "yottasecond"@[2] == 't');
    assert("yoctosecond"@[0] == 'y' && "zeptosecond"@[0] == 'z');
    assert("yoctosecond"@[0] == 'y' && "zettasecond"@[0] == 'z');
    assert("yottasecond"@[0] == 'y' && "zeptosecond"@[0] == 'z');
    assert("yottasecond"@[0] == 'y' && "zettasecond"@[0] == 'z');
    assert("zeptosecond"@[2] == 'p' && "zettasecond"@[2] == 't');
    match u {
        AxisUnitTime::Attosecond => {
            assert(spec_space_unit("attosecond"@) is None);
        },
        AxisUnitTime::Centisecond => {
            assert(spec_space_unit("centisecond"@) is None);
        },
        AxisUnitTime::Day => {
            assert(spec_space_unit("day"@) is None);
        },
        AxisUnitTime::Decisecond => {
            assert(spec_space_unit("decisecond"@) is None);
        },
        AxisUnitTime::Exasecond => {
            assert(spec_space_unit("exasecond"@) is None);
        },
        AxisUnitTime::Femtosecond => {
            assert(spec_space_unit("femtosecond"@) is None);
        },
        AxisUnitTime::Gigasecond => {
            assert(spec_space_unit("gigasecond"@) is None);
        },
        AxisUnitTime::Hectosecond => {
            assert(spec_space_unit("hectosecond"@) is None);
        },
        AxisUnitTime::Hour => {
            assert(spec_space_unit("hour"@) is None);
        },
        AxisUnitTime::Kilosecond => {
            assert(spec_space_unit("kilosecond"@) is None);
        },
        AxisUnitTime::Megasecond => {
            assert(spec_space_unit("megasecond"@) is None);
        },
        AxisUnitTime::Microsecond => {
            assert(spec_space_unit("microsecond"@) is None);
        },
        AxisUnitTime::Millisecond => {
            assert(spec_space_unit("millisecond"@) is None);
        },
        AxisUnitTime::Minute => {
            assert(spec_space_unit("minute"@) is None);
        },
        AxisUnitTime::Nanosecond => {
            assert(spec_space_unit("nanosecond"@) is None);
        },
        AxisUnitTime::Petasecond => {
            assert(spec_space_unit("petasecond"@) is None);
        },
        AxisUnitTime::Picosecond => {
            assert(spec_space_unit("picosecond"@) is None);
        },
        AxisUnitTime::Second => {
            assert(spec_space_unit("second"@) is None);
        },
        AxisUnitTime::Terasecond => {
            assert(spec_space_unit("terasecond"@) is None);
        },
        AxisUnitTime::Yoctosecond => {
            assert(spec_space_unit("yoctosecond"@) is None);
        },
        AxisUnitTime::Yottasecond => {
            assert(spec_space_unit("yottasecond"@) is None);
        },
        AxisUnitTime::Zeptosecond => {
            assert(spec_space_unit("zeptosecond"@) is None);
        },
        AxisUnitTime::Zettasecond => {
            assert(spec_space_unit("zettasecond"@) is None);
        },
    }
}

} // verus!
