//! "axes" metadata: the dimensions of an image's coordinate space.

use vstd::prelude::*;

use crate::validation::{
    Accumulator, Problem, Segment, SpecFailure, Validate, seq_failures, with_prefix,
};

verus! {

/// One dimension (axis) of a physical coordinate space.
#[derive(Debug, Clone)]
pub struct Axis {
    /// The name for this dimension.
    pub name: String,
    /// The optional type of this dimension.
    pub axis_type: Option<AxisType>,
    /// The optional physical unit of this dimension.
    pub unit: Option<AxisUnit>,
}

/// The type of an axis.
#[derive(Debug, Clone)]
pub enum AxisType {
    /// The `space` axis type.
    Space,
    /// The `time` axis type.
    Time,
    /// The `channel` axis type.
    Channel,
    /// A custom axis type.
    Custom(String),
}

/// The unit of an axis.
#[derive(Debug, Clone)]
pub enum AxisUnit {
    /// A recognised `space` axis unit.
    Space(AxisUnitSpace),
    /// A recognised `time` axis unit.
    Time(AxisUnitTime),
    /// A custom axis unit.
    Custom(String),
}

/// Physical `space` units valid according to UDUNITS-2.
#[allow(missing_docs)]
#[derive(Debug, Clone, Copy, PartialEq, Eq, Structural)]
pub enum AxisUnitSpace {
    Angstrom,
    Attometer,
    Centimeter,
    Decimeter,
    Exameter,
    Femtometer,
    Foot,
    Gigameter,
    Hectometer,
    Inch,
    Kilometer,
    Megameter,
    Meter,
    Micrometer,
    Mile,
    Millimeter,
    Nanometer,
    Parsec,
    Petameter,
    Picometer,
    Terameter,
    Yard,
    Yoctometer,
    Yottameter,
    Zeptometer,
    Zettameter,
}

/// Physical `time` units valid according to UDUNITS-2.
#[allow(missing_docs)]
#[derive(Debug, Clone, Copy, PartialEq, Eq, Structural)]
pub enum AxisUnitTime {
    Attosecond,
    Centisecond,
    Day,
    Decisecond,
    Exasecond,
    Femtosecond,
    Gigasecond,
    Hectosecond,
    Hour,
    Kilosecond,
    Megasecond,
    Microsecond,
    Millisecond,
    Minute,
    Nanosecond,
    Petasecond,
    Picosecond,
    Second,
    Terasecond,
    Yoctosecond,
    Yottasecond,
    Zeptosecond,
    Zettasecond,
}

/// The failures of one axis: a recognised space or time unit demands the
/// matching axis type, whenever a type is declared at all.
pub open spec fn axis_failures(a: Axis) -> Seq<SpecFailure> {
    match (a.axis_type, a.unit) {
        (Some(t), Some(AxisUnit::Space(_))) => if !(t is Space) {
            seq![SpecFailure { path: seq![], problem: Problem::SpaceUnitForNonSpaceAxis }]
        } else {
            seq![]
        },
        (Some(t), Some(AxisUnit::Time(_))) => if !(t is Time) {
            seq![SpecFailure { path: seq![], problem: Problem::TimeUnitForNonTimeAxis }]
        } else {
            seq![]
        },
        _ => seq![],
    }
}

impl Validate for Axis {
    open spec fn spec_failures(&self) -> Seq<SpecFailure> {
        axis_failures(*self)
    }

    fn validate_inner(&self, accum: &mut Accumulator) {
        let ghost before = accum.fails();
        match (&self.axis_type, &self.unit) {
            (Some(t), Some(AxisUnit::Space(_))) => {
                if !matches!(t, AxisType::Space) {
                    accum.add_failure(Problem::SpaceUnitForNonSpaceAxis);
                }
            },
            (Some(t), Some(AxisUnit::Time(_))) => {
                if !matches!(t, AxisType::Time) {
                    accum.add_failure(Problem::TimeUnitForNonTimeAxis);
                }
            },
            _ => {},
        }
        proof {
            assert(accum.fails() =~= before + with_prefix(
                old(accum).prefix@,
                self.spec_failures(),
            ));
        }
    }
}

/// Whether the axis is declared as a time axis.
pub open spec fn is_time(a: Axis) -> bool {
    a.axis_type == Some(AxisType::Time)
}

/// Whether the axis is declared as a space axis.
pub open spec fn is_space(a: Axis) -> bool {
    a.axis_type == Some(AxisType::Space)
}

/// Whether the axis is a channel, custom, or untyped axis.
pub open spec fn is_channelish(a: Axis) -> bool {
    !is_time(a) && !is_space(a)
}

/// How many of the first `i` axes are space axes.
pub open spec fn space_count(axes: Seq<Axis>, i: int) -> int
    decreases i,
{
    if i <= 0 {
        0
    } else {
        space_count(axes, i - 1) + if is_space(axes[i - 1]) {
            1int
        } else {
            0int
        }
    }
}

/// Whether an earlier axis already carries the name of axis `i`.
pub open spec fn name_seen_before(axes: Seq<Axis>, i: int) -> bool {
    exists|j: int| 0 <= j < i && axes[j].name@ == axes[i].name@
}

/// The duplicate-name failures among the first `i` axes, in order.
pub open spec fn dup_name_failures(axes: Seq<Axis>, i: int) -> Seq<SpecFailure>
    decreases i,
{
    if i <= 0 {
        seq![]
    } else {
        dup_name_failures(axes, i - 1) + if name_seen_before(axes, i - 1) {
            seq![
                SpecFailure {
                    path: seq![Segment::Index((i - 1) as usize)],
                    problem: Problem::DuplicateAxisName(axes[i - 1].name),
                },
            ]
        } else {
            seq![]
        }
    }
}

/// The ordering failure that axis `i` triggers, if any.
///
/// Reading axes in order, a time axis may stand only first; a channel,
/// custom or untyped axis may stand only before every non-time axis; and at
/// most three space axes are allowed.
pub open spec fn zone_failure_at(axes: Seq<Axis>, i: int) -> Seq<SpecFailure> {
    if is_space(axes[i]) {
        if space_count(axes, i + 1) > 3 {
            seq![
                SpecFailure {
                    path: seq![Segment::Index(i as usize)],
                    problem: Problem::TooManySpaceAxes(space_count(axes, i + 1) as usize),
                },
            ]
        } else {
            seq![]
        }
    } else if is_time(axes[i]) {
        if i > 0 {
            seq![
                SpecFailure {
                    path: seq![Segment::Index(i as usize)],
                    problem: Problem::UnexpectedTimeAxis,
                },
            ]
        } else {
            seq![]
        }
    } else {
        if exists|j: int| 0 <= j < i && !is_time(axes[j]) {
            seq![
                SpecFailure {
                    path: seq![Segment::Index(i as usize)],
                    problem: Problem::UnexpectedChannelAxis,
                },
            ]
        } else {
            seq![]
        }
    }
}

/// The ordering failures among the first `i` axes, in order.
pub open spec fn zone_failures(axes: Seq<Axis>, i: int) -> Seq<SpecFailure>
    decreases i,
{
    if i <= 0 {
        seq![]
    } else {
        zone_failures(axes, i - 1) + zone_failure_at(axes, i - 1)
    }
}

/// The failure for an axis count outside 2 to 5, if any.
pub open spec fn count_failures(axes: Seq<Axis>) -> Seq<SpecFailure> {
    if axes.len() < 2 || axes.len() > 5 {
        seq![
            SpecFailure { path: seq![], problem: Problem::WrongAxisCount(axes.len() as usize) },
        ]
    } else {
        seq![]
    }
}

/// The failure for fewer than two space axes, if any.
pub open spec fn trailing_space_failures(axes: Seq<Axis>) -> Seq<SpecFailure> {
    if space_count(axes, axes.len() as int) < 2 {
        seq![
            SpecFailure {
                path: seq![],
                problem: Problem::TooFewSpaceAxes(
                    space_count(axes, axes.len() as int) as usize,
                ),
            },
        ]
    } else {
        seq![]
    }
}

/// Every failure the strict axis policy finds in `axes`, beyond the
/// per-axis unit checks: duplicate names, the overall count, the ordering
/// of types, and the number of space axes.
pub open spec fn axes_policy_failures(axes: Seq<Axis>) -> Seq<SpecFailure> {
    dup_name_failures(axes, axes.len() as int) + count_failures(axes) + zone_failures(
        axes,
        axes.len() as int,
    ) + trailing_space_failures(axes)
}

/// Whether no two axes share a name.
pub open spec fn unique_names(axes: Seq<Axis>) -> bool {
    forall|i: int, j: int| 0 <= i < j < axes.len() ==> axes[i].name@ != axes[j].name@
}

/// Whether the axes split at `t` and `c`: `t` leading time axes, then `c`
/// channel/custom/untyped axes, then only space axes, with `t` and `c`
/// each zero or one.
pub open spec fn zone_split(axes: Seq<Axis>, t: int, c: int) -> bool {
    &&& 0 <= t <= 1
    &&& 0 <= c <= 1
    &&& t + c <= axes.len()
    &&& (forall|i: int| 0 <= i < t ==> is_time(#[trigger] axes[i]))
    &&& (forall|i: int| t <= i < t + c ==> is_channelish(#[trigger] axes[i]))
    &&& (forall|i: int| t + c <= i < axes.len() ==> is_space(#[trigger] axes[i]))
}

/// Whether the axes split into the zones the policy demands: `t` leading
/// time axes, then `c` channel/custom/untyped axes, then two or three space
/// axes, with `t` and `c` each zero or one.
pub open spec fn zones(axes: Seq<Axis>, t: int, c: int) -> bool {
    &&& zone_split(axes, t, c)
    &&& 2 <= axes.len() - (t + c) <= 3
}

/// The axis order rule, stated declaratively: unique names, and the list
/// splits into the time / channel / space zones.
pub open spec fn axes_conform(axes: Seq<Axis>) -> bool {
    &&& unique_names(axes)
    &&& exists|t: int, c: int| zones(axes, t, c)
}

proof fn lemma_dup_failures_empty(axes: Seq<Axis>, n: int)
    requires
        0 <= n <= axes.len(),
    ensures
        dup_name_failures(axes, n).len() == 0 <==> (forall|i: int|
            0 <= i < n ==> !name_seen_before(axes, i)),
    decreases n,
{
    if n > 0 {
        lemma_dup_failures_empty(axes, n - 1);
    }
}

proof fn lemma_zone_failures_empty(axes: Seq<Axis>, n: int)
    requires
        0 <= n <= axes.len(),
    ensures
        zone_failures(axes, n).len() == 0 <==> (forall|i: int|
            0 <= i < n ==> zone_failure_at(axes, i).len() == 0),
    decreases n,
{
    if n > 0 {
        lemma_zone_failures_empty(axes, n - 1);
    }
}

/// Under a zone split, the space axes are exactly the trailing ones.
proof fn lemma_space_count_zones(axes: Seq<Axis>, t: int, c: int, n: int)
    requires
        zone_split(axes, t, c),
        0 <= n <= axes.len(),
    ensures
        space_count(axes, n) == if n <= t + c {
            0int
        } else {
            n - (t + c)
        },
    decreases n,
{
    if n > 0 {
        lemma_space_count_zones(axes, t, c, n - 1);
    }
}

proof fn lemma_space_count_monotone(axes: Seq<Axis>, m: int, n: int)
    requires
        0 <= m <= n,
    ensures
        space_count(axes, m) <= space_count(axes, n),
        space_count(axes, n) - space_count(axes, m) <= n - m,
    decreases n - m,
{
    if m < n {
        lemma_space_count_monotone(axes, m, n - 1);
    }
}

/// If no prefix ever holds more than three space axes, neither does the
/// whole list; stated through the absence of ordering failures.
proof fn lemma_space_count_bound(axes: Seq<Axis>, n: int)
    requires
        0 <= n <= axes.len(),
        forall|i: int| 0 <= i < n ==> #[trigger] zone_failure_at(axes, i).len() == 0,
    ensures
        space_count(axes, n) <= 3,
    decreases n,
{
    if n > 0 {
        lemma_space_count_bound(axes, n - 1);
        if is_space(axes[n - 1]) {
            assert(zone_failure_at(axes, n - 1).len() == 0);
        }
    }
}

/// The axis policy accepts a list exactly when the order rule holds: the
/// policy failures are empty if and only if the names are unique and the
/// axes split into the time / channel / space zones.
pub proof fn lemma_axes_policy_conform(axes: Seq<Axis>)
    ensures
        axes_policy_failures(axes).len() == 0 <==> axes_conform(axes),
{
    let n = axes.len() as int;
    lemma_dup_failures_empty(axes, n);
    lemma_zone_failures_empty(axes, n);
    if axes_policy_failures(axes).len() == 0 {
        assert(dup_name_failures(axes, n).len() == 0);
        assert(count_failures(axes).len() == 0);
        assert(zone_failures(axes, n).len() == 0);
        assert(trailing_space_failures(axes).len() == 0);
        assert forall|i: int, j: int| 0 <= i < j < axes.len() implies axes[i].name@
            != axes[j].name@ by {
            assert(!name_seen_before(axes, j));
        }
        // Build the zone split from the absence of ordering failures.
        assert(n >= 2);
        let t: int = if is_time(axes[0]) {
            1
        } else {
            0
        };
        let c: int = if t < n && is_channelish(axes[t]) {
            1
        } else {
            0
        };
        assert forall|i: int| t + c <= i < n implies is_space(#[trigger] axes[i]) by {
            assert(zone_failure_at(axes, i).len() == 0);
            if is_time(axes[i]) {
                assert(i > 0);
                assert(false);
            } else if is_channelish(axes[i]) {
                if i == 0 {
                    assert(c == 1);
                    assert(false);
                } else if i == 1 && t == 1 {
                    assert(c == 1);
                    assert(false);
                } else {
                    // some earlier axis is not a time axis
                    if t == 0 {
                        assert(!is_time(axes[0]));
                    } else if c == 1 {
                        assert(!is_time(axes[t]));
                        assert(0 <= t < i);
                    } else {
                        // t == 1, c == 0, i >= 2: axes[1] is not time
                        assert(zone_failure_at(axes, 1).len() == 0);
                        assert(!is_time(axes[1]));
                    }
                    assert(exists|j: int| 0 <= j < i && !is_time(axes[j]));
                    assert(false);
                }
            }
        }
        lemma_space_count_zones(axes, t, c, n);
        assert(space_count(axes, n) >= 2);
        assert forall|i: int| 0 <= i < n implies #[trigger] zone_failure_at(axes, i).len()
            == 0 by {
            assert(zone_failures(axes, n).len() == 0);
        }
        lemma_space_count_bound(axes, n);
        assert(zones(axes, t, c));
    }
    if axes_conform(axes) {
        let (t, c) = choose|t: int, c: int| zones(axes, t, c);
        lemma_space_count_zones(axes, t, c, n);
        assert(dup_name_failures(axes, n).len() == 0) by {
            assert forall|i: int| 0 <= i < n implies !name_seen_before(axes, i) by {
                assert forall|j: int| 0 <= j < i implies axes[j].name@ != axes[i].name@ by {}
            }
        }
        assert(count_failures(axes).len() == 0);
        assert(trailing_space_failures(axes).len() == 0);
        assert forall|i: int| 0 <= i < n implies #[trigger] zone_failure_at(axes, i).len()
            == 0 by {
            if is_space(axes[i]) {
                assert(t + c <= i) by {
                    if i < t {
                        assert(is_time(axes[i]));
                    } else if i < t + c {
                        assert(is_channelish(axes[i]));
                    }
                }
                lemma_space_count_zones(axes, t, c, i + 1);
            } else if is_time(axes[i]) {
                assert(i < t) by {
                    if t <= i < t + c {
                        assert(is_channelish(axes[i]));
                    } else if t + c <= i {
                        assert(is_space(axes[i]));
                    }
                }
                assert(i == 0);
            } else {
                assert(t <= i < t + c) by {
                    if i < t {
                        assert(is_time(axes[i]));
                    } else if t + c <= i {
                        assert(is_space(axes[i]));
                    }
                }
                assert forall|j: int| 0 <= j < i implies is_time(axes[j]) by {
                    assert(j < t);
                }
            }
        }
        assert(zone_failures(axes, n).len() == 0);
    }
}

/// Law: an axes list that obeys the order rule, and whose axes each pass
/// their own unit check, passes the whole strict axis check.
pub proof fn lemma_conforming_axes_validate(axes: Seq<Axis>)
    requires
        axes_conform(axes),
        forall|i: int| 0 <= i < axes.len() ==> axis_failures(#[trigger] axes[i]).len() == 0,
    ensures
        (seq_failures(axes) + axes_policy_failures(axes)).len() == 0,
{
    lemma_axes_policy_conform(axes);
    assert forall|i: int| 0 <= i < axes.len() implies (#[trigger] axes[i]).spec_failures().len()
        == 0 by {
        assert(axis_failures(axes[i]).len() == 0);
    }
    crate::validation::lemma_seq_failures_all_empty(axes);
}

/// Under a single ordering violation, the ordering failures reduce to
/// that one axis's failure.
proof fn lemma_zone_failures_single(axes: Seq<Axis>, i: int, n: int)
    requires
        0 <= i < axes.len(),
        0 <= n <= axes.len(),
        forall|j: int|
            0 <= j < axes.len() && j != i ==> #[trigger] zone_failure_at(axes, j).len() == 0,
    ensures
        zone_failures(axes, n) == if i < n {
            zone_failure_at(axes, i)
        } else {
            Seq::<SpecFailure>::empty()
        },
    decreases n,
{
    if n > 0 {
        lemma_zone_failures_single(axes, i, n - 1);
        if n - 1 == i {
            assert(zone_failures(axes, n) =~= zone_failure_at(axes, i));
        } else {
            assert(zone_failure_at(axes, n - 1).len() == 0);
            assert(zone_failure_at(axes, n - 1) =~= Seq::<SpecFailure>::empty());
            if i < n - 1 {
                assert(zone_failures(axes, n) =~= zone_failure_at(axes, i));
            } else {
                assert(zone_failures(axes, n) =~= Seq::<SpecFailure>::empty());
            }
        }
    }
}

/// Law: an axes list of the right size and space totals, with unique
/// names, whose ordering is broken at exactly one axis, is reported with
/// exactly one failure, at that axis's index, naming the broken ordering
/// rule.
pub proof fn lemma_single_order_violation(axes: Seq<Axis>, i: int)
    requires
        unique_names(axes),
        2 <= axes.len() <= 5,
        space_count(axes, axes.len() as int) >= 2,
        0 <= i < axes.len(),
        zone_failure_at(axes, i).len() == 1,
        forall|j: int|
            0 <= j < axes.len() && j != i ==> #[trigger] zone_failure_at(axes, j).len() == 0,
    ensures
        axes_policy_failures(axes).len() == 1,
        axes_policy_failures(axes)[0] == zone_failure_at(axes, i)[0],
        axes_policy_failures(axes)[0].path == seq![Segment::Index(i as usize)],
{
    let n = axes.len() as int;
    lemma_dup_failures_empty(axes, n);
    assert forall|k: int| 0 <= k < n implies !name_seen_before(axes, k) by {
        assert forall|j: int| 0 <= j < k implies axes[j].name@ != axes[k].name@ by {}
    }
    assert(dup_name_failures(axes, n).len() == 0);
    assert(count_failures(axes).len() == 0);
    assert(trailing_space_failures(axes).len() == 0);
    lemma_zone_failures_single(axes, i, n);
    assert(axes_policy_failures(axes) =~= zone_failure_at(axes, i));
    assert(zone_failure_at(axes, i)[0].path == seq![Segment::Index(i as usize)]);
}

/// Record a duplicate-name failure for every axis whose name an earlier
/// axis already carries.
pub fn unique_axis_names(accum: &mut Accumulator, axes: &Vec<Axis>)
    ensures
        final(accum).prefix@ == old(accum).prefix@,
        final(accum).fails() == old(accum).fails() + with_prefix(
            old(accum).prefix@,
            dup_name_failures(axes@, axes@.len() as int),
        ),
{
    let ghost p = old(accum).prefix@;
    let mut i: usize = 0;
    proof {
        assert(old(accum).fails() + with_prefix(p, dup_name_failures(axes@, 0)) =~= old(
            accum,
        ).fails());
    }
    while i < axes.len()
        invariant
            0 <= i <= axes@.len(),
            accum.prefix@ == p,
            accum.fails() == old(accum).fails() + with_prefix(p, dup_name_failures(axes@, i as int)),
        decreases axes@.len() - i,
    {
        let mut seen = false;
        let mut j: usize = 0;
        while j < i
            invariant
                0 <= j <= i < axes@.len(),
                seen == exists|k: int| 0 <= k < j && axes@[k].name@ == axes@[i as int].name@,
            decreases i - j,
        {
            if axes[j].name == axes[i].name {
                seen = true;
            }
            j = j + 1;
        }
        if seen {
            let ghost before = accum.fails();
            accum.add_failure_at(
                Segment::Index(i),
                Problem::DuplicateAxisName(axes[i].name.clone()),
            );
            proof {
                assert(accum.fails() =~= old(accum).fails() + with_prefix(
                    p,
                    dup_name_failures(axes@, i as int + 1),
                ));
            }
        } else {
            proof {
                assert(accum.fails() =~= old(accum).fails() + with_prefix(
                    p,
                    dup_name_failures(axes@, i as int + 1),
                ));
            }
        }
        i = i + 1;
    }
}

/// Check one axes list against the strict policy: per-axis unit
/// consistency, unique names, 2 to 5 axes ordered as up to one time axis,
/// then up to one channel/custom/untyped axis, then two or three space
/// axes.
pub fn valid_axes(accum: &mut Accumulator, axes: &Vec<Axis>)
    ensures
        final(accum).prefix@ == old(accum).prefix@,
        final(accum).fails() == old(accum).fails() + with_prefix(
            old(accum).prefix@,
            seq_failures(axes@) + axes_policy_failures(axes@),
        ),
{
    let ghost p = old(accum).prefix@;
    accum.validate_iter(axes);
    unique_axis_names(accum, axes);
    if axes.len() < 2 || axes.len() > 5 {
        accum.add_failure(Problem::WrongAxisCount(axes.len()));
    }
    let ghost after_count = accum.fails();
    proof {
        assert(after_count =~= old(accum).fails() + with_prefix(
            p,
            seq_failures(axes@) + dup_name_failures(axes@, axes@.len() as int) + count_failures(
                axes@,
            ),
        ));
    }
    let mut n_space: usize = 0;
    let mut i: usize = 0;
    proof {
        assert(after_count + with_prefix(p, zone_failures(axes@, 0)) =~= after_count);
    }
    while i < axes.len()
        invariant
            0 <= i <= axes@.len(),
            accum.prefix@ == p,
            n_space == space_count(axes@, i as int),
            n_space <= i,
            accum.fails() == after_count + with_prefix(p, zone_failures(axes@, i as int)),
        decreases axes@.len() - i,
    {
        let ghost before = accum.fails();
        match &axes[i].axis_type {
            Some(AxisType::Space) => {
                n_space = n_space + 1;
                if n_space > 3 {
                    accum.add_failure_at(Segment::Index(i), Problem::TooManySpaceAxes(n_space));
                }
            },
            Some(AxisType::Time) => {
                if i > 0 {
                    accum.add_failure_at(Segment::Index(i), Problem::UnexpectedTimeAxis);
                }
            },
            _ => {
                let mut non_time_before = false;
                let mut j: usize = 0;
                while j < i
                    invariant
                        0 <= j <= i < axes@.len(),
                        non_time_before == exists|k: int| 0 <= k < j && !is_time(axes@[k]),
                    decreases i - j,
                {
                    if !matches!(&axes[j].axis_type, Some(AxisType::Time)) {
                        non_time_before = true;
                    }
                    j = j + 1;
                }
                if non_time_before {
                    accum.add_failure_at(Segment::Index(i), Problem::UnexpectedChannelAxis);
                }
            },
        }
        proof {
            assert(accum.fails() =~= after_count + with_prefix(
                p,
                zone_failures(axes@, i as int + 1),
            ));
        }
        i = i + 1;
    }
    if n_space < 2 {
        accum.add_failure(Problem::TooFewSpaceAxes(n_space));
    }
    proof {
        assert(accum.fails() =~= old(accum).fails() + with_prefix(
            p,
            seq_failures(axes@) + axes_policy_failures(axes@),
        ));
    }
}

} // verus!
