//! "plate" metadata: the row/column grid of a high-content screening
//! dataset.

use vstd::prelude::*;

use crate::validation::{
    Accumulator, Key, Problem, Segment, SpecFailure, Validate, fail, fail_at,
    lemma_with_prefix_add, lemma_with_prefix_nested, with_prefix,
};
use crate::text::{all_alphanumeric, check_alphanumeric, substr_eq};

verus! {

/// One plate acquisition, with a unique integer identifier.
#[derive(Debug, Clone)]
pub struct PlateAcquisition {
    /// A unique integer identifier that fields of view can refer to.
    pub id: u64,
    /// A name for the acquisition (optional).
    pub name: Option<String>,
    /// The maximum number of fields of view for the acquisition (optional, non-zero).
    pub maximum_field_count: Option<u64>,
    /// A description of the acquisition (optional).
    pub description: Option<String>,
    /// An epoch timestamp at which the acquisition started (optional).
    pub start_time: Option<u64>,
    /// An epoch timestamp at which the acquisition ended (optional).
    pub end_time: Option<u64>,
}

/// One plate column, named uniquely within the plate.
#[derive(Debug, Clone)]
pub struct PlateColumn {
    /// The unique column name.
    pub name: String,
}

/// One plate row, named uniquely within the plate.
#[derive(Debug, Clone)]
pub struct PlateRow {
    /// The unique row name.
    pub name: String,
}

/// One well of the plate, referencing its row and column by index.
#[derive(Debug, Clone)]
pub struct PlateWell {
    /// The path to the well subgroup: row name, a slash, column name.
    pub path: String,
    /// The index of the well's row in the plate's row list.
    pub row_index: usize,
    /// The index of the well's column in the plate's column list.
    pub column_index: usize,
}

/// Plate metadata: acquisitions, the column and row names, and the wells
/// of the grid.
#[derive(Debug)]
pub struct Plate {
    /// The acquisitions wells can refer to (optional).
    pub acquisitions: Option<Vec<PlateAcquisition>>,
    /// The columns of the plate.
    pub columns: Vec<PlateColumn>,
    /// The maximum number of fields per view across all wells (optional, non-zero).
    pub field_count: Option<u64>,
    /// The name of the plate (optional).
    pub name: Option<String>,
    /// The rows of the plate.
    pub rows: Vec<PlateRow>,
    /// The wells of the plate.
    pub wells: Vec<PlateWell>,
}

/// An acquisition with both timestamps present must not end before it
/// starts.
pub open spec fn acquisition_failures(a: PlateAcquisition) -> Seq<SpecFailure> {
    match (a.start_time, a.end_time) {
        (Some(st), Some(en)) => if en < st {
            fail_at(Segment::Field(Key::Endtime), Problem::EndBeforeStart)
        } else {
            seq![]
        },
        _ => seq![],
    }
}

impl Validate for PlateAcquisition {
    open spec fn spec_failures(&self) -> Seq<SpecFailure> {
        acquisition_failures(*self)
    }

    fn validate_inner(&self, accum: &mut Accumulator) {
        match (&self.start_time, &self.end_time) {
            (Some(st), Some(en)) => {
                if *en < *st {
                    accum.add_failure_at(Segment::Field(Key::Endtime), Problem::EndBeforeStart);
                }
            },
            _ => {},
        }
        proof {
            assert(final(accum).fails() =~= old(accum).fails() + with_prefix(
                old(accum).prefix@,
                self.spec_failures(),
            ));
        }
    }
}

/// A row or column name must be alphanumeric.
pub open spec fn grid_name_failures(name: String) -> Seq<SpecFailure> {
    with_prefix(
        seq![Segment::Field(Key::Name)],
        if !all_alphanumeric(name@) {
            fail(Problem::NotAlphanumeric(name))
        } else {
            seq![]
        },
    )
}

impl Validate for PlateColumn {
    open spec fn spec_failures(&self) -> Seq<SpecFailure> {
        grid_name_failures(self.name)
    }

    fn validate_inner(&self, accum: &mut Accumulator) {
        if !check_alphanumeric(self.name.as_str()) {
            accum.add_failure_at(
                Segment::Field(Key::Name),
                Problem::NotAlphanumeric(self.name.clone()),
            );
        }
        proof {
            assert(final(accum).fails() =~= old(accum).fails() + with_prefix(
                old(accum).prefix@,
                self.spec_failures(),
            ));
        }
    }
}

impl Validate for PlateRow {
    open spec fn spec_failures(&self) -> Seq<SpecFailure> {
        grid_name_failures(self.name)
    }

    fn validate_inner(&self, accum: &mut Accumulator) {
        if !check_alphanumeric(self.name.as_str()) {
            accum.add_failure_at(
                Segment::Field(Key::Name),
                Problem::NotAlphanumeric(self.name.clone()),
            );
        }
        proof {
            assert(final(accum).fails() =~= old(accum).fails() + with_prefix(
                old(accum).prefix@,
                self.spec_failures(),
            ));
        }
    }
}

/// The duplicate-id and timestamp failures of the first `n` acquisitions.
pub open spec fn acq_list_failures(acqs: Seq<PlateAcquisition>, n: int) -> Seq<SpecFailure>
    decreases n,
{
    if n <= 0 {
        seq![]
    } else {
        acq_list_failures(acqs, n - 1) + (if exists|j: int|
            0 <= j < n - 1 && (#[trigger] acqs[j]).id == acqs[n - 1].id {
            seq![
                SpecFailure {
                    path: seq![Segment::Index((n - 1) as usize), Segment::Field(Key::Id)],
                    problem: Problem::NotUniqueId(acqs[n - 1].id),
                },
            ]
        } else {
            seq![]
        }) + with_prefix(
            seq![Segment::Index((n - 1) as usize)],
            acquisition_failures(acqs[n - 1]),
        )
    }
}

/// Whether an earlier column carries the name of column `i`.
pub open spec fn col_name_seen(cols: Seq<PlateColumn>, i: int) -> bool {
    exists|j: int| 0 <= j < i && cols[j].name@ == cols[i].name@
}

/// The duplicate-name and naming failures of the first `n` columns.
pub open spec fn col_list_failures(cols: Seq<PlateColumn>, n: int) -> Seq<SpecFailure>
    decreases n,
{
    if n <= 0 {
        seq![]
    } else {
        col_list_failures(cols, n - 1) + (if col_name_seen(cols, n - 1) {
            seq![
                SpecFailure {
                    path: seq![Segment::Index((n - 1) as usize), Segment::Field(Key::Name)],
                    problem: Problem::NotUniqueName(cols[n - 1].name),
                },
            ]
        } else {
            seq![]
        }) + with_prefix(
            seq![Segment::Index((n - 1) as usize)],
            grid_name_failures(cols[n - 1].name),
        )
    }
}

/// Whether an earlier row carries the name of row `i`.
pub open spec fn row_name_seen(rows: Seq<PlateRow>, i: int) -> bool {
    exists|j: int| 0 <= j < i && rows[j].name@ == rows[i].name@
}

/// The duplicate-name and naming failures of the first `n` rows.
pub open spec fn row_list_failures(rows: Seq<PlateRow>, n: int) -> Seq<SpecFailure>
    decreases n,
{
    if n <= 0 {
        seq![]
    } else {
        row_list_failures(rows, n - 1) + (if row_name_seen(rows, n - 1) {
            seq![
                SpecFailure {
                    path: seq![Segment::Index((n - 1) as usize), Segment::Field(Key::Name)],
                    problem: Problem::NotUniqueName(rows[n - 1].name),
                },
            ]
        } else {
            seq![]
        }) + with_prefix(
            seq![Segment::Index((n - 1) as usize)],
            grid_name_failures(rows[n - 1].name),
        )
    }
}

/// The component boundaries of a well path, scanning from position `i`
/// with `start` the beginning of the run currently open, if any: maximal
/// slash-free non-empty runs, each as its start and end position.
pub open spec fn bounds_acc(s: Seq<char>, i: int, start: Option<usize>) -> Seq<(usize, usize)>
    decreases s.len() - i,
{
    if i < 0 || i >= s.len() {
        match start {
            Some(st) => seq![(st, s.len() as usize)],
            None => seq![],
        }
    } else if s[i] == '/' {
        (match start {
            Some(st) => seq![(st, i as usize)],
            None => seq![],
        }) + bounds_acc(s, i + 1, None)
    } else {
        match start {
            Some(st) => bounds_acc(s, i + 1, Some(st)),
            None => bounds_acc(s, i + 1, Some(i as usize)),
        }
    }
}

/// The component boundaries of a well path.
pub open spec fn comp_bounds(s: Seq<char>) -> Seq<(usize, usize)> {
    bounds_acc(s, 0, None)
}

/// The components of a well path: its maximal slash-free non-empty runs.
pub open spec fn split_comps(s: Seq<char>) -> Seq<Seq<char>> {
    Seq::new(
        comp_bounds(s).len(),
        |k: int| s.subrange(comp_bounds(s)[k].0 as int, comp_bounds(s)[k].1 as int),
    )
}

/// Every boundary names a non-empty run inside the string.
proof fn lemma_bounds_acc_valid(s: Seq<char>, i: int, start: Option<usize>)
    requires
        s.len() <= usize::MAX,
        0 <= i <= s.len(),
        match start {
            Some(st) => 0 <= st < i,
            None => true,
        },
    ensures
        forall|k: int|
            0 <= k < bounds_acc(s, i, start).len() ==> {
                &&& 0 <= (#[trigger] bounds_acc(s, i, start)[k]).0
                &&& bounds_acc(s, i, start)[k].0 < bounds_acc(s, i, start)[k].1
                &&& bounds_acc(s, i, start)[k].1 <= s.len()
            },
    decreases s.len() - i,
{
    if i < s.len() {
        if s[i] == '/' {
            lemma_bounds_acc_valid(s, i + 1, None);
            assert forall|k: int| 0 <= k < bounds_acc(s, i, start).len() implies {
                &&& 0 <= (#[trigger] bounds_acc(s, i, start)[k]).0
                &&& bounds_acc(s, i, start)[k].0 < bounds_acc(s, i, start)[k].1
                &&& bounds_acc(s, i, start)[k].1 <= s.len()
            } by {
                match start {
                    Some(st) => {
                        let head = seq![(st, i as usize)];
                        assert(bounds_acc(s, i, start) == head + bounds_acc(s, i + 1, None));
                        assert(head.len() == 1);
                        if k == 0 {
                            assert(bounds_acc(s, i, start)[0] == head[0]);
                        } else {
                            assert(bounds_acc(s, i, start)[k] == bounds_acc(s, i + 1, None)[
                                k - 1
                            ]);
                        }
                    },
                    None => {
                        assert(bounds_acc(s, i, start) =~= bounds_acc(s, i + 1, None));
                    },
                }
            }
        } else {
            let next = match start {
                Some(st) => Some(st),
                None => Some(i as usize),
            };
            lemma_bounds_acc_valid(s, i + 1, next);
            assert(bounds_acc(s, i, start) == bounds_acc(s, i + 1, next));
            assert forall|k: int| 0 <= k < bounds_acc(s, i, start).len() implies {
                &&& 0 <= (#[trigger] bounds_acc(s, i, start)[k]).0
                &&& bounds_acc(s, i, start)[k].0 < bounds_acc(s, i, start)[k].1
                &&& bounds_acc(s, i, start)[k].1 <= s.len()
            } by {
                assert(bounds_acc(s, i, start)[k] == bounds_acc(s, i + 1, next)[k]);
            }
        }
    }
}

/// Compute the component boundaries of a well path.
fn path_bounds(s: &str) -> (r: Vec<(usize, usize)>)
    ensures
        r@ == comp_bounds(s@),
        forall|k: int| 0 <= k < r@.len() ==> (#[trigger] r@[k]).0 < r@[k].1 <= s@.len(),
{
    let n = s.unicode_len();
    let mut out: Vec<(usize, usize)> = Vec::new();
    let mut start: Option<usize> = None;
    let mut i: usize = 0;
    while i < n
        invariant
            n == s@.len(),
            0 <= i <= n,
            match start {
                Some(st) => 0 <= st < i,
                None => true,
            },
            comp_bounds(s@) == out@ + bounds_acc(s@, i as int, start),
        decreases n - i,
    {
        let c = s.get_char(i);
        let ghost out_before = out@;
        let ghost start_before = start;
        if c == '/' {
            match start {
                Some(st) => {
                    out.push((st, i));
                },
                None => {},
            }
            start = None;
        } else {
            if start.is_none() {
                start = Some(i);
            }
        }
        proof {
            assert(out_before + bounds_acc(s@, i as int, start_before) =~= out@ + bounds_acc(
                s@,
                i as int + 1,
                start,
            ));
        }
        i = i + 1;
    }
    match start {
        Some(st) => {
            out.push((st, n));
        },
        None => {},
    }
    proof {
        assert(out@ =~= comp_bounds(s@));
        lemma_bounds_acc_valid(s@, 0, None);
    }
    out
}

/// The path failures of one well, given the row and column names its
/// indices reference: the path must be exactly the row name, then the
/// column name.
pub open spec fn well_path_failures(
    row: Seq<char>,
    col: Seq<char>,
    comps: Seq<Seq<char>>,
) -> Seq<SpecFailure> {
    if comps.len() == 0 {
        fail_at(Segment::Field(Key::Path), Problem::NoRowName)
    } else {
        (if comps[0] != row {
            fail_at(Segment::Field(Key::Path), Problem::RowNameMismatch)
        } else {
            seq![]
        }) + (if comps.len() < 2 {
            fail_at(Segment::Field(Key::Path), Problem::NoColumnName)
        } else {
            (if comps[1] != col {
                fail_at(Segment::Field(Key::Path), Problem::ColumnNameMismatch)
            } else {
                seq![]
            }) + (if comps.len() > 2 {
                fail_at(Segment::Field(Key::Path), Problem::TooManyPathComponents)
            } else {
                seq![]
            })
        })
    }
}

/// Law: a well path passes exactly when its components are the
/// referenced row name, then the referenced column name, and nothing
/// else.
pub proof fn lemma_well_path_conform(row: Seq<char>, col: Seq<char>, comps: Seq<Seq<char>>)
    ensures
        well_path_failures(row, col, comps).len() == 0 <==> (comps.len() == 2 && comps[0] == row
            && comps[1] == col),
{
}

/// The failures of one well against its plate: the row and column
/// indices must exist, and then the path must name them.
pub open spec fn well_failures(p: Plate, w: PlateWell) -> Seq<SpecFailure> {
    (if w.column_index >= p.columns@.len() {
        fail_at(Segment::Field(Key::ColumnIndex), Problem::ColumnIndexDoesNotExist(w.column_index))
    } else {
        seq![]
    }) + (if w.row_index >= p.rows@.len() {
        fail_at(Segment::Field(Key::RowIndex), Problem::RowIndexDoesNotExist(w.row_index))
    } else {
        seq![]
    }) + (if w.column_index < p.columns@.len() && w.row_index < p.rows@.len() {
        well_path_failures(
            p.rows@[w.row_index as int].name@,
            p.columns@[w.column_index as int].name@,
            split_comps(w.path@),
        )
    } else {
        seq![]
    })
}

/// The failures of the first `n` wells, each under its index.
pub open spec fn wells_failures(p: Plate, n: int) -> Seq<SpecFailure>
    decreases n,
{
    if n <= 0 {
        seq![]
    } else {
        wells_failures(p, n - 1) + with_prefix(
            seq![Segment::Index((n - 1) as usize)],
            well_failures(p, p.wells@[n - 1]),
        )
    }
}

/// Every failure of one plate: duplicate acquisition ids and timestamps,
/// duplicate or non-alphanumeric column and row names, and each well's
/// grid references and path.
pub open spec fn plate_failures(p: Plate) -> Seq<SpecFailure> {
    (match p.acquisitions {
        Some(acqs) => with_prefix(
            seq![Segment::Field(Key::Acquisitions)],
            acq_list_failures(acqs@, acqs@.len() as int),
        ),
        None => seq![],
    }) + with_prefix(
        seq![Segment::Field(Key::Columns)],
        col_list_failures(p.columns@, p.columns@.len() as int),
    ) + with_prefix(
        seq![Segment::Field(Key::Rows)],
        row_list_failures(p.rows@, p.rows@.len() as int),
    ) + with_prefix(seq![Segment::Field(Key::Wells)], wells_failures(p, p.wells@.len() as int))
}

impl Validate for Plate {
    open spec fn spec_failures(&self) -> Seq<SpecFailure> {
        plate_failures(*self)
    }

    fn validate_inner(&self, accum: &mut Accumulator) {
        let ghost p = old(accum).prefix@;
        let ghost f_acq = match &self.acquisitions {
            Some(acqs) => with_prefix(
                seq![Segment::Field(Key::Acquisitions)],
                acq_list_failures(acqs@, acqs@.len() as int),
            ),
            None => Seq::<SpecFailure>::empty(),
        };
        let ghost f_col = with_prefix(
            seq![Segment::Field(Key::Columns)],
            col_list_failures(self.columns@, self.columns@.len() as int),
        );
        let ghost f_row = with_prefix(
            seq![Segment::Field(Key::Rows)],
            row_list_failures(self.rows@, self.rows@.len() as int),
        );
        let ghost f_well = with_prefix(
            seq![Segment::Field(Key::Wells)],
            wells_failures(*self, self.wells@.len() as int),
        );
        match &self.acquisitions {
            Some(acqs) => {
                accum.push_key(Segment::Field(Key::Acquisitions));
                let ghost ps = accum.prefix@;
                let ghost base = accum.fails();
                let mut i: usize = 0;
                proof {
                    assert(base + with_prefix(ps, acq_list_failures(acqs@, 0)) =~= base);
                }
                while i < acqs.len()
                    invariant
                        0 <= i <= acqs@.len(),
                        accum.prefix@ == ps,
                        accum.fails() == base + with_prefix(
                            ps,
                            acq_list_failures(acqs@, i as int),
                        ),
                    decreases acqs@.len() - i,
                {
                    let mut seen = false;
                    let mut j: usize = 0;
                    while j < i
                        invariant
                            0 <= j <= i < acqs@.len(),
                            seen == exists|k: int| 0 <= k < j && acqs@[k].id == acqs@[i as int].id,
                        decreases i - j,
                    {
                        if acqs[j].id == acqs[i].id {
                            seen = true;
                        }
                        j = j + 1;
                    }
                    if seen {
                        accum.push_key(Segment::Index(i));
                        accum.add_failure_at(
                            Segment::Field(Key::Id),
                            Problem::NotUniqueId(acqs[i].id),
                        );
                        accum.pop_key();
                    }
                    accum.validate_member_at(Segment::Index(i), &acqs[i]);
                    proof {
                        assert(accum.prefix@ =~= ps);
                        lemma_with_prefix_nested(
                            ps,
                            seq![Segment::Index(i)],
                            acquisition_failures(acqs@[i as int]),
                        );
                        assert(accum.fails() =~~= base + with_prefix(
                            ps,
                            acq_list_failures(acqs@, i as int + 1),
                        ));
                    }
                    i = i + 1;
                }
                accum.pop_key();
            },
            None => {},
        }
        proof {
            assert(accum.prefix@ =~= p);
            match &self.acquisitions {
                Some(acqs) => {
                    lemma_with_prefix_nested(
                        p,
                        seq![Segment::Field(Key::Acquisitions)],
                        acq_list_failures(acqs@, acqs@.len() as int),
                    );
                },
                None => {},
            }
            assert(accum.fails() =~~= old(accum).fails() + with_prefix(p, f_acq));
        }
        let ghost after_acq = accum.fails();
        accum.push_key(Segment::Field(Key::Columns));
        let ghost ps_col = accum.prefix@;
        let ghost base_col = accum.fails();
        let mut i: usize = 0;
        proof {
            assert(base_col + with_prefix(ps_col, col_list_failures(self.columns@, 0))
                =~= base_col);
        }
        while i < self.columns.len()
            invariant
                0 <= i <= self.columns@.len(),
                accum.prefix@ == ps_col,
                accum.fails() == base_col + with_prefix(
                    ps_col,
                    col_list_failures(self.columns@, i as int),
                ),
            decreases self.columns@.len() - i,
        {
            let mut seen = false;
            let mut j: usize = 0;
            while j < i
                invariant
                    0 <= j <= i < self.columns@.len(),
                    seen == exists|k: int|
                        0 <= k < j && self.columns@[k].name@ == self.columns@[i as int].name@,
                decreases i - j,
            {
                if self.columns[j].name == self.columns[i].name {
                    seen = true;
                }
                j = j + 1;
            }
            if seen {
                accum.push_key(Segment::Index(i));
                accum.add_failure_at(
                    Segment::Field(Key::Name),
                    Problem::NotUniqueName(self.columns[i].name.clone()),
                );
                accum.pop_key();
            }
            accum.validate_member_at(Segment::Index(i), &self.columns[i]);
            proof {
                assert(accum.prefix@ =~= ps_col);
                lemma_with_prefix_nested(
                    ps_col,
                    seq![Segment::Index(i)],
                    grid_name_failures(self.columns@[i as int].name),
                );
                assert(accum.fails() =~~= base_col + with_prefix(
                    ps_col,
                    col_list_failures(self.columns@, i as int + 1),
                ));
            }
            i = i + 1;
        }
        accum.pop_key();
        proof {
            assert(accum.prefix@ =~= p);
            lemma_with_prefix_nested(
                p,
                seq![Segment::Field(Key::Columns)],
                col_list_failures(self.columns@, self.columns@.len() as int),
            );
            assert(accum.fails() =~~= after_acq + with_prefix(p, f_col));
        }
        let ghost after_col = accum.fails();
        accum.push_key(Segment::Field(Key::Rows));
        let ghost ps_row = accum.prefix@;
        let ghost base_row = accum.fails();
        let mut i: usize = 0;
        proof {
            assert(base_row + with_prefix(ps_row, row_list_failures(self.rows@, 0)) =~= base_row);
        }
        while i < self.rows.len()
            invariant
                0 <= i <= self.rows@.len(),
                accum.prefix@ == ps_row,
                accum.fails() == base_row + with_prefix(
                    ps_row,
                    row_list_failures(self.rows@, i as int),
                ),
            decreases self.rows@.len() - i,
        {
            let mut seen = false;
            let mut j: usize = 0;
            while j < i
                invariant
                    0 <= j <= i < self.rows@.len(),
                    seen == exists|k: int|
                        0 <= k < j && self.rows@[k].name@ == self.rows@[i as int].name@,
                decreases i - j,
            {
                if self.rows[j].name == self.rows[i].name {
                    seen = true;
                }
                j = j + 1;
            }
            if seen {
                accum.push_key(Segment::Index(i));
                accum.add_failure_at(
                    Segment::Field(Key::Name),
                    Problem::NotUniqueName(self.rows[i].name.clone()),
                );
                accum.pop_key();
            }
            accum.validate_member_at(Segment::Index(i), &self.rows[i]);
            proof {
                assert(accum.prefix@ =~= ps_row);
                lemma_with_prefix_nested(
                    ps_row,
                    seq![Segment::Index(i)],
                    grid_name_failures(self.rows@[i as int].name),
                );
                assert(accum.fails() =~~= base_row + with_prefix(
                    ps_row,
                    row_list_failures(self.rows@, i as int + 1),
                ));
            }
            i = i + 1;
        }
        accum.pop_key();
        proof {
            assert(accum.prefix@ =~= p);
            lemma_with_prefix_nested(
                p,
                seq![Segment::Field(Key::Rows)],
                row_list_failures(self.rows@, self.rows@.len() as int),
            );
            assert(accum.fails() =~~= after_col + with_prefix(p, f_row));
        }
        let ghost after_row = accum.fails();
        accum.push_key(Segment::Field(Key::Wells));
        let ghost ps_well = accum.prefix@;
        let mut i: usize = 0;
        proof {
            assert(after_row + with_prefix(ps_well, wells_failures(*self, 0)) =~= after_row);
        }
        while i < self.wells.len()
            invariant
                0 <= i <= self.wells@.len(),
                accum.prefix@ == ps_well,
                ps_well == p + seq![Segment::Field(Key::Wells)],
                accum.fails() == after_row + with_prefix(
                    ps_well,
                    wells_failures(*self, i as int),
                ),
            decreases self.wells@.len() - i,
        {
            accum.push_key(Segment::Index(i));
            let ghost base_w = accum.fails();
            let well = &self.wells[i];
            let col_ok = well.column_index < self.columns.len();
            let row_ok = well.row_index < self.rows.len();
            if !col_ok {
                accum.add_failure_at(
                    Segment::Field(Key::ColumnIndex),
                    Problem::ColumnIndexDoesNotExist(well.column_index),
                );
            }
            if !row_ok {
                accum.add_failure_at(
                    Segment::Field(Key::RowIndex),
                    Problem::RowIndexDoesNotExist(well.row_index),
                );
            }
            if col_ok && row_ok {
                let row_name = &self.rows[well.row_index].name;
                let col_name = &self.columns[well.column_index].name;
                let path = well.path.as_str();
                let bounds = path_bounds(path);
                let ghost comps = split_comps(well.path@);
                if bounds.len() == 0 {
                    accum.add_failure_at(Segment::Field(Key::Path), Problem::NoRowName);
                } else {
                    let (st0, en0) = bounds[0];
                    if !substr_eq(path, st0, en0, row_name.as_str()) {
                        proof {
                            assert(comps[0] == well.path@.subrange(st0 as int, en0 as int));
                        }
                        accum.add_failure_at(Segment::Field(Key::Path), Problem::RowNameMismatch);
                    } else {
                        proof {
                            assert(comps[0] == well.path@.subrange(st0 as int, en0 as int));
                        }
                    }
                    if bounds.len() < 2 {
                        accum.add_failure_at(Segment::Field(Key::Path), Problem::NoColumnName);
                    } else {
                        let (st1, en1) = bounds[1];
                        if !substr_eq(path, st1, en1, col_name.as_str()) {
                            proof {
                                assert(comps[1] == well.path@.subrange(st1 as int, en1 as int));
                            }
                            accum.add_failure_at(
                                Segment::Field(Key::Path),
                                Problem::ColumnNameMismatch,
                            );
                        } else {
                            proof {
                                assert(comps[1] == well.path@.subrange(st1 as int, en1 as int));
                            }
                        }
                        if bounds.len() > 2 {
                            accum.add_failure_at(
                                Segment::Field(Key::Path),
                                Problem::TooManyPathComponents,
                            );
                        }
                    }
                }
            }
            accum.pop_key();
            proof {
                assert(accum.prefix@ =~= ps_well);
                lemma_with_prefix_nested(
                    ps_well,
                    seq![Segment::Index(i)],
                    well_failures(*self, self.wells@[i as int]),
                );
                assert(accum.fails() =~~= after_row + with_prefix(
                    ps_well,
                    wells_failures(*self, i as int + 1),
                ));
            }
            i = i + 1;
        }
        accum.pop_key();
        proof {
            assert(accum.prefix@ =~= p);
            lemma_with_prefix_nested(
                p,
                seq![Segment::Field(Key::Wells)],
                wells_failures(*self, self.wells@.len() as int),
            );
            assert(accum.fails() =~~= after_row + with_prefix(p, f_well));
            lemma_with_prefix_add(p, f_acq, f_col);
            lemma_with_prefix_add(p, f_acq + f_col, f_row);
            lemma_with_prefix_add(p, f_acq + f_col + f_row, f_well);
            assert(f_acq + f_col + f_row + f_well =~= self.spec_failures());
            assert(accum.fails() =~= old(accum).fails() + with_prefix(
                p,
                self.spec_failures(),
            ));
        }
    }
}

} // verus!
