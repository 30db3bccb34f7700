//! Dimensionality queries and cross-item dimensionality agreement.

use vstd::prelude::*;

use crate::validation::{Accumulator, Problem, Segment, SpecFailure, fail_at, with_prefix};

verus! {

/// A value that may determine a dimensionality.
pub trait MaybeNDim {
    /// What [`MaybeNDim::maybe_ndim`] returns.
    spec fn spec_ndim(&self) -> Option<usize>;

    /// The dimensionality this value determines, if any.
    fn maybe_ndim(&self) -> (r: Option<usize>)
        ensures
            r == self.spec_ndim(),
    ;
}

/// The dimensionality failures of `items[j..]`, given the dimensionality
/// `exp` established so far: the first item that determines one fixes the
/// expectation, and every later item that determines a different one is a
/// failure at its index.
pub open spec fn ndim_scan<T: MaybeNDim>(items: Seq<T>, j: int, exp: Option<usize>) -> Seq<
    SpecFailure,
>
    decreases items.len() - j,
{
    if j < 0 || j >= items.len() {
        seq![]
    } else {
        match (exp, items[j].spec_ndim()) {
            (None, None) => ndim_scan(items, j + 1, None),
            (None, Some(n)) => ndim_scan(items, j + 1, Some(n)),
            (Some(e), None) => ndim_scan(items, j + 1, Some(e)),
            (Some(e), Some(n)) => (if n != e {
                fail_at(
                    Segment::Index(j as usize),
                    Problem::InconsistentDimensionality { got: n, expected: e },
                )
            } else {
                seq![]
            }) + ndim_scan(items, j + 1, Some(e)),
        }
    }
}

/// The dimensionality failures of a whole list, with `expected` known in
/// advance or taken from the first item that determines one.
pub open spec fn ndim_failures<T: MaybeNDim>(expected: Option<usize>, items: Seq<T>) -> Seq<
    SpecFailure,
> {
    ndim_scan(items, 0, expected)
}

/// Check that every item that determines a dimensionality agrees with
/// `expected`, or, when `expected` is absent, with the first item that
/// determines one.
pub fn validate_ndims<T: MaybeNDim>(
    accum: &mut Accumulator,
    expected: Option<usize>,
    items: &Vec<T>,
)
    ensures
        final(accum).prefix@ == old(accum).prefix@,
        final(accum).fails() == old(accum).fails() + with_prefix(
            old(accum).prefix@,
            ndim_failures(expected, items@),
        ),
{
    let ghost p = old(accum).prefix@;
    let mut exp = expected;
    let mut j: usize = 0;
    while j < items.len()
        invariant
            0 <= j <= items@.len(),
            accum.prefix@ == p,
            old(accum).fails() + with_prefix(p, ndim_scan(items@, 0, expected)) == accum.fails()
                + with_prefix(p, ndim_scan(items@, j as int, exp)),
        decreases items@.len() - j,
    {
        let ghost fails_before = accum.fails();
        let ghost exp_before = exp;
        let n_opt = items[j].maybe_ndim();
        match (exp, n_opt) {
            (None, None) => {},
            (None, Some(n)) => {
                exp = Some(n);
            },
            (Some(_), None) => {},
            (Some(e), Some(n)) => {
                if n != e {
                    accum.add_failure_at(
                        Segment::Index(j),
                        Problem::InconsistentDimensionality { got: n, expected: e },
                    );
                }
            },
        }
        proof {
            assert(fails_before + with_prefix(p, ndim_scan(items@, j as int, exp_before))
                =~= accum.fails() + with_prefix(p, ndim_scan(items@, j as int + 1, exp)));
        }
        j = j + 1;
    }
    proof {
        assert(accum.fails() =~= old(accum).fails() + with_prefix(
            p,
            ndim_failures(expected, items@),
        ));
    }
}

} // verus!
