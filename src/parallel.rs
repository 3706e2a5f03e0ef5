use vstd::prelude::*;
use rayon::iter::{IntoParallelIterator, ParallelIterator};
use crate::viewport::Viewport;

verus! {

/// Relies on rayon's `into_par_iter` over a `u32` range, `map` and `collect`
/// into a `Vec`: the closure runs once for every row index, and the collected
/// rows stand in index order.
#[verifier::external_body]
pub(crate) fn rows_in_parallel(v: &Viewport, rows: u32, cols: u32, limit: u32) -> (g: Vec<Vec<u32>>)
    requires
        v.wf(),
    ensures
        v.is_grid_of(g@, rows as nat, cols as nat, limit as nat),
{
    (0..rows).into_par_iter().map(|row| v.row_counts(row, cols, limit)).collect()
}

} // verus!
