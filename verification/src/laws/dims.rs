//! The dimensions of what each reshaping, reducing and gathering component encodes.

use vstd::prelude::*;

use crate::component::Component;
use crate::components::arrays::{TfBooleanMask, TfConcat1, TfSegmentMax};
use crate::components::reduce::{TfReduceAny0, TfReduceAny1, TfReduceMax, TfReduceMax0, TfReduceMax1, TfReduceMean, TfReduceProd, TfReduceSum, TfReduceSum0, TfReduceSum1};
use crate::components::shape::{TfArgmax, TfBincount, TfCumsum, TfEye, TfFill, TfMatmul, TfOneHot, TfOnes, TfRange, TfRoll, TfTensordot, TfTranspose, bin_length};
use crate::expr::{eval_int, IntExpr};
use crate::laws::value;
use crate::{Grid, COLS, ROWS};

verus! {

broadcast use crate::expr::group_eval;

/// The identity matrix is `a[0][0]` x `b[0][0]`.
pub proof fn law_eye_dims(
    ops: Seq<Grid<IntExpr>>,
    fresh: u64,
    vars: spec_fn(u64) -> int,
    arrs: spec_fn(u64, int) -> int,
    tabs: spec_fn(u64, int, int) -> int,
)
    requires
        ops.len() >= 2,
    ensures
        eval_int(TfEye.spec_expression(ops, fresh).dims.0, vars, arrs, tabs) == value(ops[0], 0, 0, vars, arrs, tabs),
        eval_int(TfEye.spec_expression(ops, fresh).dims.1, vars, arrs, tabs) == value(ops[1], 0, 0, vars, arrs, tabs),
{
}

/// A filled tensor is `a[0][0]` x `a[0][1]`.
pub proof fn law_fill_dims(
    ops: Seq<Grid<IntExpr>>,
    fresh: u64,
    vars: spec_fn(u64) -> int,
    arrs: spec_fn(u64, int) -> int,
    tabs: spec_fn(u64, int, int) -> int,
)
    requires
        ops.len() >= 2,
    ensures
        eval_int(TfFill.spec_expression(ops, fresh).dims.0, vars, arrs, tabs) == value(ops[0], 0, 0, vars, arrs, tabs),
        eval_int(TfFill.spec_expression(ops, fresh).dims.1, vars, arrs, tabs) == value(ops[0], 0, 1, vars, arrs, tabs),
{
}

/// A tensor of ones is `a[0][0]` x `a[0][1]`.
pub proof fn law_ones_dims(
    ops: Seq<Grid<IntExpr>>,
    fresh: u64,
    vars: spec_fn(u64) -> int,
    arrs: spec_fn(u64, int) -> int,
    tabs: spec_fn(u64, int, int) -> int,
)
    requires
        ops.len() >= 1,
    ensures
        eval_int(TfOnes.spec_expression(ops, fresh).dims.0, vars, arrs, tabs) == value(ops[0], 0, 0, vars, arrs, tabs),
        eval_int(TfOnes.spec_expression(ops, fresh).dims.1, vars, arrs, tabs) == value(ops[0], 0, 1, vars, arrs, tabs),
{
}

/// A range from `a[0][0]` below `b[0][0]` is one row of `b[0][0] - a[0][0]` cells, or none.
pub proof fn law_range_dims(
    ops: Seq<Grid<IntExpr>>,
    fresh: u64,
    vars: spec_fn(u64) -> int,
    arrs: spec_fn(u64, int) -> int,
    tabs: spec_fn(u64, int, int) -> int,
)
    requires
        ops.len() >= 2,
    ensures
        eval_int(TfRange.spec_expression(ops, fresh).dims.0, vars, arrs, tabs) == 1int,
        eval_int(TfRange.spec_expression(ops, fresh).dims.1, vars, arrs, tabs) == if value(ops[1], 0, 0, vars, arrs, tabs) - value(ops[0], 0, 0, vars, arrs, tabs) > 0 { value(ops[1], 0, 0, vars, arrs, tabs) - value(ops[0], 0, 0, vars, arrs, tabs) } else { 0int },
{
}

/// A one-hot encoding has a row per index of `a`'s row 0 (at most the row capacity) and `b[0][0]` columns.
pub proof fn law_one_hot_dims(
    ops: Seq<Grid<IntExpr>>,
    fresh: u64,
    vars: spec_fn(u64) -> int,
    arrs: spec_fn(u64, int) -> int,
    tabs: spec_fn(u64, int, int) -> int,
)
    requires
        ops.len() >= 2,
    ensures
        eval_int(TfOneHot.spec_expression(ops, fresh).dims.0, vars, arrs, tabs) == (if eval_int(ops[0].dims.1, vars, arrs, tabs) < ROWS as int { eval_int(ops[0].dims.1, vars, arrs, tabs) } else { ROWS as int }),
        eval_int(TfOneHot.spec_expression(ops, fresh).dims.1, vars, arrs, tabs) == value(ops[1], 0, 0, vars, arrs, tabs),
{
}

/// The transpose swaps the row and column counts (rows at most the capacity).
pub proof fn law_transpose_dims(
    ops: Seq<Grid<IntExpr>>,
    fresh: u64,
    vars: spec_fn(u64) -> int,
    arrs: spec_fn(u64, int) -> int,
    tabs: spec_fn(u64, int, int) -> int,
)
    requires
        ops.len() >= 1,
    ensures
        eval_int(TfTranspose.spec_expression(ops, fresh).dims.0, vars, arrs, tabs) == (if eval_int(ops[0].dims.1, vars, arrs, tabs) < ROWS as int { eval_int(ops[0].dims.1, vars, arrs, tabs) } else { ROWS as int }),
        eval_int(TfTranspose.spec_expression(ops, fresh).dims.1, vars, arrs, tabs) == eval_int(ops[0].dims.0, vars, arrs, tabs),
{
}

/// The matrix product has `a`'s rows and `b`'s columns (at most the row capacity).
pub proof fn law_matmul_dims(
    ops: Seq<Grid<IntExpr>>,
    fresh: u64,
    vars: spec_fn(u64) -> int,
    arrs: spec_fn(u64, int) -> int,
    tabs: spec_fn(u64, int, int) -> int,
)
    requires
        ops.len() >= 2,
    ensures
        eval_int(TfMatmul.spec_expression(ops, fresh).dims.0, vars, arrs, tabs) == eval_int(ops[0].dims.0, vars, arrs, tabs),
        eval_int(TfMatmul.spec_expression(ops, fresh).dims.1, vars, arrs, tabs) == (if eval_int(ops[1].dims.1, vars, arrs, tabs) < ROWS as int { eval_int(ops[1].dims.1, vars, arrs, tabs) } else { ROWS as int }),
{
}

/// The tensor dot product has `a`'s rows and `b`'s columns (at most the row capacity).
pub proof fn law_tensordot_dims(
    ops: Seq<Grid<IntExpr>>,
    fresh: u64,
    vars: spec_fn(u64) -> int,
    arrs: spec_fn(u64, int) -> int,
    tabs: spec_fn(u64, int, int) -> int,
)
    requires
        ops.len() >= 2,
    ensures
        eval_int(TfTensordot.spec_expression(ops, fresh).dims.0, vars, arrs, tabs) == eval_int(ops[0].dims.0, vars, arrs, tabs),
        eval_int(TfTensordot.spec_expression(ops, fresh).dims.1, vars, arrs, tabs) == (if eval_int(ops[1].dims.1, vars, arrs, tabs) < ROWS as int { eval_int(ops[1].dims.1, vars, arrs, tabs) } else { ROWS as int }),
{
}

/// Rolling keeps the operand's dimensions.
pub proof fn law_roll_dims(
    ops: Seq<Grid<IntExpr>>,
    fresh: u64,
    vars: spec_fn(u64) -> int,
    arrs: spec_fn(u64, int) -> int,
    tabs: spec_fn(u64, int, int) -> int,
)
    requires
        ops.len() >= 1,
    ensures
        eval_int(TfRoll.spec_expression(ops, fresh).dims.0, vars, arrs, tabs) == eval_int(ops[0].dims.0, vars, arrs, tabs),
        eval_int(TfRoll.spec_expression(ops, fresh).dims.1, vars, arrs, tabs) == eval_int(ops[0].dims.1, vars, arrs, tabs),
{
}

/// Running sums keep the operand's dimensions.
pub proof fn law_cumsum_dims(
    ops: Seq<Grid<IntExpr>>,
    fresh: u64,
    vars: spec_fn(u64) -> int,
    arrs: spec_fn(u64, int) -> int,
    tabs: spec_fn(u64, int, int) -> int,
)
    requires
        ops.len() >= 2,
    ensures
        eval_int(TfCumsum.spec_expression(ops, fresh).dims.0, vars, arrs, tabs) == eval_int(ops[0].dims.0, vars, arrs, tabs),
        eval_int(TfCumsum.spec_expression(ops, fresh).dims.1, vars, arrs, tabs) == eval_int(ops[0].dims.1, vars, arrs, tabs),
{
}

/// Argmax along rows gives one row with one index per row of the operand.
pub proof fn law_argmax_dims(
    ops: Seq<Grid<IntExpr>>,
    fresh: u64,
    vars: spec_fn(u64) -> int,
    arrs: spec_fn(u64, int) -> int,
    tabs: spec_fn(u64, int, int) -> int,
)
    requires
        ops.len() >= 1,
    ensures
        eval_int(TfArgmax.spec_expression(ops, fresh).dims.0, vars, arrs, tabs) == 1int,
        eval_int(TfArgmax.spec_expression(ops, fresh).dims.1, vars, arrs, tabs) == eval_int(ops[0].dims.0, vars, arrs, tabs),
{
}

/// The maximum of the whole tensor is a single cell.
pub proof fn law_reduce_max_dims(
    ops: Seq<Grid<IntExpr>>,
    fresh: u64,
    vars: spec_fn(u64) -> int,
    arrs: spec_fn(u64, int) -> int,
    tabs: spec_fn(u64, int, int) -> int,
)
    requires
        ops.len() >= 1,
    ensures
        eval_int(TfReduceMax.spec_expression(ops, fresh).dims.0, vars, arrs, tabs) == 1int,
        eval_int(TfReduceMax.spec_expression(ops, fresh).dims.1, vars, arrs, tabs) == 1int,
{
}

/// The sum of the whole tensor is a single cell.
pub proof fn law_reduce_sum_dims(
    ops: Seq<Grid<IntExpr>>,
    fresh: u64,
    vars: spec_fn(u64) -> int,
    arrs: spec_fn(u64, int) -> int,
    tabs: spec_fn(u64, int, int) -> int,
)
    requires
        ops.len() >= 1,
    ensures
        eval_int(TfReduceSum.spec_expression(ops, fresh).dims.0, vars, arrs, tabs) == 1int,
        eval_int(TfReduceSum.spec_expression(ops, fresh).dims.1, vars, arrs, tabs) == 1int,
{
}

/// Column maxima: one row, one cell per column of the operand.
pub proof fn law_reduce_max0_dims(
    ops: Seq<Grid<IntExpr>>,
    fresh: u64,
    vars: spec_fn(u64) -> int,
    arrs: spec_fn(u64, int) -> int,
    tabs: spec_fn(u64, int, int) -> int,
)
    requires
        ops.len() >= 1,
    ensures
        eval_int(TfReduceMax0.spec_expression(ops, fresh).dims.0, vars, arrs, tabs) == 1int,
        eval_int(TfReduceMax0.spec_expression(ops, fresh).dims.1, vars, arrs, tabs) == eval_int(ops[0].dims.1, vars, arrs, tabs),
{
}

/// Column sums: one row, one cell per column of the operand.
pub proof fn law_reduce_sum0_dims(
    ops: Seq<Grid<IntExpr>>,
    fresh: u64,
    vars: spec_fn(u64) -> int,
    arrs: spec_fn(u64, int) -> int,
    tabs: spec_fn(u64, int, int) -> int,
)
    requires
        ops.len() >= 1,
    ensures
        eval_int(TfReduceSum0.spec_expression(ops, fresh).dims.0, vars, arrs, tabs) == 1int,
        eval_int(TfReduceSum0.spec_expression(ops, fresh).dims.1, vars, arrs, tabs) == eval_int(ops[0].dims.1, vars, arrs, tabs),
{
}

/// Column means: one row, one cell per column of the operand.
pub proof fn law_reduce_mean_dims(
    ops: Seq<Grid<IntExpr>>,
    fresh: u64,
    vars: spec_fn(u64) -> int,
    arrs: spec_fn(u64, int) -> int,
    tabs: spec_fn(u64, int, int) -> int,
)
    requires
        ops.len() >= 1,
    ensures
        eval_int(TfReduceMean.spec_expression(ops, fresh).dims.0, vars, arrs, tabs) == 1int,
        eval_int(TfReduceMean.spec_expression(ops, fresh).dims.1, vars, arrs, tabs) == eval_int(ops[0].dims.1, vars, arrs, tabs),
{
}

/// Column tests: one row, one cell per column of the operand.
pub proof fn law_reduce_any0_dims(
    ops: Seq<Grid<IntExpr>>,
    fresh: u64,
    vars: spec_fn(u64) -> int,
    arrs: spec_fn(u64, int) -> int,
    tabs: spec_fn(u64, int, int) -> int,
)
    requires
        ops.len() >= 1,
    ensures
        eval_int(TfReduceAny0.spec_expression(ops, fresh).dims.0, vars, arrs, tabs) == 1int,
        eval_int(TfReduceAny0.spec_expression(ops, fresh).dims.1, vars, arrs, tabs) == eval_int(ops[0].dims.1, vars, arrs, tabs),
{
}

/// Row maxima: one row, one cell per row of the operand.
pub proof fn law_reduce_max1_dims(
    ops: Seq<Grid<IntExpr>>,
    fresh: u64,
    vars: spec_fn(u64) -> int,
    arrs: spec_fn(u64, int) -> int,
    tabs: spec_fn(u64, int, int) -> int,
)
    requires
        ops.len() >= 1,
    ensures
        eval_int(TfReduceMax1.spec_expression(ops, fresh).dims.0, vars, arrs, tabs) == 1int,
        eval_int(TfReduceMax1.spec_expression(ops, fresh).dims.1, vars, arrs, tabs) == eval_int(ops[0].dims.0, vars, arrs, tabs),
{
}

/// Row sums: one row, one cell per row of the operand.
pub proof fn law_reduce_sum1_dims(
    ops: Seq<Grid<IntExpr>>,
    fresh: u64,
    vars: spec_fn(u64) -> int,
    arrs: spec_fn(u64, int) -> int,
    tabs: spec_fn(u64, int, int) -> int,
)
    requires
        ops.len() >= 1,
    ensures
        eval_int(TfReduceSum1.spec_expression(ops, fresh).dims.0, vars, arrs, tabs) == 1int,
        eval_int(TfReduceSum1.spec_expression(ops, fresh).dims.1, vars, arrs, tabs) == eval_int(ops[0].dims.0, vars, arrs, tabs),
{
}

/// Row products: one row, one cell per row of the operand.
pub proof fn law_reduce_prod_dims(
    ops: Seq<Grid<IntExpr>>,
    fresh: u64,
    vars: spec_fn(u64) -> int,
    arrs: spec_fn(u64, int) -> int,
    tabs: spec_fn(u64, int, int) -> int,
)
    requires
        ops.len() >= 1,
    ensures
        eval_int(TfReduceProd.spec_expression(ops, fresh).dims.0, vars, arrs, tabs) == 1int,
        eval_int(TfReduceProd.spec_expression(ops, fresh).dims.1, vars, arrs, tabs) == eval_int(ops[0].dims.0, vars, arrs, tabs),
{
}

/// Row tests: one row, one cell per row of the operand.
pub proof fn law_reduce_any1_dims(
    ops: Seq<Grid<IntExpr>>,
    fresh: u64,
    vars: spec_fn(u64) -> int,
    arrs: spec_fn(u64, int) -> int,
    tabs: spec_fn(u64, int, int) -> int,
)
    requires
        ops.len() >= 1,
    ensures
        eval_int(TfReduceAny1.spec_expression(ops, fresh).dims.0, vars, arrs, tabs) == 1int,
        eval_int(TfReduceAny1.spec_expression(ops, fresh).dims.1, vars, arrs, tabs) == eval_int(ops[0].dims.0, vars, arrs, tabs),
{
}

/// Concatenation along columns keeps `a`'s rows and adds the column counts.
pub proof fn law_concat1_dims(
    ops: Seq<Grid<IntExpr>>,
    fresh: u64,
    vars: spec_fn(u64) -> int,
    arrs: spec_fn(u64, int) -> int,
    tabs: spec_fn(u64, int, int) -> int,
)
    requires
        ops.len() >= 2,
    ensures
        eval_int(TfConcat1.spec_expression(ops, fresh).dims.0, vars, arrs, tabs) == eval_int(ops[0].dims.0, vars, arrs, tabs),
        eval_int(TfConcat1.spec_expression(ops, fresh).dims.1, vars, arrs, tabs) == eval_int(ops[0].dims.1, vars, arrs, tabs) + eval_int(ops[1].dims.1, vars, arrs, tabs),
{
}

/// Segment maxima keep the operand's rows.
pub proof fn law_segment_max_rows(
    ops: Seq<Grid<IntExpr>>,
    fresh: u64,
    vars: spec_fn(u64) -> int,
    arrs: spec_fn(u64, int) -> int,
    tabs: spec_fn(u64, int, int) -> int,
)
    requires
        ops.len() >= 2,
    ensures
        eval_int(TfSegmentMax.spec_expression(ops, fresh).dims.0, vars, arrs, tabs) == eval_int(ops[0].dims.0, vars, arrs, tabs),
{
}

/// Counting values keeps the operand's rows.
pub proof fn law_bincount_rows(
    ops: Seq<Grid<IntExpr>>,
    fresh: u64,
    vars: spec_fn(u64) -> int,
    arrs: spec_fn(u64, int) -> int,
    tabs: spec_fn(u64, int, int) -> int,
)
    requires
        ops.len() >= 1,
    ensures
        eval_int(TfBincount.spec_expression(ops, fresh).dims.0, vars, arrs, tabs) == eval_int(ops[0].dims.0, vars, arrs, tabs),
{
}

/// Masking cells keeps `a`'s rows.
pub proof fn law_boolean_mask_rows(
    ops: Seq<Grid<IntExpr>>,
    fresh: u64,
    vars: spec_fn(u64) -> int,
    arrs: spec_fn(u64, int) -> int,
    tabs: spec_fn(u64, int, int) -> int,
)
    requires
        ops.len() >= 2,
    ensures
        eval_int(TfBooleanMask.spec_expression(ops, fresh).dims.0, vars, arrs, tabs) == eval_int(ops[0].dims.0, vars, arrs, tabs),
{
}

proof fn lemma_bin_length_value(
    x: Grid<IntExpr>,
    n: nat,
    vars: spec_fn(u64) -> int,
    arrs: spec_fn(u64, int) -> int,
    tabs: spec_fn(u64, int, int) -> int,
)
    requires
        n <= ROWS * COLS,
    ensures
        ({
            let m = eval_int(bin_length(x, n), vars, arrs, tabs);
            &&& m >= 0
            &&& forall|k: int| 0 <= k < n ==> m >= #[trigger] value(x, k / COLS as int, k % COLS as int, vars, arrs, tabs)
            &&& (m == 0 || exists|k: int| 0 <= k < n && m == #[trigger] value(x, k / COLS as int, k % COLS as int, vars, arrs, tabs))
        }),
    decreases n,
{
    if n > 0 {
        lemma_bin_length_value(x, (n - 1) as nat, vars, arrs, tabs);
        let k = n - 1;
        let c = value(x, k / COLS as int, k % COLS as int, vars, arrs, tabs);
        let m = eval_int(bin_length(x, n), vars, arrs, tabs);
        let p = eval_int(bin_length(x, (n - 1) as nat), vars, arrs, tabs);
        assert(m == if p > c { p } else { c });
    }
}

/// Counting values gives each row as many counts as the largest value in the operand
/// (taken over all its stored cells, and at least 0).
pub proof fn law_bincount_width(
    ops: Seq<Grid<IntExpr>>,
    fresh: u64,
    vars: spec_fn(u64) -> int,
    arrs: spec_fn(u64, int) -> int,
    tabs: spec_fn(u64, int, int) -> int,
)
    requires
        ops.len() >= 1,
    ensures
        ({
            let m = eval_int(TfBincount.spec_expression(ops, fresh).dims.1, vars, arrs, tabs);
            &&& m >= 0
            &&& forall|i: int, j: int| 0 <= i < ROWS && 0 <= j < COLS ==> m >= #[trigger] value(ops[0], i, j, vars, arrs, tabs)
            &&& (m == 0 || exists|i: int, j: int|
                0 <= i < ROWS && 0 <= j < COLS && m == #[trigger] value(ops[0], i, j, vars, arrs, tabs))
        }),
{
    lemma_bin_length_value(ops[0], (ROWS * COLS) as nat, vars, arrs, tabs);
    let m = eval_int(TfBincount.spec_expression(ops, fresh).dims.1, vars, arrs, tabs);
    assert forall|i: int, j: int| 0 <= i < ROWS && 0 <= j < COLS implies m >= #[trigger] value(ops[0], i, j, vars, arrs, tabs) by {
        let k = i * COLS + j;
        assert(k / COLS as int == i && k % COLS as int == j);
    }
    if m != 0 {
        let k = choose|k: int| 0 <= k < ROWS * COLS && m == #[trigger] value(ops[0], k / COLS as int, k % COLS as int, vars, arrs, tabs);
        let i = k / COLS as int;
        let j = k % COLS as int;
        assert(0 <= i < ROWS && 0 <= j < COLS && m == value(ops[0], i, j, vars, arrs, tabs));
    }
}

} // verus!
