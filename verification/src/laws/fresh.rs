//! Which fresh arrays an encoding reads: those its operands read, and those named
//! from its own part of the counter.

use vstd::prelude::*;

use crate::component::Component;
use crate::components::arrays::{
    concat0_array, concat1_array, mask_state, mask_table, mask_width, segment_array, segment_count,
    where_state, TfBooleanMask, TfBooleanMask_, TfConcat0, TfConcat1, TfSegmentMax, TfWhere1,
};
use crate::components::elementwise::{
    TfAdd, TfCast, TfConstant, TfDivide, TfEqual, TfGreater, TfMaximum, TfMinimum, TfMultiply,
    TfNotEqual, TfSquare, TfSubtract, TfWhere3, TfZeros,
};
use crate::components::reduce::{
    all_max, all_sum, col_any, col_max, col_sum, row_any, row_max, row_prod, row_sum, TfReduceAny0,
    TfReduceAny1, TfReduceMax, TfReduceMax0, TfReduceMax1, TfReduceMean, TfReduceProd, TfReduceSum,
    TfReduceSum0, TfReduceSum1,
};
use crate::components::shape::{
    argmax_index, bin_count, bin_length, cumsum, dot, mask_length, range_value, roll_head,
    row_peak, TfArgmax, TfBincount, TfCumsum, TfExpandDims, TfEye, TfFill, TfMatmul, TfOneHot,
    TfOnes, TfRange, TfRoll, TfSequenceMask, TfTensordot, TfTranspose,
};
use crate::expr::{array_mentions, bool_mentions, int_mentions, table_mentions, BoolExpr, IntExpr, ArrayExpr, TableExpr};
use crate::operator::Operator;
use crate::{Grid, COLS, ROWS};

verus! {

broadcast use crate::expr::group_mentions;

/// Every name that the integer term reads satisfies `ok`.
pub open spec fn int_within(e: IntExpr, ok: spec_fn(u64) -> bool) -> bool {
    forall|k: u64| #[trigger] int_mentions(e, k) ==> ok(k)
}

/// Every name that the boolean term reads satisfies `ok`.
pub open spec fn bool_within(e: BoolExpr, ok: spec_fn(u64) -> bool) -> bool {
    forall|k: u64| #[trigger] bool_mentions(e, k) ==> ok(k)
}

/// Every name that the array term reads satisfies `ok`.
pub open spec fn array_within(a: ArrayExpr, ok: spec_fn(u64) -> bool) -> bool {
    forall|k: u64| #[trigger] array_mentions(a, k) ==> ok(k)
}

/// Every name that the table term reads satisfies `ok`.
pub open spec fn table_within(t: TableExpr, ok: spec_fn(u64) -> bool) -> bool {
    forall|k: u64| #[trigger] table_mentions(t, k) ==> ok(k)
}

/// Every name read by a cell that components read (the first `ROWS` x `COLS`) or by a
/// dimension of `x` satisfies `ok`.
pub open spec fn reads_within(x: Grid<IntExpr>, ok: spec_fn(u64) -> bool) -> bool {
    &&& forall|i: int, j: int| 0 <= i < ROWS && 0 <= j < COLS ==> int_within(#[trigger] x.at(i, j), ok)
    &&& int_within(x.dims.0, ok)
    &&& int_within(x.dims.1, ok)
}

/// Every name read by a cell or a dimension of `g` satisfies `ok`.
pub open spec fn encoding_within(g: Grid<IntExpr>, ok: spec_fn(u64) -> bool) -> bool {
    &&& forall|i: int, j: int| 0 <= i < g.cells.len() && 0 <= j < g.cells[i].len() ==> int_within(#[trigger] g.at(i, j), ok)
    &&& int_within(g.dims.0, ok)
    &&& int_within(g.dims.1, ok)
}

/// Whether a cell that components read, or a dimension, of one of the first `arity`
/// operands reads the name `k`.
pub open spec fn operands_mention(ops: Seq<Grid<IntExpr>>, arity: nat, k: u64) -> bool {
    ||| exists|q: int, i: int, j: int|
        0 <= q < arity && 0 <= i < ROWS && 0 <= j < COLS && #[trigger] int_mentions(ops[q].at(i, j), k)
    ||| exists|q: int| 0 <= q < arity && #[trigger] int_mentions(ops[q].dims.0, k)
    ||| exists|q: int| 0 <= q < arity && #[trigger] int_mentions(ops[q].dims.1, k)
}

/// A name that an encoding may read: one that its operands read, or one of the `count`
/// names from `fresh` on.
pub open spec fn may_read(ops: Seq<Grid<IntExpr>>, arity: nat, fresh: u64, count: nat, k: u64) -> bool {
    operands_mention(ops, arity, k) || (fresh <= k && k < fresh + count)
}

proof fn lemma_operand_reads(ops: Seq<Grid<IntExpr>>, arity: nat, fresh: u64, count: nat, q: int)
    requires
        0 <= q < arity,
    ensures
        reads_within(ops[q], |k: u64| may_read(ops, arity, fresh, count, k)),
{
    let ok = |k: u64| may_read(ops, arity, fresh, count, k);
    assert forall|i: int, j: int| 0 <= i < ROWS && 0 <= j < COLS implies int_within(#[trigger] ops[q].at(i, j), ok) by {
        assert forall|k: u64| #[trigger] int_mentions(ops[q].at(i, j), k) implies ok(k) by {
            assert(operands_mention(ops, arity, k));
        }
    }
    assert forall|k: u64| #[trigger] int_mentions(ops[q].dims.0, k) implies ok(k) by {
        assert(operands_mention(ops, arity, k));
    }
    assert forall|k: u64| #[trigger] int_mentions(ops[q].dims.1, k) implies ok(k) by {
        assert(operands_mention(ops, arity, k));
    }
}

// ---------------------------------------------------------------------------
// Folds read only what their cells read
// ---------------------------------------------------------------------------

proof fn lemma_all_max_within(x: Grid<IntExpr>, ok: spec_fn(u64) -> bool, n: nat)
    requires
        reads_within(x, ok),
        n <= ROWS * COLS,
    ensures
        int_within(all_max(x, n), ok),
    decreases n,
{
    if n > 0 {
        let k = n - 1;
        assert(int_within(x.at(k / COLS as int, k % COLS as int), ok));
        lemma_all_max_within(x, ok, (n - 1) as nat);
    }
}

proof fn lemma_col_max_within(x: Grid<IntExpr>, ok: spec_fn(u64) -> bool, j: int, n: nat)
    requires
        reads_within(x, ok),
        0 <= j < COLS,
        n <= ROWS,
    ensures
        int_within(col_max(x, j, n), ok),
    decreases n,
{
    if n > 0 {
        assert(int_within(x.at(n - 1, j), ok));
        lemma_col_max_within(x, ok, j, (n - 1) as nat);
    }
}

proof fn lemma_row_max_within(x: Grid<IntExpr>, ok: spec_fn(u64) -> bool, i: int, n: nat)
    requires
        reads_within(x, ok),
        0 <= i < ROWS,
        n <= COLS,
    ensures
        int_within(row_max(x, i, n), ok),
    decreases n,
{
    if n > 0 {
        assert(int_within(x.at(i, n - 1), ok));
        lemma_row_max_within(x, ok, i, (n - 1) as nat);
    }
}

proof fn lemma_all_sum_within(x: Grid<IntExpr>, ok: spec_fn(u64) -> bool, n: nat)
    requires
        reads_within(x, ok),
        n <= ROWS * COLS,
    ensures
        int_within(all_sum(x, n), ok),
    decreases n,
{
    if n > 0 {
        let k = n - 1;
        assert(int_within(x.at(k / COLS as int, k % COLS as int), ok));
        lemma_all_sum_within(x, ok, (n - 1) as nat);
    }
}

proof fn lemma_col_sum_within(x: Grid<IntExpr>, ok: spec_fn(u64) -> bool, j: int, n: nat)
    requires
        reads_within(x, ok),
        0 <= j < COLS,
        n <= ROWS,
    ensures
        int_within(col_sum(x, j, n), ok),
    decreases n,
{
    if n > 0 {
        assert(int_within(x.at(n - 1, j), ok));
        lemma_col_sum_within(x, ok, j, (n - 1) as nat);
    }
}

proof fn lemma_row_sum_within(x: Grid<IntExpr>, ok: spec_fn(u64) -> bool, i: int, n: nat)
    requires
        reads_within(x, ok),
        0 <= i < ROWS,
        n <= COLS,
    ensures
        int_within(row_sum(x, i, n), ok),
    decreases n,
{
    if n > 0 {
        assert(int_within(x.at(i, n - 1), ok));
        lemma_row_sum_within(x, ok, i, (n - 1) as nat);
    }
}

proof fn lemma_row_prod_within(x: Grid<IntExpr>, ok: spec_fn(u64) -> bool, i: int, n: nat)
    requires
        reads_within(x, ok),
        0 <= i < ROWS,
        n <= COLS,
    ensures
        int_within(row_prod(x, i, n), ok),
    decreases n,
{
    if n > 0 {
        assert(int_within(x.at(i, n - 1), ok));
        lemma_row_prod_within(x, ok, i, (n - 1) as nat);
    }
}

proof fn lemma_col_any_within(x: Grid<IntExpr>, ok: spec_fn(u64) -> bool, j: int, n: nat)
    requires
        reads_within(x, ok),
        0 <= j < COLS,
        n <= ROWS,
    ensures
        bool_within(col_any(x, j, n), ok),
    decreases n,
{
    if n > 0 {
        assert(int_within(x.at(n - 1, j), ok));
        lemma_col_any_within(x, ok, j, (n - 1) as nat);
    }
}

proof fn lemma_row_any_within(x: Grid<IntExpr>, ok: spec_fn(u64) -> bool, i: int, n: nat)
    requires
        reads_within(x, ok),
        0 <= i < ROWS,
        n <= COLS,
    ensures
        bool_within(row_any(x, i, n), ok),
    decreases n,
{
    if n > 0 {
        assert(int_within(x.at(i, n - 1), ok));
        lemma_row_any_within(x, ok, i, (n - 1) as nat);
    }
}

proof fn lemma_range_value_within(start: IntExpr, ok: spec_fn(u64) -> bool, n: nat)
    requires
        int_within(start, ok),
    ensures
        int_within(range_value(start, n), ok),
    decreases n,
{
    if n > 0 {
        lemma_range_value_within(start, ok, (n - 1) as nat);
    }
}

proof fn lemma_mask_length_within(x: Grid<IntExpr>, ok: spec_fn(u64) -> bool, n: nat)
    requires
        reads_within(x, ok),
        n <= ROWS,
    ensures
        int_within(mask_length(x, n), ok),
    decreases n,
{
    if n > 0 {
        assert(int_within(x.at(0, n - 1), ok));
        lemma_mask_length_within(x, ok, (n - 1) as nat);
    }
}

proof fn lemma_dot_within(x: Grid<IntExpr>, y: Grid<IntExpr>, ok: spec_fn(u64) -> bool, i: int, j: int, n: nat)
    requires
        reads_within(x, ok),
        reads_within(y, ok),
        0 <= i < ROWS,
        0 <= j < ROWS,
        n <= ROWS,
    ensures
        int_within(dot(x, y, i, j, n), ok),
    decreases n,
{
    if n > 0 {
        assert(int_within(x.at(i, n - 1), ok));
        assert(int_within(y.at(n - 1, j), ok));
        lemma_dot_within(x, y, ok, i, j, (n - 1) as nat);
    }
}

proof fn lemma_roll_head_within(x: Grid<IntExpr>, ok: spec_fn(u64) -> bool, i: int, n: nat)
    requires
        reads_within(x, ok),
        0 <= i < ROWS,
        n <= COLS,
    ensures
        int_within(roll_head(x, i, n), ok),
    decreases n,
{
    assert(int_within(x.at(i, 0), ok));
    assert(int_within(x.at(i, COLS - 1), ok));
    if n > 1 {
        assert(int_within(x.at(i, n - 1), ok));
        lemma_roll_head_within(x, ok, i, (n - 1) as nat);
    }
}

proof fn lemma_cumsum_within(x: Grid<IntExpr>, y: Grid<IntExpr>, ok: spec_fn(u64) -> bool, i: int, j: nat)
    requires
        reads_within(x, ok),
        reads_within(y, ok),
        0 <= i < ROWS,
        j <= COLS,
    ensures
        int_within(cumsum(x, y, i, j), ok),
    decreases j,
{
    assert(int_within(y.at(0, 0), ok));
    assert(int_within(x.at(i, 0), ok));
    if j > 0 {
        assert(int_within(x.at(i, j - 1), ok));
        assert(int_within(x.at(i, COLS - 1), ok));
        if j < COLS {
            assert(int_within(x.at(i, j as int), ok));
        }
        lemma_cumsum_within(x, y, ok, i, (j - 1) as nat);
    }
}

proof fn lemma_bin_length_within(x: Grid<IntExpr>, ok: spec_fn(u64) -> bool, n: nat)
    requires
        reads_within(x, ok),
        n <= ROWS * COLS,
    ensures
        int_within(bin_length(x, n), ok),
    decreases n,
{
    if n > 0 {
        let k = n - 1;
        assert(int_within(x.at(k / COLS as int, k % COLS as int), ok));
        lemma_bin_length_within(x, ok, (n - 1) as nat);
    }
}

proof fn lemma_bin_count_within(x: Grid<IntExpr>, ok: spec_fn(u64) -> bool, i: int, k: int, n: nat)
    requires
        reads_within(x, ok),
        0 <= i < ROWS,
        n <= COLS,
    ensures
        int_within(bin_count(x, i, k, n), ok),
    decreases n,
{
    if n > 0 {
        assert(int_within(x.at(i, n - 1), ok));
        lemma_bin_count_within(x, ok, i, k, (n - 1) as nat);
    }
}

proof fn lemma_row_peak_within(x: Grid<IntExpr>, ok: spec_fn(u64) -> bool, i: int, n: nat)
    requires
        reads_within(x, ok),
        0 <= i < ROWS,
        n <= COLS,
    ensures
        int_within(row_peak(x.cells[i], n), ok),
    decreases n,
{
    if n > 0 {
        assert(int_within(x.at(i, n - 1), ok));
        lemma_row_peak_within(x, ok, i, (n - 1) as nat);
    }
}

proof fn lemma_argmax_index_within(x: Grid<IntExpr>, ok: spec_fn(u64) -> bool, i: int, m: IntExpr, j: nat)
    requires
        reads_within(x, ok),
        int_within(m, ok),
        0 <= i < ROWS,
        j <= COLS,
    ensures
        int_within(argmax_index(x.cells[i], m, j), ok),
    decreases COLS - j,
{
    if j < COLS {
        assert(int_within(x.at(i, j as int), ok));
        lemma_argmax_index_within(x, ok, i, m, j + 1);
    }
}

proof fn lemma_concat0_within(
    x: Grid<IntExpr>,
    y: Grid<IntExpr>,
    ok: spec_fn(u64) -> bool,
    fresh: u64,
    j: int,
    n: nat,
)
    requires
        reads_within(x, ok),
        reads_within(y, ok),
        0 <= j < COLS,
        n <= 2 * ROWS,
        fresh + COLS <= u64::MAX,
        forall|k: u64| fresh <= k < fresh + COLS ==> #[trigger] ok(k),
    ensures
        array_within(concat0_array(x, y, fresh, j, n), ok),
    decreases n,
{
    if n == 0 {
        assert(ok((fresh + j) as u64));
    } else {
        if n <= ROWS {
            assert(int_within(x.at(n - 1, j), ok));
        } else {
            assert(int_within(y.at(n - 1 - ROWS, j), ok));
        }
        lemma_concat0_within(x, y, ok, fresh, j, (n - 1) as nat);
    }
}

proof fn lemma_concat1_within(
    x: Grid<IntExpr>,
    y: Grid<IntExpr>,
    ok: spec_fn(u64) -> bool,
    fresh: u64,
    i: int,
    n: nat,
)
    requires
        reads_within(x, ok),
        reads_within(y, ok),
        0 <= i < ROWS,
        n <= 2 * COLS,
        fresh + ROWS <= u64::MAX,
        forall|k: u64| fresh <= k < fresh + ROWS ==> #[trigger] ok(k),
    ensures
        array_within(concat1_array(x, y, fresh, i, n), ok),
    decreases n,
{
    if n == 0 {
        assert(ok((fresh + i) as u64));
    } else {
        if n <= COLS {
            assert(int_within(x.at(i, n - 1), ok));
        } else {
            assert(int_within(y.at(i, n - 1 - COLS), ok));
        }
        lemma_concat1_within(x, y, ok, fresh, i, (n - 1) as nat);
    }
}

proof fn lemma_segment_array_within(
    x: Grid<IntExpr>,
    y: Grid<IntExpr>,
    ok: spec_fn(u64) -> bool,
    fresh: u64,
    i: int,
    n: nat,
)
    requires
        reads_within(x, ok),
        reads_within(y, ok),
        0 <= i < ROWS,
        n <= COLS,
        fresh + ROWS <= u64::MAX,
        forall|k: u64| fresh <= k < fresh + ROWS ==> #[trigger] ok(k),
    ensures
        array_within(segment_array(x, y, fresh, i, n), ok),
    decreases n,
{
    if n == 0 {
        assert(ok((fresh + i) as u64));
    } else {
        assert(int_within(x.at(i, n - 1), ok));
        assert(int_within(y.at(i, n - 1), ok));
        lemma_segment_array_within(x, y, ok, fresh, i, (n - 1) as nat);
    }
}

proof fn lemma_segment_count_within(
    x: Grid<IntExpr>,
    y: Grid<IntExpr>,
    ok: spec_fn(u64) -> bool,
    fresh: u64,
    n: nat,
)
    requires
        reads_within(x, ok),
        reads_within(y, ok),
        n <= ROWS * COLS,
        fresh + ROWS <= u64::MAX,
        forall|k: u64| fresh <= k < fresh + ROWS ==> #[trigger] ok(k),
    ensures
        int_within(segment_count(x, y, fresh, n), ok),
    decreases n,
{
    if n > 0 {
        let k = n - 1;
        let i = k / COLS as int;
        let j = k % COLS as int;
        assert(int_within(x.at(i, j), ok));
        lemma_segment_array_within(x, y, ok, fresh, i, j as nat);
        lemma_segment_count_within(x, y, ok, fresh, (n - 1) as nat);
    }
}

proof fn lemma_mask_state_within(
    x: Grid<IntExpr>,
    m: Grid<IntExpr>,
    ok: spec_fn(u64) -> bool,
    fresh: u64,
    by_row: bool,
    n: nat,
)
    requires
        reads_within(x, ok),
        reads_within(m, ok),
        n <= ROWS * COLS,
        ok(fresh),
    ensures
        array_within(mask_state(x, m, fresh, by_row, n).0, ok),
        int_within(mask_state(x, m, fresh, by_row, n).1, ok),
    decreases n,
{
    if n > 0 {
        let k = n - 1;
        let i = k / COLS as int;
        let j = k % COLS as int;
        assert(int_within(x.at(i, j), ok));
        assert(int_within(m.at(i, j), ok));
        assert(int_within(m.at(0, i), ok));
        lemma_mask_state_within(x, m, ok, fresh, by_row, (n - 1) as nat);
    }
}

proof fn lemma_mask_width_within(
    x: Grid<IntExpr>,
    m: Grid<IntExpr>,
    ok: spec_fn(u64) -> bool,
    fresh: u64,
    by_row: bool,
    n: nat,
)
    requires
        reads_within(x, ok),
        reads_within(m, ok),
        n <= ROWS,
        ok(fresh),
    ensures
        int_within(mask_width(x, m, fresh, by_row, n), ok),
    decreases n,
{
    if n > 0 {
        lemma_mask_state_within(x, m, ok, fresh, by_row, (n * COLS) as nat);
        lemma_mask_width_within(x, m, ok, fresh, by_row, (n - 1) as nat);
    }
}

proof fn lemma_mask_table_within(x: Grid<IntExpr>, m: Grid<IntExpr>, ok: spec_fn(u64) -> bool, fresh: u64, n: nat)
    requires
        reads_within(x, ok),
        reads_within(m, ok),
        n <= ROWS,
        fresh + 2 <= u64::MAX,
        ok(fresh),
        ok((fresh + 1) as u64),
    ensures
        table_within(mask_table(x, m, fresh, n).0, ok),
        int_within(mask_table(x, m, fresh, n).1, ok),
    decreases n,
{
    if n > 0 {
        assert(int_within(m.at(0, n - 1), ok));
        lemma_mask_state_within(x, m, ok, fresh, true, (n * COLS) as nat);
        lemma_mask_table_within(x, m, ok, fresh, (n - 1) as nat);
    }
}

proof fn lemma_where_state_within(x: Grid<IntExpr>, ok: spec_fn(u64) -> bool, fresh: u64, n: nat)
    requires
        reads_within(x, ok),
        n <= ROWS * COLS,
        fresh + 1 + ROWS * COLS <= u64::MAX,
        forall|k: u64| fresh <= k < fresh + 1 + ROWS * COLS ==> #[trigger] ok(k),
    ensures
        table_within(where_state(x, fresh, n).0, ok),
        int_within(where_state(x, fresh, n).1, ok),
    decreases n,
{
    if n == 0 {
        assert(ok(fresh));
    } else {
        let k = n - 1;
        assert(int_within(x.at(k / COLS as int, k % COLS as int), ok));
        assert(ok((fresh + 1 + k) as u64));
        lemma_where_state_within(x, ok, fresh, (n - 1) as nat);
    }
}

// ---------------------------------------------------------------------------
// Each component reads only its operands' names and its own
// ---------------------------------------------------------------------------

proof fn lemma_tf_add_reads(ops: Seq<Grid<IntExpr>>, fresh: u64, arity: nat, count: nat)
    requires
        ops.len() >= 2,
        arity == 2,
        count == 0,
        fresh + count <= u64::MAX,
    ensures
        encoding_within(TfAdd.spec_expression(ops, fresh), |k: u64| may_read(ops, arity, fresh, count, k)),
{
    let ok = |k: u64| may_read(ops, arity, fresh, count, k);
    lemma_operand_reads(ops, arity, fresh, count, 0);
    lemma_operand_reads(ops, arity, fresh, count, 1);
    assert forall|k: u64| fresh <= k < fresh + count implies #[trigger] ok(k) by {}
    let g = TfAdd.spec_expression(ops, fresh);
    assert forall|i: int, j: int| 0 <= i < g.cells.len() && 0 <= j < g.cells[i].len() implies int_within(#[trigger] g.at(i, j), ok) by {
        assert(int_within(ops[0].at(i, j), ok));
        assert(int_within(ops[1].at(i, j), ok));
    }
    
}

proof fn lemma_tf_argmax_reads(ops: Seq<Grid<IntExpr>>, fresh: u64, arity: nat, count: nat)
    requires
        ops.len() >= 1,
        arity == 1,
        count == 0,
        fresh + count <= u64::MAX,
    ensures
        encoding_within(TfArgmax.spec_expression(ops, fresh), |k: u64| may_read(ops, arity, fresh, count, k)),
{
    let ok = |k: u64| may_read(ops, arity, fresh, count, k);
    lemma_operand_reads(ops, arity, fresh, count, 0);
    assert forall|k: u64| fresh <= k < fresh + count implies #[trigger] ok(k) by {}
    let g = TfArgmax.spec_expression(ops, fresh);
    assert forall|i: int, j: int| 0 <= i < g.cells.len() && 0 <= j < g.cells[i].len() implies int_within(#[trigger] g.at(i, j), ok) by {
        if j < ROWS { lemma_row_peak_within(ops[0], ok, j, COLS as nat); lemma_argmax_index_within(ops[0], ok, j, row_peak(ops[0].cells[j], COLS as nat), 0); }
    }
    
}

proof fn lemma_tf_boolean_mask_reads(ops: Seq<Grid<IntExpr>>, fresh: u64, arity: nat, count: nat)
    requires
        ops.len() >= 2,
        arity == 2,
        count == 1,
        fresh + count <= u64::MAX,
    ensures
        encoding_within(TfBooleanMask.spec_expression(ops, fresh), |k: u64| may_read(ops, arity, fresh, count, k)),
{
    let ok = |k: u64| may_read(ops, arity, fresh, count, k);
    lemma_operand_reads(ops, arity, fresh, count, 0);
    lemma_operand_reads(ops, arity, fresh, count, 1);
    assert forall|k: u64| fresh <= k < fresh + count implies #[trigger] ok(k) by {}
    let g = TfBooleanMask.spec_expression(ops, fresh);
    assert forall|i: int, j: int| 0 <= i < g.cells.len() && 0 <= j < g.cells[i].len() implies int_within(#[trigger] g.at(i, j), ok) by {
        lemma_mask_state_within(ops[0], ops[1], ok, fresh, false, ((i + 1) * COLS) as nat);
    }
    lemma_mask_width_within(ops[0], ops[1], ok, fresh, false, ROWS as nat);
}

proof fn lemma_tf_boolean_mask_rows_reads(ops: Seq<Grid<IntExpr>>, fresh: u64, arity: nat, count: nat)
    requires
        ops.len() >= 2,
        arity == 2,
        count == 2,
        fresh + count <= u64::MAX,
    ensures
        encoding_within(TfBooleanMask_.spec_expression(ops, fresh), |k: u64| may_read(ops, arity, fresh, count, k)),
{
    let ok = |k: u64| may_read(ops, arity, fresh, count, k);
    lemma_operand_reads(ops, arity, fresh, count, 0);
    lemma_operand_reads(ops, arity, fresh, count, 1);
    assert forall|k: u64| fresh <= k < fresh + count implies #[trigger] ok(k) by {}
    let g = TfBooleanMask_.spec_expression(ops, fresh);
    assert forall|i: int, j: int| 0 <= i < g.cells.len() && 0 <= j < g.cells[i].len() implies int_within(#[trigger] g.at(i, j), ok) by {
        lemma_mask_table_within(ops[0], ops[1], ok, fresh, ROWS as nat);
    }
    lemma_mask_table_within(ops[0], ops[1], ok, fresh, ROWS as nat);
    lemma_mask_width_within(ops[0], ops[1], ok, fresh, true, ROWS as nat);
}

proof fn lemma_tf_cast_reads(ops: Seq<Grid<IntExpr>>, fresh: u64, arity: nat, count: nat)
    requires
        ops.len() >= 1,
        arity == 1,
        count == 0,
        fresh + count <= u64::MAX,
    ensures
        encoding_within(TfCast.spec_expression(ops, fresh), |k: u64| may_read(ops, arity, fresh, count, k)),
{
    let ok = |k: u64| may_read(ops, arity, fresh, count, k);
    lemma_operand_reads(ops, arity, fresh, count, 0);
    assert forall|k: u64| fresh <= k < fresh + count implies #[trigger] ok(k) by {}
    let g = TfCast.spec_expression(ops, fresh);
    assert forall|i: int, j: int| 0 <= i < g.cells.len() && 0 <= j < g.cells[i].len() implies int_within(#[trigger] g.at(i, j), ok) by {
        assert(int_within(ops[0].at(i, j), ok));
    }
    
}

proof fn lemma_tf_concat0_reads(ops: Seq<Grid<IntExpr>>, fresh: u64, arity: nat, count: nat)
    requires
        ops.len() >= 2,
        arity == 2,
        count == COLS as nat,
        fresh + count <= u64::MAX,
    ensures
        encoding_within(TfConcat0.spec_expression(ops, fresh), |k: u64| may_read(ops, arity, fresh, count, k)),
{
    let ok = |k: u64| may_read(ops, arity, fresh, count, k);
    lemma_operand_reads(ops, arity, fresh, count, 0);
    lemma_operand_reads(ops, arity, fresh, count, 1);
    assert forall|k: u64| fresh <= k < fresh + count implies #[trigger] ok(k) by {}
    let g = TfConcat0.spec_expression(ops, fresh);
    assert forall|i: int, j: int| 0 <= i < g.cells.len() && 0 <= j < g.cells[i].len() implies int_within(#[trigger] g.at(i, j), ok) by {
        lemma_concat0_within(ops[0], ops[1], ok, fresh, j, 2 * ROWS as nat);
    }
    
}

proof fn lemma_tf_concat1_reads(ops: Seq<Grid<IntExpr>>, fresh: u64, arity: nat, count: nat)
    requires
        ops.len() >= 2,
        arity == 2,
        count == ROWS as nat,
        fresh + count <= u64::MAX,
    ensures
        encoding_within(TfConcat1.spec_expression(ops, fresh), |k: u64| may_read(ops, arity, fresh, count, k)),
{
    let ok = |k: u64| may_read(ops, arity, fresh, count, k);
    lemma_operand_reads(ops, arity, fresh, count, 0);
    lemma_operand_reads(ops, arity, fresh, count, 1);
    assert forall|k: u64| fresh <= k < fresh + count implies #[trigger] ok(k) by {}
    let g = TfConcat1.spec_expression(ops, fresh);
    assert forall|i: int, j: int| 0 <= i < g.cells.len() && 0 <= j < g.cells[i].len() implies int_within(#[trigger] g.at(i, j), ok) by {
        lemma_concat1_within(ops[0], ops[1], ok, fresh, i, 2 * COLS as nat);
    }
    
}

proof fn lemma_tf_constant_reads(ops: Seq<Grid<IntExpr>>, fresh: u64, arity: nat, count: nat)
    requires
        ops.len() >= 1,
        arity == 1,
        count == 0,
        fresh + count <= u64::MAX,
    ensures
        encoding_within(TfConstant.spec_expression(ops, fresh), |k: u64| may_read(ops, arity, fresh, count, k)),
{
    let ok = |k: u64| may_read(ops, arity, fresh, count, k);
    lemma_operand_reads(ops, arity, fresh, count, 0);
    assert forall|k: u64| fresh <= k < fresh + count implies #[trigger] ok(k) by {}
    let g = TfConstant.spec_expression(ops, fresh);
    assert forall|i: int, j: int| 0 <= i < g.cells.len() && 0 <= j < g.cells[i].len() implies int_within(#[trigger] g.at(i, j), ok) by {
        assert(int_within(ops[0].at(i, j), ok));
    }
    
}

proof fn lemma_tf_divide_reads(ops: Seq<Grid<IntExpr>>, fresh: u64, arity: nat, count: nat)
    requires
        ops.len() >= 2,
        arity == 2,
        count == 0,
        fresh + count <= u64::MAX,
    ensures
        encoding_within(TfDivide.spec_expression(ops, fresh), |k: u64| may_read(ops, arity, fresh, count, k)),
{
    let ok = |k: u64| may_read(ops, arity, fresh, count, k);
    lemma_operand_reads(ops, arity, fresh, count, 0);
    lemma_operand_reads(ops, arity, fresh, count, 1);
    assert forall|k: u64| fresh <= k < fresh + count implies #[trigger] ok(k) by {}
    let g = TfDivide.spec_expression(ops, fresh);
    assert forall|i: int, j: int| 0 <= i < g.cells.len() && 0 <= j < g.cells[i].len() implies int_within(#[trigger] g.at(i, j), ok) by {
        assert(int_within(ops[0].at(i, j), ok));
        assert(int_within(ops[1].at(i, j), ok));
    }
    
}

proof fn lemma_tf_equal_reads(ops: Seq<Grid<IntExpr>>, fresh: u64, arity: nat, count: nat)
    requires
        ops.len() >= 2,
        arity == 2,
        count == 0,
        fresh + count <= u64::MAX,
    ensures
        encoding_within(TfEqual.spec_expression(ops, fresh), |k: u64| may_read(ops, arity, fresh, count, k)),
{
    let ok = |k: u64| may_read(ops, arity, fresh, count, k);
    lemma_operand_reads(ops, arity, fresh, count, 0);
    lemma_operand_reads(ops, arity, fresh, count, 1);
    assert forall|k: u64| fresh <= k < fresh + count implies #[trigger] ok(k) by {}
    let g = TfEqual.spec_expression(ops, fresh);
    assert forall|i: int, j: int| 0 <= i < g.cells.len() && 0 <= j < g.cells[i].len() implies int_within(#[trigger] g.at(i, j), ok) by {
        assert(int_within(ops[0].at(i, j), ok));
        assert(int_within(ops[1].at(i, j), ok));
    }
    
}

proof fn lemma_tf_expand_dims_reads(ops: Seq<Grid<IntExpr>>, fresh: u64, arity: nat, count: nat)
    requires
        ops.len() >= 1,
        arity == 1,
        count == 0,
        fresh + count <= u64::MAX,
    ensures
        encoding_within(TfExpandDims.spec_expression(ops, fresh), |k: u64| may_read(ops, arity, fresh, count, k)),
{
    let ok = |k: u64| may_read(ops, arity, fresh, count, k);
    lemma_operand_reads(ops, arity, fresh, count, 0);
    assert forall|k: u64| fresh <= k < fresh + count implies #[trigger] ok(k) by {}
    let g = TfExpandDims.spec_expression(ops, fresh);
    assert forall|i: int, j: int| 0 <= i < g.cells.len() && 0 <= j < g.cells[i].len() implies int_within(#[trigger] g.at(i, j), ok) by {
        assert(int_within(ops[0].at(ROWS - 1, i), ok));
    }
    
}

proof fn lemma_tf_greater_reads(ops: Seq<Grid<IntExpr>>, fresh: u64, arity: nat, count: nat)
    requires
        ops.len() >= 2,
        arity == 2,
        count == 0,
        fresh + count <= u64::MAX,
    ensures
        encoding_within(TfGreater.spec_expression(ops, fresh), |k: u64| may_read(ops, arity, fresh, count, k)),
{
    let ok = |k: u64| may_read(ops, arity, fresh, count, k);
    lemma_operand_reads(ops, arity, fresh, count, 0);
    lemma_operand_reads(ops, arity, fresh, count, 1);
    assert forall|k: u64| fresh <= k < fresh + count implies #[trigger] ok(k) by {}
    let g = TfGreater.spec_expression(ops, fresh);
    assert forall|i: int, j: int| 0 <= i < g.cells.len() && 0 <= j < g.cells[i].len() implies int_within(#[trigger] g.at(i, j), ok) by {
        assert(int_within(ops[0].at(i, j), ok));
        assert(int_within(ops[1].at(i, j), ok));
    }
    
}

proof fn lemma_tf_bincount_reads(ops: Seq<Grid<IntExpr>>, fresh: u64, arity: nat, count: nat)
    requires
        ops.len() >= 1,
        arity == 1,
        count == 0,
        fresh + count <= u64::MAX,
    ensures
        encoding_within(TfBincount.spec_expression(ops, fresh), |k: u64| may_read(ops, arity, fresh, count, k)),
{
    let ok = |k: u64| may_read(ops, arity, fresh, count, k);
    lemma_operand_reads(ops, arity, fresh, count, 0);
    assert forall|k: u64| fresh <= k < fresh + count implies #[trigger] ok(k) by {}
    let g = TfBincount.spec_expression(ops, fresh);
    assert forall|i: int, j: int| 0 <= i < g.cells.len() && 0 <= j < g.cells[i].len() implies int_within(#[trigger] g.at(i, j), ok) by {
        lemma_bin_count_within(ops[0], ok, i, j, COLS as nat);
    }
    lemma_bin_length_within(ops[0], ok, (ROWS * COLS) as nat);
}

proof fn lemma_tf_cumsum_reads(ops: Seq<Grid<IntExpr>>, fresh: u64, arity: nat, count: nat)
    requires
        ops.len() >= 2,
        arity == 2,
        count == 0,
        fresh + count <= u64::MAX,
    ensures
        encoding_within(TfCumsum.spec_expression(ops, fresh), |k: u64| may_read(ops, arity, fresh, count, k)),
{
    let ok = |k: u64| may_read(ops, arity, fresh, count, k);
    lemma_operand_reads(ops, arity, fresh, count, 0);
    lemma_operand_reads(ops, arity, fresh, count, 1);
    assert forall|k: u64| fresh <= k < fresh + count implies #[trigger] ok(k) by {}
    let g = TfCumsum.spec_expression(ops, fresh);
    assert forall|i: int, j: int| 0 <= i < g.cells.len() && 0 <= j < g.cells[i].len() implies int_within(#[trigger] g.at(i, j), ok) by {
        lemma_cumsum_within(ops[0], ops[1], ok, i, j as nat);
    }
    
}

proof fn lemma_tf_multiply_reads(ops: Seq<Grid<IntExpr>>, fresh: u64, arity: nat, count: nat)
    requires
        ops.len() >= 2,
        arity == 2,
        count == 0,
        fresh + count <= u64::MAX,
    ensures
        encoding_within(TfMultiply.spec_expression(ops, fresh), |k: u64| may_read(ops, arity, fresh, count, k)),
{
    let ok = |k: u64| may_read(ops, arity, fresh, count, k);
    lemma_operand_reads(ops, arity, fresh, count, 0);
    lemma_operand_reads(ops, arity, fresh, count, 1);
    assert forall|k: u64| fresh <= k < fresh + count implies #[trigger] ok(k) by {}
    let g = TfMultiply.spec_expression(ops, fresh);
    assert forall|i: int, j: int| 0 <= i < g.cells.len() && 0 <= j < g.cells[i].len() implies int_within(#[trigger] g.at(i, j), ok) by {
        assert(int_within(ops[0].at(i, j), ok));
        assert(int_within(ops[1].at(i, j), ok));
    }
    
}

proof fn lemma_tf_range_reads(ops: Seq<Grid<IntExpr>>, fresh: u64, arity: nat, count: nat)
    requires
        ops.len() >= 2,
        arity == 2,
        count == 0,
        fresh + count <= u64::MAX,
    ensures
        encoding_within(TfRange.spec_expression(ops, fresh), |k: u64| may_read(ops, arity, fresh, count, k)),
{
    let ok = |k: u64| may_read(ops, arity, fresh, count, k);
    lemma_operand_reads(ops, arity, fresh, count, 0);
    lemma_operand_reads(ops, arity, fresh, count, 1);
    assert forall|k: u64| fresh <= k < fresh + count implies #[trigger] ok(k) by {}
    let g = TfRange.spec_expression(ops, fresh);
    assert forall|i: int, j: int| 0 <= i < g.cells.len() && 0 <= j < g.cells[i].len() implies int_within(#[trigger] g.at(i, j), ok) by {
        assert(int_within(ops[0].at(0, 0), ok));
        assert(int_within(ops[1].at(0, 0), ok));
        lemma_range_value_within(ops[0].at(0, 0), ok, j as nat);
    }
    assert(int_within(ops[0].at(0, 0), ok));
    assert(int_within(ops[1].at(0, 0), ok));
}

proof fn lemma_tf_sequence_mask_reads(ops: Seq<Grid<IntExpr>>, fresh: u64, arity: nat, count: nat)
    requires
        ops.len() >= 1,
        arity == 1,
        count == 0,
        fresh + count <= u64::MAX,
    ensures
        encoding_within(TfSequenceMask.spec_expression(ops, fresh), |k: u64| may_read(ops, arity, fresh, count, k)),
{
    let ok = |k: u64| may_read(ops, arity, fresh, count, k);
    lemma_operand_reads(ops, arity, fresh, count, 0);
    assert forall|k: u64| fresh <= k < fresh + count implies #[trigger] ok(k) by {}
    let g = TfSequenceMask.spec_expression(ops, fresh);
    assert forall|i: int, j: int| 0 <= i < g.cells.len() && 0 <= j < g.cells[i].len() implies int_within(#[trigger] g.at(i, j), ok) by {
        assert(int_within(ops[0].at(0, i), ok));
    }
    lemma_mask_length_within(ops[0], ok, ROWS as nat);
}

proof fn lemma_tf_square_reads(ops: Seq<Grid<IntExpr>>, fresh: u64, arity: nat, count: nat)
    requires
        ops.len() >= 1,
        arity == 1,
        count == 0,
        fresh + count <= u64::MAX,
    ensures
        encoding_within(TfSquare.spec_expression(ops, fresh), |k: u64| may_read(ops, arity, fresh, count, k)),
{
    let ok = |k: u64| may_read(ops, arity, fresh, count, k);
    lemma_operand_reads(ops, arity, fresh, count, 0);
    assert forall|k: u64| fresh <= k < fresh + count implies #[trigger] ok(k) by {}
    let g = TfSquare.spec_expression(ops, fresh);
    assert forall|i: int, j: int| 0 <= i < g.cells.len() && 0 <= j < g.cells[i].len() implies int_within(#[trigger] g.at(i, j), ok) by {
        assert(int_within(ops[0].at(i, j), ok));
    }
    
}

proof fn lemma_tf_subtract_reads(ops: Seq<Grid<IntExpr>>, fresh: u64, arity: nat, count: nat)
    requires
        ops.len() >= 2,
        arity == 2,
        count == 0,
        fresh + count <= u64::MAX,
    ensures
        encoding_within(TfSubtract.spec_expression(ops, fresh), |k: u64| may_read(ops, arity, fresh, count, k)),
{
    let ok = |k: u64| may_read(ops, arity, fresh, count, k);
    lemma_operand_reads(ops, arity, fresh, count, 0);
    lemma_operand_reads(ops, arity, fresh, count, 1);
    assert forall|k: u64| fresh <= k < fresh + count implies #[trigger] ok(k) by {}
    let g = TfSubtract.spec_expression(ops, fresh);
    assert forall|i: int, j: int| 0 <= i < g.cells.len() && 0 <= j < g.cells[i].len() implies int_within(#[trigger] g.at(i, j), ok) by {
        assert(int_within(ops[0].at(i, j), ok));
        assert(int_within(ops[1].at(i, j), ok));
    }
    
}

proof fn lemma_tf_tensordot_reads(ops: Seq<Grid<IntExpr>>, fresh: u64, arity: nat, count: nat)
    requires
        ops.len() >= 2,
        arity == 2,
        count == 0,
        fresh + count <= u64::MAX,
    ensures
        encoding_within(TfTensordot.spec_expression(ops, fresh), |k: u64| may_read(ops, arity, fresh, count, k)),
{
    let ok = |k: u64| may_read(ops, arity, fresh, count, k);
    lemma_operand_reads(ops, arity, fresh, count, 0);
    lemma_operand_reads(ops, arity, fresh, count, 1);
    assert forall|k: u64| fresh <= k < fresh + count implies #[trigger] ok(k) by {}
    let g = TfTensordot.spec_expression(ops, fresh);
    assert forall|i: int, j: int| 0 <= i < g.cells.len() && 0 <= j < g.cells[i].len() implies int_within(#[trigger] g.at(i, j), ok) by {
        if j < ROWS { lemma_dot_within(ops[0], ops[1], ok, i, j, ROWS as nat); }
    }
    
}

proof fn lemma_tf_transpose_reads(ops: Seq<Grid<IntExpr>>, fresh: u64, arity: nat, count: nat)
    requires
        ops.len() >= 1,
        arity == 1,
        count == 0,
        fresh + count <= u64::MAX,
    ensures
        encoding_within(TfTranspose.spec_expression(ops, fresh), |k: u64| may_read(ops, arity, fresh, count, k)),
{
    let ok = |k: u64| may_read(ops, arity, fresh, count, k);
    lemma_operand_reads(ops, arity, fresh, count, 0);
    assert forall|k: u64| fresh <= k < fresh + count implies #[trigger] ok(k) by {}
    let g = TfTranspose.spec_expression(ops, fresh);
    assert forall|i: int, j: int| 0 <= i < g.cells.len() && 0 <= j < g.cells[i].len() implies int_within(#[trigger] g.at(i, j), ok) by {
        if j < ROWS { assert(int_within(ops[0].at(j, i), ok)); }
    }
    
}

proof fn lemma_tf_where1_reads(ops: Seq<Grid<IntExpr>>, fresh: u64, arity: nat, count: nat)
    requires
        ops.len() >= 1,
        arity == 1,
        count == (1 + ROWS * COLS) as nat,
        fresh + count <= u64::MAX,
    ensures
        encoding_within(TfWhere1.spec_expression(ops, fresh), |k: u64| may_read(ops, arity, fresh, count, k)),
{
    let ok = |k: u64| may_read(ops, arity, fresh, count, k);
    lemma_operand_reads(ops, arity, fresh, count, 0);
    assert forall|k: u64| fresh <= k < fresh + count implies #[trigger] ok(k) by {}
    let g = TfWhere1.spec_expression(ops, fresh);
    assert forall|i: int, j: int| 0 <= i < g.cells.len() && 0 <= j < g.cells[i].len() implies int_within(#[trigger] g.at(i, j), ok) by {
        lemma_where_state_within(ops[0], ok, fresh, (ROWS * COLS) as nat);
    }
    lemma_where_state_within(ops[0], ok, fresh, (ROWS * COLS) as nat);
}

proof fn lemma_tf_where3_reads(ops: Seq<Grid<IntExpr>>, fresh: u64, arity: nat, count: nat)
    requires
        ops.len() >= 3,
        arity == 3,
        count == 0,
        fresh + count <= u64::MAX,
    ensures
        encoding_within(TfWhere3.spec_expression(ops, fresh), |k: u64| may_read(ops, arity, fresh, count, k)),
{
    let ok = |k: u64| may_read(ops, arity, fresh, count, k);
    lemma_operand_reads(ops, arity, fresh, count, 0);
    lemma_operand_reads(ops, arity, fresh, count, 1);
    lemma_operand_reads(ops, arity, fresh, count, 2);
    assert forall|k: u64| fresh <= k < fresh + count implies #[trigger] ok(k) by {}
    let g = TfWhere3.spec_expression(ops, fresh);
    assert forall|i: int, j: int| 0 <= i < g.cells.len() && 0 <= j < g.cells[i].len() implies int_within(#[trigger] g.at(i, j), ok) by {
        assert(int_within(ops[0].at(i, j), ok));
        assert(int_within(ops[1].at(i, j), ok));
        assert(int_within(ops[2].at(i, j), ok));
    }
    
}

proof fn lemma_tf_eye_reads(ops: Seq<Grid<IntExpr>>, fresh: u64, arity: nat, count: nat)
    requires
        ops.len() >= 2,
        arity == 2,
        count == 0,
        fresh + count <= u64::MAX,
    ensures
        encoding_within(TfEye.spec_expression(ops, fresh), |k: u64| may_read(ops, arity, fresh, count, k)),
{
    let ok = |k: u64| may_read(ops, arity, fresh, count, k);
    lemma_operand_reads(ops, arity, fresh, count, 0);
    lemma_operand_reads(ops, arity, fresh, count, 1);
    assert forall|k: u64| fresh <= k < fresh + count implies #[trigger] ok(k) by {}
    let g = TfEye.spec_expression(ops, fresh);
    assert forall|i: int, j: int| 0 <= i < g.cells.len() && 0 <= j < g.cells[i].len() implies int_within(#[trigger] g.at(i, j), ok) by {
        assert(int_within(ops[0].at(0, 0), ok));
        assert(int_within(ops[1].at(0, 0), ok));
    }
    assert(int_within(ops[0].at(0, 0), ok));
    assert(int_within(ops[1].at(0, 0), ok));
}

proof fn lemma_tf_fill_reads(ops: Seq<Grid<IntExpr>>, fresh: u64, arity: nat, count: nat)
    requires
        ops.len() >= 2,
        arity == 2,
        count == 0,
        fresh + count <= u64::MAX,
    ensures
        encoding_within(TfFill.spec_expression(ops, fresh), |k: u64| may_read(ops, arity, fresh, count, k)),
{
    let ok = |k: u64| may_read(ops, arity, fresh, count, k);
    lemma_operand_reads(ops, arity, fresh, count, 0);
    lemma_operand_reads(ops, arity, fresh, count, 1);
    assert forall|k: u64| fresh <= k < fresh + count implies #[trigger] ok(k) by {}
    let g = TfFill.spec_expression(ops, fresh);
    assert forall|i: int, j: int| 0 <= i < g.cells.len() && 0 <= j < g.cells[i].len() implies int_within(#[trigger] g.at(i, j), ok) by {
        assert(int_within(ops[0].at(0, 0), ok));
        assert(int_within(ops[0].at(0, 1), ok));
        assert(int_within(ops[1].at(0, 0), ok));
    }
    assert(int_within(ops[0].at(0, 0), ok));
    assert(int_within(ops[0].at(0, 1), ok));
}

proof fn lemma_tf_matmul_reads(ops: Seq<Grid<IntExpr>>, fresh: u64, arity: nat, count: nat)
    requires
        ops.len() >= 2,
        arity == 2,
        count == 0,
        fresh + count <= u64::MAX,
    ensures
        encoding_within(TfMatmul.spec_expression(ops, fresh), |k: u64| may_read(ops, arity, fresh, count, k)),
{
    let ok = |k: u64| may_read(ops, arity, fresh, count, k);
    lemma_operand_reads(ops, arity, fresh, count, 0);
    lemma_operand_reads(ops, arity, fresh, count, 1);
    assert forall|k: u64| fresh <= k < fresh + count implies #[trigger] ok(k) by {}
    let g = TfMatmul.spec_expression(ops, fresh);
    assert forall|i: int, j: int| 0 <= i < g.cells.len() && 0 <= j < g.cells[i].len() implies int_within(#[trigger] g.at(i, j), ok) by {
        if j < ROWS { lemma_dot_within(ops[0], ops[1], ok, i, j, ROWS as nat); }
    }
    
}

proof fn lemma_tf_maximum_reads(ops: Seq<Grid<IntExpr>>, fresh: u64, arity: nat, count: nat)
    requires
        ops.len() >= 2,
        arity == 2,
        count == 0,
        fresh + count <= u64::MAX,
    ensures
        encoding_within(TfMaximum.spec_expression(ops, fresh), |k: u64| may_read(ops, arity, fresh, count, k)),
{
    let ok = |k: u64| may_read(ops, arity, fresh, count, k);
    lemma_operand_reads(ops, arity, fresh, count, 0);
    lemma_operand_reads(ops, arity, fresh, count, 1);
    assert forall|k: u64| fresh <= k < fresh + count implies #[trigger] ok(k) by {}
    let g = TfMaximum.spec_expression(ops, fresh);
    assert forall|i: int, j: int| 0 <= i < g.cells.len() && 0 <= j < g.cells[i].len() implies int_within(#[trigger] g.at(i, j), ok) by {
        assert(int_within(ops[0].at(i, j), ok));
        assert(int_within(ops[1].at(i, j), ok));
    }
    
}

proof fn lemma_tf_minimum_reads(ops: Seq<Grid<IntExpr>>, fresh: u64, arity: nat, count: nat)
    requires
        ops.len() >= 2,
        arity == 2,
        count == 0,
        fresh + count <= u64::MAX,
    ensures
        encoding_within(TfMinimum.spec_expression(ops, fresh), |k: u64| may_read(ops, arity, fresh, count, k)),
{
    let ok = |k: u64| may_read(ops, arity, fresh, count, k);
    lemma_operand_reads(ops, arity, fresh, count, 0);
    lemma_operand_reads(ops, arity, fresh, count, 1);
    assert forall|k: u64| fresh <= k < fresh + count implies #[trigger] ok(k) by {}
    let g = TfMinimum.spec_expression(ops, fresh);
    assert forall|i: int, j: int| 0 <= i < g.cells.len() && 0 <= j < g.cells[i].len() implies int_within(#[trigger] g.at(i, j), ok) by {
        assert(int_within(ops[0].at(i, j), ok));
        assert(int_within(ops[1].at(i, j), ok));
    }
    
}

proof fn lemma_tf_not_equal_reads(ops: Seq<Grid<IntExpr>>, fresh: u64, arity: nat, count: nat)
    requires
        ops.len() >= 2,
        arity == 2,
        count == 0,
        fresh + count <= u64::MAX,
    ensures
        encoding_within(TfNotEqual.spec_expression(ops, fresh), |k: u64| may_read(ops, arity, fresh, count, k)),
{
    let ok = |k: u64| may_read(ops, arity, fresh, count, k);
    lemma_operand_reads(ops, arity, fresh, count, 0);
    lemma_operand_reads(ops, arity, fresh, count, 1);
    assert forall|k: u64| fresh <= k < fresh + count implies #[trigger] ok(k) by {}
    let g = TfNotEqual.spec_expression(ops, fresh);
    assert forall|i: int, j: int| 0 <= i < g.cells.len() && 0 <= j < g.cells[i].len() implies int_within(#[trigger] g.at(i, j), ok) by {
        assert(int_within(ops[0].at(i, j), ok));
        assert(int_within(ops[1].at(i, j), ok));
    }
    
}

proof fn lemma_tf_ones_reads(ops: Seq<Grid<IntExpr>>, fresh: u64, arity: nat, count: nat)
    requires
        ops.len() >= 1,
        arity == 1,
        count == 0,
        fresh + count <= u64::MAX,
    ensures
        encoding_within(TfOnes.spec_expression(ops, fresh), |k: u64| may_read(ops, arity, fresh, count, k)),
{
    let ok = |k: u64| may_read(ops, arity, fresh, count, k);
    lemma_operand_reads(ops, arity, fresh, count, 0);
    assert forall|k: u64| fresh <= k < fresh + count implies #[trigger] ok(k) by {}
    let g = TfOnes.spec_expression(ops, fresh);
    assert forall|i: int, j: int| 0 <= i < g.cells.len() && 0 <= j < g.cells[i].len() implies int_within(#[trigger] g.at(i, j), ok) by {
        assert(int_within(ops[0].at(0, 0), ok));
        assert(int_within(ops[0].at(0, 1), ok));
    }
    assert(int_within(ops[0].at(0, 0), ok));
    assert(int_within(ops[0].at(0, 1), ok));
}

proof fn lemma_tf_reduce_any0_reads(ops: Seq<Grid<IntExpr>>, fresh: u64, arity: nat, count: nat)
    requires
        ops.len() >= 1,
        arity == 1,
        count == 0,
        fresh + count <= u64::MAX,
    ensures
        encoding_within(TfReduceAny0.spec_expression(ops, fresh), |k: u64| may_read(ops, arity, fresh, count, k)),
{
    let ok = |k: u64| may_read(ops, arity, fresh, count, k);
    lemma_operand_reads(ops, arity, fresh, count, 0);
    assert forall|k: u64| fresh <= k < fresh + count implies #[trigger] ok(k) by {}
    let g = TfReduceAny0.spec_expression(ops, fresh);
    assert forall|i: int, j: int| 0 <= i < g.cells.len() && 0 <= j < g.cells[i].len() implies int_within(#[trigger] g.at(i, j), ok) by {
        lemma_col_any_within(ops[0], ok, j, ROWS as nat);
    }
    
}

proof fn lemma_tf_reduce_any1_reads(ops: Seq<Grid<IntExpr>>, fresh: u64, arity: nat, count: nat)
    requires
        ops.len() >= 1,
        arity == 1,
        count == 0,
        fresh + count <= u64::MAX,
    ensures
        encoding_within(TfReduceAny1.spec_expression(ops, fresh), |k: u64| may_read(ops, arity, fresh, count, k)),
{
    let ok = |k: u64| may_read(ops, arity, fresh, count, k);
    lemma_operand_reads(ops, arity, fresh, count, 0);
    assert forall|k: u64| fresh <= k < fresh + count implies #[trigger] ok(k) by {}
    let g = TfReduceAny1.spec_expression(ops, fresh);
    assert forall|i: int, j: int| 0 <= i < g.cells.len() && 0 <= j < g.cells[i].len() implies int_within(#[trigger] g.at(i, j), ok) by {
        if j < ROWS { lemma_row_any_within(ops[0], ok, j, COLS as nat); }
    }
    
}

proof fn lemma_tf_reduce_mean_reads(ops: Seq<Grid<IntExpr>>, fresh: u64, arity: nat, count: nat)
    requires
        ops.len() >= 1,
        arity == 1,
        count == 0,
        fresh + count <= u64::MAX,
    ensures
        encoding_within(TfReduceMean.spec_expression(ops, fresh), |k: u64| may_read(ops, arity, fresh, count, k)),
{
    let ok = |k: u64| may_read(ops, arity, fresh, count, k);
    lemma_operand_reads(ops, arity, fresh, count, 0);
    assert forall|k: u64| fresh <= k < fresh + count implies #[trigger] ok(k) by {}
    let g = TfReduceMean.spec_expression(ops, fresh);
    assert forall|i: int, j: int| 0 <= i < g.cells.len() && 0 <= j < g.cells[i].len() implies int_within(#[trigger] g.at(i, j), ok) by {
        lemma_col_sum_within(ops[0], ok, j, ROWS as nat);
    }
    
}

proof fn lemma_tf_reduce_prod_reads(ops: Seq<Grid<IntExpr>>, fresh: u64, arity: nat, count: nat)
    requires
        ops.len() >= 1,
        arity == 1,
        count == 0,
        fresh + count <= u64::MAX,
    ensures
        encoding_within(TfReduceProd.spec_expression(ops, fresh), |k: u64| may_read(ops, arity, fresh, count, k)),
{
    let ok = |k: u64| may_read(ops, arity, fresh, count, k);
    lemma_operand_reads(ops, arity, fresh, count, 0);
    assert forall|k: u64| fresh <= k < fresh + count implies #[trigger] ok(k) by {}
    let g = TfReduceProd.spec_expression(ops, fresh);
    assert forall|i: int, j: int| 0 <= i < g.cells.len() && 0 <= j < g.cells[i].len() implies int_within(#[trigger] g.at(i, j), ok) by {
        if j < ROWS { lemma_row_prod_within(ops[0], ok, j, COLS as nat); }
    }
    
}

proof fn lemma_tf_roll_reads(ops: Seq<Grid<IntExpr>>, fresh: u64, arity: nat, count: nat)
    requires
        ops.len() >= 1,
        arity == 1,
        count == 0,
        fresh + count <= u64::MAX,
    ensures
        encoding_within(TfRoll.spec_expression(ops, fresh), |k: u64| may_read(ops, arity, fresh, count, k)),
{
    let ok = |k: u64| may_read(ops, arity, fresh, count, k);
    lemma_operand_reads(ops, arity, fresh, count, 0);
    assert forall|k: u64| fresh <= k < fresh + count implies #[trigger] ok(k) by {}
    let g = TfRoll.spec_expression(ops, fresh);
    assert forall|i: int, j: int| 0 <= i < g.cells.len() && 0 <= j < g.cells[i].len() implies int_within(#[trigger] g.at(i, j), ok) by {
        lemma_roll_head_within(ops[0], ok, i, COLS as nat);
        if j > 0 { assert(int_within(ops[0].at(i, j - 1), ok)); }
    }
    
}

proof fn lemma_tf_zeros_reads(ops: Seq<Grid<IntExpr>>, fresh: u64, arity: nat, count: nat)
    requires
        ops.len() >= 1,
        arity == 1,
        count == 0,
        fresh + count <= u64::MAX,
    ensures
        encoding_within(TfZeros.spec_expression(ops, fresh), |k: u64| may_read(ops, arity, fresh, count, k)),
{
    let ok = |k: u64| may_read(ops, arity, fresh, count, k);
    lemma_operand_reads(ops, arity, fresh, count, 0);
    assert forall|k: u64| fresh <= k < fresh + count implies #[trigger] ok(k) by {}
    let g = TfZeros.spec_expression(ops, fresh);
    assert forall|i: int, j: int| 0 <= i < g.cells.len() && 0 <= j < g.cells[i].len() implies int_within(#[trigger] g.at(i, j), ok) by {
        assert(int_within(ops[0].at(i, j), ok));
    }
    
}

proof fn lemma_tf_one_hot_reads(ops: Seq<Grid<IntExpr>>, fresh: u64, arity: nat, count: nat)
    requires
        ops.len() >= 2,
        arity == 2,
        count == 0,
        fresh + count <= u64::MAX,
    ensures
        encoding_within(TfOneHot.spec_expression(ops, fresh), |k: u64| may_read(ops, arity, fresh, count, k)),
{
    let ok = |k: u64| may_read(ops, arity, fresh, count, k);
    lemma_operand_reads(ops, arity, fresh, count, 0);
    lemma_operand_reads(ops, arity, fresh, count, 1);
    assert forall|k: u64| fresh <= k < fresh + count implies #[trigger] ok(k) by {}
    let g = TfOneHot.spec_expression(ops, fresh);
    assert forall|i: int, j: int| 0 <= i < g.cells.len() && 0 <= j < g.cells[i].len() implies int_within(#[trigger] g.at(i, j), ok) by {
        assert(int_within(ops[0].at(0, i), ok));
        assert(int_within(ops[1].at(0, 0), ok));
    }
    assert(int_within(ops[1].at(0, 0), ok));
}

proof fn lemma_tf_reduce_max_reads(ops: Seq<Grid<IntExpr>>, fresh: u64, arity: nat, count: nat)
    requires
        ops.len() >= 1,
        arity == 1,
        count == 0,
        fresh + count <= u64::MAX,
    ensures
        encoding_within(TfReduceMax.spec_expression(ops, fresh), |k: u64| may_read(ops, arity, fresh, count, k)),
{
    let ok = |k: u64| may_read(ops, arity, fresh, count, k);
    lemma_operand_reads(ops, arity, fresh, count, 0);
    assert forall|k: u64| fresh <= k < fresh + count implies #[trigger] ok(k) by {}
    let g = TfReduceMax.spec_expression(ops, fresh);
    assert forall|i: int, j: int| 0 <= i < g.cells.len() && 0 <= j < g.cells[i].len() implies int_within(#[trigger] g.at(i, j), ok) by {
        lemma_all_max_within(ops[0], ok, (ROWS * COLS) as nat);
    }
    
}

proof fn lemma_tf_reduce_max0_reads(ops: Seq<Grid<IntExpr>>, fresh: u64, arity: nat, count: nat)
    requires
        ops.len() >= 1,
        arity == 1,
        count == 0,
        fresh + count <= u64::MAX,
    ensures
        encoding_within(TfReduceMax0.spec_expression(ops, fresh), |k: u64| may_read(ops, arity, fresh, count, k)),
{
    let ok = |k: u64| may_read(ops, arity, fresh, count, k);
    lemma_operand_reads(ops, arity, fresh, count, 0);
    assert forall|k: u64| fresh <= k < fresh + count implies #[trigger] ok(k) by {}
    let g = TfReduceMax0.spec_expression(ops, fresh);
    assert forall|i: int, j: int| 0 <= i < g.cells.len() && 0 <= j < g.cells[i].len() implies int_within(#[trigger] g.at(i, j), ok) by {
        lemma_col_max_within(ops[0], ok, j, ROWS as nat);
    }
    
}

proof fn lemma_tf_reduce_max1_reads(ops: Seq<Grid<IntExpr>>, fresh: u64, arity: nat, count: nat)
    requires
        ops.len() >= 1,
        arity == 1,
        count == 0,
        fresh + count <= u64::MAX,
    ensures
        encoding_within(TfReduceMax1.spec_expression(ops, fresh), |k: u64| may_read(ops, arity, fresh, count, k)),
{
    let ok = |k: u64| may_read(ops, arity, fresh, count, k);
    lemma_operand_reads(ops, arity, fresh, count, 0);
    assert forall|k: u64| fresh <= k < fresh + count implies #[trigger] ok(k) by {}
    let g = TfReduceMax1.spec_expression(ops, fresh);
    assert forall|i: int, j: int| 0 <= i < g.cells.len() && 0 <= j < g.cells[i].len() implies int_within(#[trigger] g.at(i, j), ok) by {
        if j < ROWS { lemma_row_max_within(ops[0], ok, j, COLS as nat); }
    }
    
}

proof fn lemma_tf_reduce_sum_reads(ops: Seq<Grid<IntExpr>>, fresh: u64, arity: nat, count: nat)
    requires
        ops.len() >= 1,
        arity == 1,
        count == 0,
        fresh + count <= u64::MAX,
    ensures
        encoding_within(TfReduceSum.spec_expression(ops, fresh), |k: u64| may_read(ops, arity, fresh, count, k)),
{
    let ok = |k: u64| may_read(ops, arity, fresh, count, k);
    lemma_operand_reads(ops, arity, fresh, count, 0);
    assert forall|k: u64| fresh <= k < fresh + count implies #[trigger] ok(k) by {}
    let g = TfReduceSum.spec_expression(ops, fresh);
    assert forall|i: int, j: int| 0 <= i < g.cells.len() && 0 <= j < g.cells[i].len() implies int_within(#[trigger] g.at(i, j), ok) by {
        lemma_all_sum_within(ops[0], ok, (ROWS * COLS) as nat);
    }
    
}

proof fn lemma_tf_reduce_sum0_reads(ops: Seq<Grid<IntExpr>>, fresh: u64, arity: nat, count: nat)
    requires
        ops.len() >= 1,
        arity == 1,
        count == 0,
        fresh + count <= u64::MAX,
    ensures
        encoding_within(TfReduceSum0.spec_expression(ops, fresh), |k: u64| may_read(ops, arity, fresh, count, k)),
{
    let ok = |k: u64| may_read(ops, arity, fresh, count, k);
    lemma_operand_reads(ops, arity, fresh, count, 0);
    assert forall|k: u64| fresh <= k < fresh + count implies #[trigger] ok(k) by {}
    let g = TfReduceSum0.spec_expression(ops, fresh);
    assert forall|i: int, j: int| 0 <= i < g.cells.len() && 0 <= j < g.cells[i].len() implies int_within(#[trigger] g.at(i, j), ok) by {
        lemma_col_sum_within(ops[0], ok, j, ROWS as nat);
    }
    
}

proof fn lemma_tf_reduce_sum1_reads(ops: Seq<Grid<IntExpr>>, fresh: u64, arity: nat, count: nat)
    requires
        ops.len() >= 1,
        arity == 1,
        count == 0,
        fresh + count <= u64::MAX,
    ensures
        encoding_within(TfReduceSum1.spec_expression(ops, fresh), |k: u64| may_read(ops, arity, fresh, count, k)),
{
    let ok = |k: u64| may_read(ops, arity, fresh, count, k);
    lemma_operand_reads(ops, arity, fresh, count, 0);
    assert forall|k: u64| fresh <= k < fresh + count implies #[trigger] ok(k) by {}
    let g = TfReduceSum1.spec_expression(ops, fresh);
    assert forall|i: int, j: int| 0 <= i < g.cells.len() && 0 <= j < g.cells[i].len() implies int_within(#[trigger] g.at(i, j), ok) by {
        if j < ROWS { lemma_row_sum_within(ops[0], ok, j, COLS as nat); }
    }
    
}

proof fn lemma_tf_segment_max_reads(ops: Seq<Grid<IntExpr>>, fresh: u64, arity: nat, count: nat)
    requires
        ops.len() >= 2,
        arity == 2,
        count == ROWS as nat,
        fresh + count <= u64::MAX,
    ensures
        encoding_within(TfSegmentMax.spec_expression(ops, fresh), |k: u64| may_read(ops, arity, fresh, count, k)),
{
    let ok = |k: u64| may_read(ops, arity, fresh, count, k);
    lemma_operand_reads(ops, arity, fresh, count, 0);
    lemma_operand_reads(ops, arity, fresh, count, 1);
    assert forall|k: u64| fresh <= k < fresh + count implies #[trigger] ok(k) by {}
    let g = TfSegmentMax.spec_expression(ops, fresh);
    assert forall|i: int, j: int| 0 <= i < g.cells.len() && 0 <= j < g.cells[i].len() implies int_within(#[trigger] g.at(i, j), ok) by {
        lemma_segment_array_within(ops[0], ops[1], ok, fresh, i, COLS as nat);
    }
    lemma_segment_count_within(ops[0], ops[1], ok, fresh, (ROWS * COLS) as nat);
}

/// Fresh names compose: an encoding reads no fresh array or table but those that the
/// cells and dimensions of its operands read and the `spec_fresh_count` names from
/// `fresh` on. As `make_expression` moves the counter past those names, encodings made
/// one after another with one context share no fresh name that neither inherits.
pub proof fn law_encoding_reads_operands_and_own_names(op: Operator, ops: Seq<Grid<IntExpr>>, fresh: u64)
    requires
        op.is_operation(),
        ops.len() >= op.spec_operand_arity(),
        fresh + op.spec_fresh_count() <= u64::MAX,
    ensures
        encoding_within(
            op.spec_expression(ops, fresh),
            |k: u64| may_read(ops, op.spec_operand_arity(), fresh, op.spec_fresh_count(), k),
        ),
{
    let arity = op.spec_operand_arity();
    let count = op.spec_fresh_count();
    match op {
        Operator::Var => {},
        Operator::TfAdd(_, _) => lemma_tf_add_reads(ops, fresh, arity, count),
        Operator::TfArgmax(_) => lemma_tf_argmax_reads(ops, fresh, arity, count),
        Operator::TfBooleanMask(_, _) => lemma_tf_boolean_mask_reads(ops, fresh, arity, count),
        Operator::TfBooleanMask_(_, _) => lemma_tf_boolean_mask_rows_reads(ops, fresh, arity, count),
        Operator::TfCast(_) => lemma_tf_cast_reads(ops, fresh, arity, count),
        Operator::TfConcat0(_, _) => lemma_tf_concat0_reads(ops, fresh, arity, count),
        Operator::TfConcat1(_, _) => lemma_tf_concat1_reads(ops, fresh, arity, count),
        Operator::TfConstant(_) => lemma_tf_constant_reads(ops, fresh, arity, count),
        Operator::TfDivide(_, _) => lemma_tf_divide_reads(ops, fresh, arity, count),
        Operator::TfEqual(_, _) => lemma_tf_equal_reads(ops, fresh, arity, count),
        Operator::TfExpandDims(_) => lemma_tf_expand_dims_reads(ops, fresh, arity, count),
        Operator::TfGreater(_, _) => lemma_tf_greater_reads(ops, fresh, arity, count),
        Operator::TfBincount(_) => lemma_tf_bincount_reads(ops, fresh, arity, count),
        Operator::TfCumsum(_, _) => lemma_tf_cumsum_reads(ops, fresh, arity, count),
        Operator::TfMultiply(_, _) => lemma_tf_multiply_reads(ops, fresh, arity, count),
        Operator::TfRange(_, _) => lemma_tf_range_reads(ops, fresh, arity, count),
        Operator::TfSequenceMask(_) => lemma_tf_sequence_mask_reads(ops, fresh, arity, count),
        Operator::TfSquare(_) => lemma_tf_square_reads(ops, fresh, arity, count),
        Operator::TfSubtract(_, _) => lemma_tf_subtract_reads(ops, fresh, arity, count),
        Operator::TfTensordot(_, _) => lemma_tf_tensordot_reads(ops, fresh, arity, count),
        Operator::TfTranspose(_) => lemma_tf_transpose_reads(ops, fresh, arity, count),
        Operator::TfWhere1(_) => lemma_tf_where1_reads(ops, fresh, arity, count),
        Operator::TfWhere3(_, _, _) => lemma_tf_where3_reads(ops, fresh, arity, count),
        Operator::TfEye(_, _) => lemma_tf_eye_reads(ops, fresh, arity, count),
        Operator::TfFill(_, _) => lemma_tf_fill_reads(ops, fresh, arity, count),
        Operator::TfMatmul(_, _) => lemma_tf_matmul_reads(ops, fresh, arity, count),
        Operator::TfMaximum(_, _) => lemma_tf_maximum_reads(ops, fresh, arity, count),
        Operator::TfMinimum(_, _) => lemma_tf_minimum_reads(ops, fresh, arity, count),
        Operator::TfNotEqual(_, _) => lemma_tf_not_equal_reads(ops, fresh, arity, count),
        Operator::TfOnes(_) => lemma_tf_ones_reads(ops, fresh, arity, count),
        Operator::TfReduceAny0(_) => lemma_tf_reduce_any0_reads(ops, fresh, arity, count),
        Operator::TfReduceAny1(_) => lemma_tf_reduce_any1_reads(ops, fresh, arity, count),
        Operator::TfReduceMean(_) => lemma_tf_reduce_mean_reads(ops, fresh, arity, count),
        Operator::TfReduceProd(_) => lemma_tf_reduce_prod_reads(ops, fresh, arity, count),
        Operator::TfRoll(_) => lemma_tf_roll_reads(ops, fresh, arity, count),
        Operator::TfZeros(_) => lemma_tf_zeros_reads(ops, fresh, arity, count),
        Operator::TfOneHot(_, _) => lemma_tf_one_hot_reads(ops, fresh, arity, count),
        Operator::TfReduceMax(_) => lemma_tf_reduce_max_reads(ops, fresh, arity, count),
        Operator::TfReduceMax0(_) => lemma_tf_reduce_max0_reads(ops, fresh, arity, count),
        Operator::TfReduceMax1(_) => lemma_tf_reduce_max1_reads(ops, fresh, arity, count),
        Operator::TfReduceSum(_) => lemma_tf_reduce_sum_reads(ops, fresh, arity, count),
        Operator::TfReduceSum0(_) => lemma_tf_reduce_sum0_reads(ops, fresh, arity, count),
        Operator::TfReduceSum1(_) => lemma_tf_reduce_sum1_reads(ops, fresh, arity, count),
        Operator::TfSegmentMax(_, _) => lemma_tf_segment_max_reads(ops, fresh, arity, count),
    }
}

} // verus!
