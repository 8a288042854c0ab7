//! Laws of the library: how operators and components relate, and what the terms
//! that components build mean.

pub mod dims;
pub mod elementwise;
pub mod fresh;
pub mod operators;
pub mod reductions;
pub mod shapes;

use vstd::prelude::*;

use crate::component::Component;
use crate::components::arrays::{
    concat0_array, concat1_array, mask_state, mask_table, mask_width, TfBooleanMask, TfBooleanMask_, TfConcat0,
    TfConcat1, TfSegmentMax, TfWhere1, segment_array, where_state,
};
use crate::components::elementwise::TfWhere3;
use crate::components::reduce::{nonzero, row_any, row_max, row_sum, TfReduceAny1, TfReduceMax1, TfReduceSum1};
use crate::components::shape::{
    argmax_index, bin_count, dot, range_value, row_peak, TfArgmax, TfBincount, TfEye, TfMatmul, TfRange,
    TfSequenceMask, TfTranspose,
};
use crate::expr::{eval_bool, eval_int, eval_row_select, eval_select, IntExpr};
use crate::operator::Operator;
use crate::{Grid, Id, COLS, ROWS};

verus! {

broadcast use crate::expr::group_eval;

// ---------------------------------------------------------------------------
// Operators and their operands
// ---------------------------------------------------------------------------

/// Rebuilding an operator from its own operands gives it back.
pub proof fn law_rebuild_from_own_operands(op: Operator)
    ensures
        op.with_operands(op.operand_seq()) == op,
{
}

/// Rebuilding an operator from enough ids keeps its operation and takes as many ids as
/// it has operands, in order.
pub proof fn law_rebuild_takes_ids(op: Operator, ids: Seq<Id>)
    requires
        ids.len() >= op.operand_seq().len(),
    ensures
        op.with_operands(ids).operand_seq() == ids.take(op.operand_seq().len() as int),
        op.with_operands(ids).with_operands(op.operand_seq()) == op,
{
    assert(op.with_operands(ids).operand_seq() =~= ids.take(op.operand_seq().len() as int));
}

/// The operator that a component makes from operand ids has as many operands as the
/// component takes, and they are the first ids given.
pub proof fn law_made_operator_operands(op: Operator, ids: Seq<Id>)
    requires
        op.is_operation(),
        ids.len() >= op.spec_operand_arity(),
    ensures
        op.spec_operator(ids).operand_seq() == ids.take(op.spec_operand_arity() as int),
        op.spec_operator(ids).spec_operand_arity() == op.spec_operand_arity(),
        op.spec_operator(op.operand_seq()) == op,
{
    law_rebuild_takes_ids(op, ids);
}

/// Renaming in place maps the operands: when every call of `f` turns an id `x` into
/// `g(x)`, an operator `after` that `operands_mut` made from `before` (as its `ensures`
/// describe) keeps the operation and holds `g` of each operand, in the same order.
pub proof fn law_operands_mut_maps<F: FnMut(&mut Id)>(
    before: Operator,
    after: Operator,
    f: F,
    g: spec_fn(Id) -> Id,
)
    requires
        forall|r: &mut Id| #[trigger] f.ensures((r,), ()) ==> *final(r) == g(*r),
        after == before.with_operands(after.operand_seq()),
        after.operand_seq().len() == before.operand_seq().len(),
        forall|k: int|
            #![trigger after.operand_seq()[k]]
            0 <= k < before.operand_seq().len() ==> exists|r: &mut Id|
                *r == before.operand_seq()[k] && *final(r) == after.operand_seq()[k]
                    && #[trigger] f.ensures((r,), ()),
    ensures
        after.operand_seq() == before.operand_seq().map_values(g),
        after == before.with_operands(before.operand_seq().map_values(g)),
{
    assert forall|k: int| 0 <= k < before.operand_seq().len() implies after.operand_seq()[k] == g(
        before.operand_seq()[k],
    ) by {
        assert(after.operand_seq()[k] == after.operand_seq()[k]);
    }
    assert(after.operand_seq() =~= before.operand_seq().map_values(g));
}

/// Renaming in place with an `f` that only reads the ids it is given leaves the operator
/// as it was.
pub proof fn law_operands_mut_reading_keeps<F: FnMut(&mut Id)>(before: Operator, after: Operator, f: F)
    requires
        forall|r: &mut Id| #[trigger] f.ensures((r,), ()) ==> *final(r) == *r,
        after == before.with_operands(after.operand_seq()),
        after.operand_seq().len() == before.operand_seq().len(),
        forall|k: int|
            #![trigger after.operand_seq()[k]]
            0 <= k < before.operand_seq().len() ==> exists|r: &mut Id|
                *r == before.operand_seq()[k] && *final(r) == after.operand_seq()[k]
                    && #[trigger] f.ensures((r,), ()),
    ensures
        after == before,
{
    let g = |x: Id| x;
    law_operands_mut_maps(before, after, f, g);
    assert(before.operand_seq().map_values(g) =~= before.operand_seq());
    law_rebuild_from_own_operands(before);
}

// ---------------------------------------------------------------------------
// Meaning of the encodings
// ---------------------------------------------------------------------------

/// The value of cell `(i, j)` of `x`.
pub open spec fn value(
    x: Grid<IntExpr>,
    i: int,
    j: int,
    vars: spec_fn(u64) -> int,
    arrs: spec_fn(u64, int) -> int,
    tabs: spec_fn(u64, int, int) -> int,
) -> int {
    eval_int(x.at(i, j), vars, arrs, tabs)
}

/// The sum of the values of the first `n` cells of row `i`.
pub open spec fn row_total(
    x: Grid<IntExpr>,
    i: int,
    n: nat,
    vars: spec_fn(u64) -> int,
    arrs: spec_fn(u64, int) -> int,
    tabs: spec_fn(u64, int, int) -> int,
) -> int
    decreases n,
{
    if n == 0 {
        0
    } else {
        row_total(x, i, (n - 1) as nat, vars, arrs, tabs) + value(x, i, n - 1, vars, arrs, tabs)
    }
}

proof fn lemma_row_sum_value(
    x: Grid<IntExpr>,
    i: int,
    n: nat,
    vars: spec_fn(u64) -> int,
    arrs: spec_fn(u64, int) -> int,
    tabs: spec_fn(u64, int, int) -> int,
)
    ensures
        eval_int(row_sum(x, i, n), vars, arrs, tabs) == row_total(x, i, n, vars, arrs, tabs),
    decreases n,
{
    if n > 0 {
        lemma_row_sum_value(x, i, (n - 1) as nat, vars, arrs, tabs);
    }
}

/// Summing each row: the value of the result at `(0, i)` is the sum of the values of
/// row `i`, whatever the variables and arrays stand for.
pub proof fn law_reduce_sum1_sums_rows(
    ops: Seq<Grid<IntExpr>>,
    fresh: u64,
    i: int,
    vars: spec_fn(u64) -> int,
    arrs: spec_fn(u64, int) -> int,
    tabs: spec_fn(u64, int, int) -> int,
)
    requires
        ops.len() >= 1,
        0 <= i < ROWS,
    ensures
        eval_int(TfReduceSum1.spec_expression(ops, fresh).at(0, i), vars, arrs, tabs)
            == row_total(ops[0], i, COLS as nat, vars, arrs, tabs),
{
    lemma_row_sum_value(ops[0], i, COLS as nat, vars, arrs, tabs);
}

/// Whether cell `(i, j)` lies inside the dimensions of `x`, by their values.
pub open spec fn inside(
    x: Grid<IntExpr>,
    i: int,
    j: int,
    vars: spec_fn(u64) -> int,
    arrs: spec_fn(u64, int) -> int,
    tabs: spec_fn(u64, int, int) -> int,
) -> bool {
    i < eval_int(x.dims.0, vars, arrs, tabs) && j < eval_int(x.dims.1, vars, arrs, tabs)
}

proof fn lemma_row_max_value(
    x: Grid<IntExpr>,
    i: int,
    n: nat,
    vars: spec_fn(u64) -> int,
    arrs: spec_fn(u64, int) -> int,
    tabs: spec_fn(u64, int, int) -> int,
)
    requires
        0 <= i < ROWS,
        n <= COLS,
    ensures
        ({
            let m = eval_int(row_max(x, i, n), vars, arrs, tabs);
            &&& m >= i64::MIN
            &&& forall|j: int| 0 <= j < n && inside(x, i, j, vars, arrs, tabs) ==> value(x, i, j, vars, arrs, tabs) <= m
            &&& (m == i64::MIN || exists|j: int| 0 <= j < n && inside(x, i, j, vars, arrs, tabs) && value(x, i, j, vars, arrs, tabs) == m)
        }),
    decreases n,
{
    if n > 0 {
        lemma_row_max_value(x, i, (n - 1) as nat, vars, arrs, tabs);
        let m0 = eval_int(row_max(x, i, (n - 1) as nat), vars, arrs, tabs);
        let m = eval_int(row_max(x, i, n), vars, arrs, tabs);
        if m != i64::MIN && m != m0 {
            assert(inside(x, i, n - 1, vars, arrs, tabs) && value(x, i, n - 1, vars, arrs, tabs) == m);
        }
        if m != i64::MIN && m == m0 && m0 != i64::MIN {
            let w = choose|j: int| 0 <= j < n - 1 && inside(x, i, j, vars, arrs, tabs) && value(x, i, j, vars, arrs, tabs) == m0;
            assert(0 <= w < n && inside(x, i, w, vars, arrs, tabs) && value(x, i, w, vars, arrs, tabs) == m);
        }
    }
}

/// The largest of each row: the value of the result at `(0, i)` is at least every value
/// of row `i` inside the dimensions, and is one of them unless it is `i64::MIN`.
pub proof fn law_reduce_max1_is_row_maximum(
    ops: Seq<Grid<IntExpr>>,
    fresh: u64,
    i: int,
    vars: spec_fn(u64) -> int,
    arrs: spec_fn(u64, int) -> int,
    tabs: spec_fn(u64, int, int) -> int,
)
    requires
        ops.len() >= 1,
        0 <= i < ROWS,
    ensures
        ({
            let m = eval_int(TfReduceMax1.spec_expression(ops, fresh).at(0, i), vars, arrs, tabs);
            &&& m >= i64::MIN
            &&& forall|j: int| 0 <= j < COLS && inside(ops[0], i, j, vars, arrs, tabs) ==> value(ops[0], i, j, vars, arrs, tabs) <= m
            &&& (m == i64::MIN || exists|j: int| 0 <= j < COLS && inside(ops[0], i, j, vars, arrs, tabs) && value(ops[0], i, j, vars, arrs, tabs) == m)
        }),
{
    lemma_row_max_value(ops[0], i, COLS as nat, vars, arrs, tabs);
}

proof fn lemma_row_peak_value(
    row: Seq<IntExpr>,
    n: nat,
    vars: spec_fn(u64) -> int,
    arrs: spec_fn(u64, int) -> int,
    tabs: spec_fn(u64, int, int) -> int,
)
    ensures
        ({
            let m = eval_int(row_peak(row, n), vars, arrs, tabs);
            &&& m >= i64::MIN
            &&& forall|j: int| 0 <= j < n ==> eval_int(#[trigger] row[j], vars, arrs, tabs) <= m
            &&& (m == i64::MIN || exists|j: int| 0 <= j < n && eval_int(#[trigger] row[j], vars, arrs, tabs) == m)
        }),
    decreases n,
{
    if n > 0 {
        lemma_row_peak_value(row, (n - 1) as nat, vars, arrs, tabs);
        let m0 = eval_int(row_peak(row, (n - 1) as nat), vars, arrs, tabs);
        let m = eval_int(row_peak(row, n), vars, arrs, tabs);
        if m != i64::MIN && m != m0 {
            assert(eval_int(row[n - 1], vars, arrs, tabs) == m);
        }
        if m != i64::MIN && m == m0 && m0 != i64::MIN {
            let w = choose|j: int| 0 <= j < n - 1 && eval_int(#[trigger] row[j], vars, arrs, tabs) == m0;
            assert(eval_int(row[w], vars, arrs, tabs) == m);
        }
    }
}

proof fn lemma_argmax_index_value(
    row: Seq<IntExpr>,
    m: IntExpr,
    j: nat,
    vars: spec_fn(u64) -> int,
    arrs: spec_fn(u64, int) -> int,
    tabs: spec_fn(u64, int, int) -> int,
)
    requires
        j <= COLS,
        exists|k: int| j <= k < COLS && eval_int(#[trigger] row[k], vars, arrs, tabs) == eval_int(m, vars, arrs, tabs),
    ensures
        ({
            let v = eval_int(argmax_index(row, m, j), vars, arrs, tabs);
            &&& j <= v < COLS
            &&& eval_int(row[v], vars, arrs, tabs) == eval_int(m, vars, arrs, tabs)
            &&& forall|k: int| j <= k < v ==> eval_int(#[trigger] row[k], vars, arrs, tabs) != eval_int(m, vars, arrs, tabs)
        }),
    decreases COLS - j,
{
    if eval_int(row[j as int], vars, arrs, tabs) != eval_int(m, vars, arrs, tabs) {
        let k = choose|k: int| j <= k < COLS && eval_int(#[trigger] row[k], vars, arrs, tabs) == eval_int(m, vars, arrs, tabs);
        assert(k != j);
        lemma_argmax_index_value(row, m, j + 1, vars, arrs, tabs);
    }
}

/// The index of the largest of each row: when every value of row `i` is at least
/// `i64::MIN`, the value of the result at `(0, i)` is the first column holding the
/// largest value of the row.
pub proof fn law_argmax_is_first_maximum(
    ops: Seq<Grid<IntExpr>>,
    fresh: u64,
    i: int,
    vars: spec_fn(u64) -> int,
    arrs: spec_fn(u64, int) -> int,
    tabs: spec_fn(u64, int, int) -> int,
)
    requires
        ops.len() >= 1,
        0 <= i < ROWS,
        ops[0].cells[i].len() >= COLS,
        forall|j: int| 0 <= j < COLS ==> value(ops[0], i, j, vars, arrs, tabs) >= i64::MIN,
    ensures
        ({
            let v = eval_int(TfArgmax.spec_expression(ops, fresh).at(0, i), vars, arrs, tabs);
            &&& 0 <= v < COLS
            &&& forall|j: int| 0 <= j < COLS ==> value(ops[0], i, j, vars, arrs, tabs) <= value(ops[0], i, v, vars, arrs, tabs)
            &&& forall|j: int| 0 <= j < v ==> value(ops[0], i, j, vars, arrs, tabs) < value(ops[0], i, v, vars, arrs, tabs)
        }),
{
    let row = ops[0].cells[i];
    let m = row_peak(row, COLS as nat);
    lemma_row_peak_value(row, COLS as nat, vars, arrs, tabs);
    let mv = eval_int(m, vars, arrs, tabs);
    if mv == i64::MIN {
        assert(value(ops[0], i, 0, vars, arrs, tabs) >= i64::MIN);
        assert(eval_int(row[0], vars, arrs, tabs) == mv);
    }
    lemma_argmax_index_value(row, m, 0, vars, arrs, tabs);
    let v = eval_int(argmax_index(row, m, 0), vars, arrs, tabs);
    assert forall|j: int| 0 <= j < COLS implies value(ops[0], i, j, vars, arrs, tabs) <= value(ops[0], i, v, vars, arrs, tabs) by {
        assert(eval_int(row[j], vars, arrs, tabs) <= mv);
    }
    assert forall|j: int| 0 <= j < v implies value(ops[0], i, j, vars, arrs, tabs) < value(ops[0], i, v, vars, arrs, tabs) by {
        assert(eval_int(row[j], vars, arrs, tabs) <= mv);
        assert(eval_int(row[j], vars, arrs, tabs) != mv);
    }
}

/// The sum over `k < n` of `x[i][k] * y[k][j]`, by values.
pub open spec fn dot_value(
    x: Grid<IntExpr>,
    y: Grid<IntExpr>,
    i: int,
    j: int,
    n: nat,
    vars: spec_fn(u64) -> int,
    arrs: spec_fn(u64, int) -> int,
    tabs: spec_fn(u64, int, int) -> int,
) -> int
    decreases n,
{
    if n == 0 {
        0
    } else {
        dot_value(x, y, i, j, (n - 1) as nat, vars, arrs, tabs)
            + value(x, i, n - 1, vars, arrs, tabs) * value(y, n - 1, j, vars, arrs, tabs)
    }
}

pub proof fn lemma_dot_value(
    x: Grid<IntExpr>,
    y: Grid<IntExpr>,
    i: int,
    j: int,
    n: nat,
    vars: spec_fn(u64) -> int,
    arrs: spec_fn(u64, int) -> int,
    tabs: spec_fn(u64, int, int) -> int,
)
    ensures
        eval_int(dot(x, y, i, j, n), vars, arrs, tabs) == dot_value(x, y, i, j, n, vars, arrs, tabs),
    decreases n,
{
    if n > 0 {
        lemma_dot_value(x, y, i, j, (n - 1) as nat, vars, arrs, tabs);
    }
}

/// The matrix product: inside the leading square block, the value of the result at
/// `(i, j)` is the sum over `k` of `a[i][k] * b[k][j]`; outside it, 0.
pub proof fn law_matmul_is_product(
    ops: Seq<Grid<IntExpr>>,
    fresh: u64,
    i: int,
    j: int,
    vars: spec_fn(u64) -> int,
    arrs: spec_fn(u64, int) -> int,
    tabs: spec_fn(u64, int, int) -> int,
)
    requires
        ops.len() >= 2,
        0 <= i < ROWS,
        0 <= j < COLS,
    ensures
        eval_int(TfMatmul.spec_expression(ops, fresh).at(i, j), vars, arrs, tabs) == if j < ROWS {
            dot_value(ops[0], ops[1], i, j, ROWS as nat, vars, arrs, tabs)
        } else {
            0
        },
{
    lemma_dot_value(ops[0], ops[1], i, j, ROWS as nat, vars, arrs, tabs);
}

/// The transpose: inside the leading square block, the result at `(i, j)` is the
/// operand's cell at `(j, i)`.
pub proof fn law_transpose_swaps(ops: Seq<Grid<IntExpr>>, fresh: u64, i: int, j: int)
    requires
        ops.len() >= 1,
        0 <= i < ROWS,
        0 <= j < ROWS,
    ensures
        TfTranspose.spec_expression(ops, fresh).at(i, j) == ops[0].at(j, i),
{
}

proof fn lemma_range_value(
    start: IntExpr,
    n: nat,
    vars: spec_fn(u64) -> int,
    arrs: spec_fn(u64, int) -> int,
    tabs: spec_fn(u64, int, int) -> int,
)
    ensures
        eval_int(range_value(start, n), vars, arrs, tabs) == eval_int(start, vars, arrs, tabs) + n,
    decreases n,
{
    if n > 0 {
        lemma_range_value(start, (n - 1) as nat, vars, arrs, tabs);
    }
}

/// A range: row 0 of the result holds `start + j` at column `j` while that is below
/// `limit` (`start` and `limit` being the first cells of the operands), and 0 after;
/// the other rows are 0.
pub proof fn law_range_counts_up(
    ops: Seq<Grid<IntExpr>>,
    fresh: u64,
    i: int,
    j: int,
    vars: spec_fn(u64) -> int,
    arrs: spec_fn(u64, int) -> int,
    tabs: spec_fn(u64, int, int) -> int,
)
    requires
        ops.len() >= 2,
        0 <= i < ROWS,
        0 <= j < COLS,
    ensures
        ({
            let start = value(ops[0], 0, 0, vars, arrs, tabs);
            let limit = value(ops[1], 0, 0, vars, arrs, tabs);
            eval_int(TfRange.spec_expression(ops, fresh).at(i, j), vars, arrs, tabs)
                == if i == 0 && start + j < limit { start + j } else { 0 }
        }),
{
    lemma_range_value(ops[0].at(0, 0), j as nat, vars, arrs, tabs);
}

/// The identity matrix: 1 on the diagonal inside `a[0][0]` rows and `b[0][0]` columns,
/// 0 elsewhere.
pub proof fn law_eye_is_identity(
    ops: Seq<Grid<IntExpr>>,
    fresh: u64,
    i: int,
    j: int,
    vars: spec_fn(u64) -> int,
    arrs: spec_fn(u64, int) -> int,
    tabs: spec_fn(u64, int, int) -> int,
)
    requires
        ops.len() >= 2,
        0 <= i < ROWS,
        0 <= j < COLS,
    ensures
        eval_int(TfEye.spec_expression(ops, fresh).at(i, j), vars, arrs, tabs) == if i
            < value(ops[0], 0, 0, vars, arrs, tabs) && j < value(ops[1], 0, 0, vars, arrs, tabs) && i == j {
            1int
        } else {
            0int
        },
{
}

/// A sequence mask: row `i` (below the operand's column count) holds 1 in the columns
/// below `a[0][i]`, else 0.
pub proof fn law_sequence_mask_marks_prefix(
    ops: Seq<Grid<IntExpr>>,
    fresh: u64,
    i: int,
    j: int,
    vars: spec_fn(u64) -> int,
    arrs: spec_fn(u64, int) -> int,
    tabs: spec_fn(u64, int, int) -> int,
)
    requires
        ops.len() >= 1,
        0 <= i < ROWS,
        0 <= j < COLS,
    ensures
        eval_int(TfSequenceMask.spec_expression(ops, fresh).at(i, j), vars, arrs, tabs) == if i
            < eval_int(ops[0].dims.1, vars, arrs, tabs) && j < value(ops[0], 0, i, vars, arrs, tabs) {
            1int
        } else {
            0int
        },
{
}

/// Where with three operands: the value of the result is that of `c` where `a` is 0,
/// and that of `b` elsewhere.
pub proof fn law_where3_selects(
    ops: Seq<Grid<IntExpr>>,
    fresh: u64,
    i: int,
    j: int,
    vars: spec_fn(u64) -> int,
    arrs: spec_fn(u64, int) -> int,
    tabs: spec_fn(u64, int, int) -> int,
)
    requires
        ops.len() >= 3,
        0 <= i < ROWS,
        0 <= j < COLS,
    ensures
        eval_int(TfWhere3.spec_expression(ops, fresh).at(i, j), vars, arrs, tabs) == if value(
            ops[0],
            i,
            j,
            vars,
            arrs,
            tabs,
        ) == 0 {
            value(ops[2], i, j, vars, arrs, tabs)
        } else {
            value(ops[1], i, j, vars, arrs, tabs)
        },
{
}

/// The number of the first `n` cells of row `i` whose value is `k`.
pub open spec fn count_value(
    x: Grid<IntExpr>,
    i: int,
    k: int,
    n: nat,
    vars: spec_fn(u64) -> int,
    arrs: spec_fn(u64, int) -> int,
    tabs: spec_fn(u64, int, int) -> int,
) -> int
    decreases n,
{
    if n == 0 {
        0
    } else {
        count_value(x, i, k, (n - 1) as nat, vars, arrs, tabs) + if value(x, i, n - 1, vars, arrs, tabs) == k {
            1int
        } else {
            0int
        }
    }
}

proof fn lemma_bin_count_value(
    x: Grid<IntExpr>,
    i: int,
    k: int,
    n: nat,
    vars: spec_fn(u64) -> int,
    arrs: spec_fn(u64, int) -> int,
    tabs: spec_fn(u64, int, int) -> int,
)
    requires
        0 <= k < COLS,
    ensures
        eval_int(bin_count(x, i, k, n), vars, arrs, tabs) == count_value(x, i, k, n, vars, arrs, tabs),
    decreases n,
{
    if n > 0 {
        lemma_bin_count_value(x, i, k, (n - 1) as nat, vars, arrs, tabs);
    }
}

/// Counting: the value of the result at `(i, k)` is the number of cells of row `i`
/// whose value is `k`.
pub proof fn law_bincount_counts(
    ops: Seq<Grid<IntExpr>>,
    fresh: u64,
    i: int,
    k: int,
    vars: spec_fn(u64) -> int,
    arrs: spec_fn(u64, int) -> int,
    tabs: spec_fn(u64, int, int) -> int,
)
    requires
        ops.len() >= 1,
        0 <= i < ROWS,
        0 <= k < COLS,
    ensures
        eval_int(TfBincount.spec_expression(ops, fresh).at(i, k), vars, arrs, tabs)
            == count_value(ops[0], i, k, COLS as nat, vars, arrs, tabs),
{
    lemma_bin_count_value(ops[0], i, k, COLS as nat, vars, arrs, tabs);
}

proof fn lemma_row_any_value(
    x: Grid<IntExpr>,
    i: int,
    n: nat,
    vars: spec_fn(u64) -> int,
    arrs: spec_fn(u64, int) -> int,
    tabs: spec_fn(u64, int, int) -> int,
)
    ensures
        eval_bool(row_any(x, i, n), vars, arrs, tabs) <==> exists|j: int|
            0 <= j < n && value(x, i, j, vars, arrs, tabs) != 0,
    decreases n,
{
    if n > 0 {
        lemma_row_any_value(x, i, (n - 1) as nat, vars, arrs, tabs);
        assert(eval_bool(nonzero(x.at(i, n - 1)), vars, arrs, tabs) == (value(x, i, n - 1, vars, arrs, tabs) != 0));
        if eval_bool(row_any(x, i, n), vars, arrs, tabs) && !eval_bool(row_any(x, i, (n - 1) as nat), vars, arrs, tabs) {
            assert(value(x, i, n - 1, vars, arrs, tabs) != 0);
        }
    }
}

/// Any along each row: the value of the result at `(0, i)` is 1 when some cell of row
/// `i` is not 0, else 0.
pub proof fn law_reduce_any1_tests_rows(
    ops: Seq<Grid<IntExpr>>,
    fresh: u64,
    i: int,
    vars: spec_fn(u64) -> int,
    arrs: spec_fn(u64, int) -> int,
    tabs: spec_fn(u64, int, int) -> int,
)
    requires
        ops.len() >= 1,
        0 <= i < ROWS,
    ensures
        eval_int(TfReduceAny1.spec_expression(ops, fresh).at(0, i), vars, arrs, tabs) == if exists|j: int|
            0 <= j < COLS && value(ops[0], i, j, vars, arrs, tabs) != 0 {
            1int
        } else {
            0int
        },
{
    lemma_row_any_value(ops[0], i, COLS as nat, vars, arrs, tabs);
}

proof fn lemma_concat1_array_value(
    x: Grid<IntExpr>,
    y: Grid<IntExpr>,
    fresh: u64,
    i: int,
    j: int,
    n: nat,
    vars: spec_fn(u64) -> int,
    arrs: spec_fn(u64, int) -> int,
    tabs: spec_fn(u64, int, int) -> int,
)
    requires
        0 <= i < ROWS,
        0 <= j < COLS,
        COLS <= n <= 2 * COLS,
    ensures
        ({
            let d = eval_int(x.dims.1, vars, arrs, tabs);
            eval_select(concat1_array(x, y, fresh, i, n), j, vars, arrs, tabs) == if 0 <= j - d < n - COLS {
                value(y, i, j - d, vars, arrs, tabs)
            } else {
                value(x, i, j, vars, arrs, tabs)
            }
        }),
    decreases n,
{
    if n > COLS {
        lemma_concat1_array_value(x, y, fresh, i, j, (n - 1) as nat, vars, arrs, tabs);
    } else {
        lemma_concat1_prefix_value(x, y, fresh, i, j, n, vars, arrs, tabs);
    }
}

proof fn lemma_concat1_prefix_value(
    x: Grid<IntExpr>,
    y: Grid<IntExpr>,
    fresh: u64,
    i: int,
    j: int,
    n: nat,
    vars: spec_fn(u64) -> int,
    arrs: spec_fn(u64, int) -> int,
    tabs: spec_fn(u64, int, int) -> int,
)
    requires
        0 <= i < ROWS,
        0 <= j < n,
        n <= COLS,
    ensures
        eval_select(concat1_array(x, y, fresh, i, n), j, vars, arrs, tabs) == value(x, i, j, vars, arrs, tabs),
    decreases n,
{
    if j < n - 1 {
        lemma_concat1_prefix_value(x, y, fresh, i, j, (n - 1) as nat, vars, arrs, tabs);
    }
}

/// Concatenation along rows: for a second operand placed after `d` columns of the
/// first (`d` being the value of the first operand's column count), the value of the
/// result at `(i, j)` is `b[i][j - d]` when that column of `b` exists, else `a[i][j]`.
pub proof fn law_concat1_joins_rows(
    ops: Seq<Grid<IntExpr>>,
    fresh: u64,
    i: int,
    j: int,
    vars: spec_fn(u64) -> int,
    arrs: spec_fn(u64, int) -> int,
    tabs: spec_fn(u64, int, int) -> int,
)
    requires
        ops.len() >= 2,
        0 <= i < ROWS,
        0 <= j < COLS,
    ensures
        ({
            let d = eval_int(ops[0].dims.1, vars, arrs, tabs);
            eval_int(TfConcat1.spec_expression(ops, fresh).at(i, j), vars, arrs, tabs) == if 0 <= j - d < COLS {
                value(ops[1], i, j - d, vars, arrs, tabs)
            } else {
                value(ops[0], i, j, vars, arrs, tabs)
            }
        }),
{
    lemma_concat1_array_value(ops[0], ops[1], fresh, i, j, 2 * COLS as nat, vars, arrs, tabs);
}

proof fn lemma_concat0_array_value(
    x: Grid<IntExpr>,
    y: Grid<IntExpr>,
    fresh: u64,
    i: int,
    j: int,
    n: nat,
    vars: spec_fn(u64) -> int,
    arrs: spec_fn(u64, int) -> int,
    tabs: spec_fn(u64, int, int) -> int,
)
    requires
        0 <= i < ROWS,
        0 <= j < COLS,
        ROWS <= n <= 2 * ROWS,
    ensures
        ({
            let d = eval_int(x.dims.0, vars, arrs, tabs);
            eval_select(concat0_array(x, y, fresh, j, n), i, vars, arrs, tabs) == if 0 <= i - d < n - ROWS {
                value(y, i - d, j, vars, arrs, tabs)
            } else {
                value(x, i, j, vars, arrs, tabs)
            }
        }),
    decreases n,
{
    if n > ROWS {
        lemma_concat0_array_value(x, y, fresh, i, j, (n - 1) as nat, vars, arrs, tabs);
    } else {
        lemma_concat0_prefix_value(x, y, fresh, i, j, n, vars, arrs, tabs);
    }
}

proof fn lemma_concat0_prefix_value(
    x: Grid<IntExpr>,
    y: Grid<IntExpr>,
    fresh: u64,
    i: int,
    j: int,
    n: nat,
    vars: spec_fn(u64) -> int,
    arrs: spec_fn(u64, int) -> int,
    tabs: spec_fn(u64, int, int) -> int,
)
    requires
        0 <= i < n,
        0 <= j < COLS,
        n <= ROWS,
    ensures
        eval_select(concat0_array(x, y, fresh, j, n), i, vars, arrs, tabs) == value(x, i, j, vars, arrs, tabs),
    decreases n,
{
    if i < n - 1 {
        lemma_concat0_prefix_value(x, y, fresh, i, j, (n - 1) as nat, vars, arrs, tabs);
    }
}

/// Concatenation along columns: `b` is stacked under `a`. With `d` the value of the first
/// operand's row count, the result at `(i, j)` is `b[i - d][j]` when that row of `b` exists,
/// else `a[i][j]`; the result has the two row counts added and the first operand's columns.
pub proof fn law_concat0_stacks_rows(
    ops: Seq<Grid<IntExpr>>,
    fresh: u64,
    i: int,
    j: int,
    vars: spec_fn(u64) -> int,
    arrs: spec_fn(u64, int) -> int,
    tabs: spec_fn(u64, int, int) -> int,
)
    requires
        ops.len() >= 2,
        0 <= i < ROWS,
        0 <= j < COLS,
    ensures
        ({
            let d = eval_int(ops[0].dims.0, vars, arrs, tabs);
            eval_int(TfConcat0.spec_expression(ops, fresh).at(i, j), vars, arrs, tabs) == if 0 <= i - d < ROWS {
                value(ops[1], i - d, j, vars, arrs, tabs)
            } else {
                value(ops[0], i, j, vars, arrs, tabs)
            }
        }),
        eval_int(TfConcat0.spec_expression(ops, fresh).dims.0, vars, arrs, tabs) == eval_int(
            ops[0].dims.0,
            vars,
            arrs,
            tabs,
        ) + eval_int(ops[1].dims.0, vars, arrs, tabs),
        TfConcat0.spec_expression(ops, fresh).dims.1 == ops[0].dims.1,
{
    lemma_concat0_array_value(ops[0], ops[1], fresh, i, j, 2 * ROWS as nat, vars, arrs, tabs);
}

/// How many of the first `n` cells of `x`, taken row by row, have a value other than 0.
pub open spec fn nonzero_before(
    x: Grid<IntExpr>,
    n: nat,
    vars: spec_fn(u64) -> int,
    arrs: spec_fn(u64, int) -> int,
    tabs: spec_fn(u64, int, int) -> int,
) -> nat
    decreases n,
{
    if n == 0 {
        0
    } else {
        let k = n - 1;
        nonzero_before(x, (n - 1) as nat, vars, arrs, tabs) + if value(x, k as int / COLS as int, k as int % COLS as int, vars, arrs, tabs)
            != 0 {
            1nat
        } else {
            0nat
        }
    }
}

proof fn lemma_nonzero_before_grows(
    x: Grid<IntExpr>,
    k: nat,
    n: nat,
    vars: spec_fn(u64) -> int,
    arrs: spec_fn(u64, int) -> int,
    tabs: spec_fn(u64, int, int) -> int,
)
    requires
        k <= n,
    ensures
        nonzero_before(x, k, vars, arrs, tabs) <= nonzero_before(x, n, vars, arrs, tabs),
    decreases n,
{
    if k < n {
        lemma_nonzero_before_grows(x, k, (n - 1) as nat, vars, arrs, tabs);
    }
}

proof fn lemma_where_count(
    x: Grid<IntExpr>,
    fresh: u64,
    n: nat,
    vars: spec_fn(u64) -> int,
    arrs: spec_fn(u64, int) -> int,
    tabs: spec_fn(u64, int, int) -> int,
)
    requires
        n <= ROWS * COLS,
    ensures
        eval_int(where_state(x, fresh, n).1, vars, arrs, tabs) == nonzero_before(x, n, vars, arrs, tabs),
    decreases n,
{
    if n > 0 {
        lemma_where_count(x, fresh, (n - 1) as nat, vars, arrs, tabs);
    }
}

proof fn lemma_where_rows(
    x: Grid<IntExpr>,
    fresh: u64,
    k: nat,
    n: nat,
    c: int,
    vars: spec_fn(u64) -> int,
    arrs: spec_fn(u64, int) -> int,
    tabs: spec_fn(u64, int, int) -> int,
)
    requires
        k < n <= ROWS * COLS,
        value(x, k as int / COLS as int, k as int % COLS as int, vars, arrs, tabs) != 0,
        c == 0 || c == 1,
    ensures
        eval_row_select(where_state(x, fresh, n).0, nonzero_before(x, k, vars, arrs, tabs) as int, c, vars, arrs, tabs)
            == if c == 0 {
            k as int / COLS as int
        } else {
            k as int % COLS as int
        },
    decreases n,
{
    lemma_where_count(x, fresh, (n - 1) as nat, vars, arrs, tabs);
    if k < n - 1 {
        lemma_where_rows(x, fresh, k, (n - 1) as nat, c, vars, arrs, tabs);
        lemma_nonzero_before_grows(x, k + 1, (n - 1) as nat, vars, arrs, tabs);
    }
}

/// Listing the coordinates of the cells other than 0: the cell at row-major position `k`
/// whose value is not 0, and which comes after `t` such cells (`t` below the row
/// capacity), has its row and column in row `t` of the result, at columns 0 and 1.
pub proof fn law_where1_lists_nonzero_cells(
    ops: Seq<Grid<IntExpr>>,
    fresh: u64,
    k: nat,
    vars: spec_fn(u64) -> int,
    arrs: spec_fn(u64, int) -> int,
    tabs: spec_fn(u64, int, int) -> int,
)
    requires
        ops.len() >= 1,
        k < ROWS * COLS,
        value(ops[0], k as int / COLS as int, k as int % COLS as int, vars, arrs, tabs) != 0,
        nonzero_before(ops[0], k, vars, arrs, tabs) < ROWS,
    ensures
        ({
            let t = nonzero_before(ops[0], k, vars, arrs, tabs) as int;
            &&& eval_int(TfWhere1.spec_expression(ops, fresh).at(t, 0), vars, arrs, tabs) == k as int / COLS as int
            &&& eval_int(TfWhere1.spec_expression(ops, fresh).at(t, 1), vars, arrs, tabs) == k as int % COLS as int
        }),
{
    lemma_where_rows(ops[0], fresh, k, (ROWS * COLS) as nat, 0, vars, arrs, tabs);
    lemma_where_rows(ops[0], fresh, k, (ROWS * COLS) as nat, 1, vars, arrs, tabs);
}

/// The result of listing the coordinates has one row per cell other than 0 (at most the
/// row capacity) and two columns.
pub proof fn law_where1_counts_nonzero_cells(
    ops: Seq<Grid<IntExpr>>,
    fresh: u64,
    vars: spec_fn(u64) -> int,
    arrs: spec_fn(u64, int) -> int,
    tabs: spec_fn(u64, int, int) -> int,
)
    requires
        ops.len() >= 1,
    ensures
        ({
            let n = nonzero_before(ops[0], (ROWS * COLS) as nat, vars, arrs, tabs);
            eval_int(TfWhere1.spec_expression(ops, fresh).dims.0, vars, arrs, tabs) == if n < ROWS {
                n as int
            } else {
                ROWS as int
            }
        }),
        eval_int(TfWhere1.spec_expression(ops, fresh).dims.1, vars, arrs, tabs) == 2,
{
    lemma_where_count(ops[0], fresh, (ROWS * COLS) as nat, vars, arrs, tabs);
}

proof fn lemma_segment_array_value(
    x: Grid<IntExpr>,
    y: Grid<IntExpr>,
    fresh: u64,
    i: int,
    j: int,
    n: nat,
    vars: spec_fn(u64) -> int,
    arrs: spec_fn(u64, int) -> int,
    tabs: spec_fn(u64, int, int) -> int,
)
    requires
        n <= COLS,
    ensures
        ({
            let v = eval_select(segment_array(x, y, fresh, i, n), j, vars, arrs, tabs);
            let start = arrs((fresh + i) as u64, j);
            &&& v >= start
            &&& forall|k: int|
                0 <= k < n && value(x, i, k, vars, arrs, tabs) == j ==> v >= #[trigger] value(y, i, k, vars, arrs, tabs)
            &&& (v == start || exists|k: int|
                0 <= k < n && value(x, i, k, vars, arrs, tabs) == j && v == #[trigger] value(y, i, k, vars, arrs, tabs))
        }),
    decreases n,
{
    if n > 0 {
        lemma_segment_array_value(x, y, fresh, i, j, (n - 1) as nat, vars, arrs, tabs);
        let v = eval_select(segment_array(x, y, fresh, i, n), j, vars, arrs, tabs);
        let w = eval_select(segment_array(x, y, fresh, i, (n - 1) as nat), j, vars, arrs, tabs);
        let start = arrs((fresh + i) as u64, j);
        let last = (n - 1) as int;
        if value(x, i, last, vars, arrs, tabs) == j {
            assert(v == if w > value(y, i, last, vars, arrs, tabs) { w } else { value(y, i, last, vars, arrs, tabs) });
        } else {
            assert(v == w);
        }
        if v != start && v != w {
            assert(v == value(y, i, last, vars, arrs, tabs));
        }
    }
}

/// Segment maxima: in row `i`, the slot of segment `j` holds the largest of the `b` values
/// filed under segment id `j` by `a` (the cells of `a`'s row `i` equal to `j`) and of
/// the slot's starting value, the cell `j` of the fresh array `fresh + i` (which the
/// count of used segments takes to be `i64::MIN`): it is at least each of them and equal
/// to one of them.
pub proof fn law_segment_max_takes_largest(
    ops: Seq<Grid<IntExpr>>,
    fresh: u64,
    i: int,
    j: int,
    vars: spec_fn(u64) -> int,
    arrs: spec_fn(u64, int) -> int,
    tabs: spec_fn(u64, int, int) -> int,
)
    requires
        ops.len() >= 2,
        0 <= i < ROWS,
        0 <= j < COLS,
    ensures
        ({
            let v = eval_int(TfSegmentMax.spec_expression(ops, fresh).at(i, j), vars, arrs, tabs);
            let start = arrs((fresh + i) as u64, j);
            &&& v >= start
            &&& forall|k: int|
                0 <= k < COLS && value(ops[0], i, k, vars, arrs, tabs) == j ==> v >= #[trigger] value(
                    ops[1],
                    i,
                    k,
                    vars,
                    arrs,
                    tabs,
                )
            &&& (v == start || exists|k: int|
                0 <= k < COLS && value(ops[0], i, k, vars, arrs, tabs) == j && v == #[trigger] value(
                    ops[1],
                    i,
                    k,
                    vars,
                    arrs,
                    tabs,
                ))
        }),
{
    lemma_segment_array_value(ops[0], ops[1], fresh, i, j, COLS as nat, vars, arrs, tabs);
}

/// The number of cells of row `i` before column `p` that the mask `m` keeps (whose
/// value in `m` is not 0).
pub open spec fn kept_before(
    m: Grid<IntExpr>,
    i: int,
    p: nat,
    vars: spec_fn(u64) -> int,
    arrs: spec_fn(u64, int) -> int,
    tabs: spec_fn(u64, int, int) -> int,
) -> int
    decreases p,
{
    if p == 0 {
        0
    } else {
        kept_before(m, i, (p - 1) as nat, vars, arrs, tabs) + if value(m, i, p - 1, vars, arrs, tabs) != 0 {
            1int
        } else {
            0int
        }
    }
}

proof fn lemma_kept_before_bounds(
    m: Grid<IntExpr>,
    i: int,
    p: nat,
    q: nat,
    vars: spec_fn(u64) -> int,
    arrs: spec_fn(u64, int) -> int,
    tabs: spec_fn(u64, int, int) -> int,
)
    requires
        p <= q,
    ensures
        0 <= kept_before(m, i, p, vars, arrs, tabs) <= p,
        kept_before(m, i, p, vars, arrs, tabs) <= kept_before(m, i, q, vars, arrs, tabs),
        p < q && value(m, i, p as int, vars, arrs, tabs) != 0 ==> kept_before(m, i, p, vars, arrs, tabs) < kept_before(
            m,
            i,
            q,
            vars,
            arrs,
            tabs,
        ),
    decreases q,
{
    if p < q {
        lemma_kept_before_bounds(m, i, p, (q - 1) as nat, vars, arrs, tabs);
    } else if p > 0 {
        lemma_kept_before_bounds(m, i, (p - 1) as nat, (p - 1) as nat, vars, arrs, tabs);
    }
}

proof fn lemma_mask_position(
    x: Grid<IntExpr>,
    m: Grid<IntExpr>,
    fresh: u64,
    i: int,
    p: nat,
    vars: spec_fn(u64) -> int,
    arrs: spec_fn(u64, int) -> int,
    tabs: spec_fn(u64, int, int) -> int,
)
    requires
        0 <= i < ROWS,
        1 <= p <= COLS,
    ensures
        eval_int(mask_state(x, m, fresh, false, (i * COLS + p) as nat).1, vars, arrs, tabs) == kept_before(
            m,
            i,
            p,
            vars,
            arrs,
            tabs,
        ),
    decreases p,
{
    let k = i * COLS + p - 1;
    assert(k as int / COLS as int == i && k as int % COLS as int == p - 1);
    if p > 1 {
        lemma_mask_position(x, m, fresh, i, (p - 1) as nat, vars, arrs, tabs);
    }
    lemma_kept_before_bounds(m, i, (p - 1) as nat, (p - 1) as nat, vars, arrs, tabs);
}

proof fn lemma_mask_keeps(
    x: Grid<IntExpr>,
    m: Grid<IntExpr>,
    fresh: u64,
    i: int,
    p: nat,
    q: nat,
    vars: spec_fn(u64) -> int,
    arrs: spec_fn(u64, int) -> int,
    tabs: spec_fn(u64, int, int) -> int,
)
    requires
        0 <= i < ROWS,
        p < q <= COLS,
        value(m, i, p as int, vars, arrs, tabs) != 0,
    ensures
        eval_select(
            mask_state(x, m, fresh, false, (i * COLS + q) as nat).0,
            kept_before(m, i, p, vars, arrs, tabs),
            vars,
            arrs,
            tabs,
        ) == value(x, i, p as int, vars, arrs, tabs),
    decreases q,
{
    let k = i * COLS + q - 1;
    assert(k as int / COLS as int == i && k as int % COLS as int == q - 1);
    lemma_kept_before_bounds(m, i, p, (q - 1) as nat, vars, arrs, tabs);
    lemma_kept_before_bounds(m, i, (q - 1) as nat, (q - 1) as nat, vars, arrs, tabs);
    if q - 1 > 0 {
        lemma_mask_position(x, m, fresh, i, (q - 1) as nat, vars, arrs, tabs);
    }
    if q - 1 > p {
        lemma_mask_keeps(x, m, fresh, i, p, (q - 1) as nat, vars, arrs, tabs);
    }
}

/// Boolean masking: each cell of row `i` of `a` that the mask `b` keeps lands in row
/// `i` of the result at the column that counts the kept cells before it.
pub proof fn law_boolean_mask_packs_kept_cells(
    ops: Seq<Grid<IntExpr>>,
    fresh: u64,
    i: int,
    p: int,
    vars: spec_fn(u64) -> int,
    arrs: spec_fn(u64, int) -> int,
    tabs: spec_fn(u64, int, int) -> int,
)
    requires
        ops.len() >= 2,
        0 <= i < ROWS,
        0 <= p < COLS,
        value(ops[1], i, p, vars, arrs, tabs) != 0,
    ensures
        ({
            let j = kept_before(ops[1], i, p as nat, vars, arrs, tabs);
            &&& 0 <= j <= p
            &&& eval_int(TfBooleanMask.spec_expression(ops, fresh).at(i, j), vars, arrs, tabs)
                == value(ops[0], i, p, vars, arrs, tabs)
        }),
{
    let j = kept_before(ops[1], i, p as nat, vars, arrs, tabs);
    lemma_kept_before_bounds(ops[1], i, p as nat, p as nat, vars, arrs, tabs);
    lemma_mask_keeps(ops[0], ops[1], fresh, i, p as nat, COLS as nat, vars, arrs, tabs);
    assert((i + 1) * COLS == i * COLS + COLS);
}

/// The largest number of kept cells in a row among the first `n` rows (from 0).
pub open spec fn widest_row(
    m: Grid<IntExpr>,
    n: nat,
    vars: spec_fn(u64) -> int,
    arrs: spec_fn(u64, int) -> int,
    tabs: spec_fn(u64, int, int) -> int,
) -> int
    decreases n,
{
    if n == 0 {
        0
    } else {
        let w = widest_row(m, (n - 1) as nat, vars, arrs, tabs);
        let c = kept_before(m, n - 1, COLS as nat, vars, arrs, tabs);
        if w < c { c } else { w }
    }
}

proof fn lemma_mask_width_value(
    x: Grid<IntExpr>,
    m: Grid<IntExpr>,
    fresh: u64,
    n: nat,
    vars: spec_fn(u64) -> int,
    arrs: spec_fn(u64, int) -> int,
    tabs: spec_fn(u64, int, int) -> int,
)
    requires
        n <= ROWS,
    ensures
        eval_int(mask_width(x, m, fresh, false, n), vars, arrs, tabs) == widest_row(m, n, vars, arrs, tabs),
    decreases n,
{
    if n > 0 {
        lemma_mask_width_value(x, m, fresh, (n - 1) as nat, vars, arrs, tabs);
        lemma_mask_position(x, m, fresh, n - 1, COLS as nat, vars, arrs, tabs);
        assert((n - 1) * COLS + COLS == n * COLS);
    }
}

/// Boolean masking: the column count of the result is the largest number of kept cells
/// in a row.
pub proof fn law_boolean_mask_width(
    ops: Seq<Grid<IntExpr>>,
    fresh: u64,
    vars: spec_fn(u64) -> int,
    arrs: spec_fn(u64, int) -> int,
    tabs: spec_fn(u64, int, int) -> int,
)
    requires
        ops.len() >= 2,
    ensures
        eval_int(TfBooleanMask.spec_expression(ops, fresh).dims.1, vars, arrs, tabs) == widest_row(
            ops[1],
            ROWS as nat,
            vars,
            arrs,
            tabs,
        ),
        TfBooleanMask.spec_expression(ops, fresh).dims.0 == ops[0].dims.0,
{
    lemma_mask_width_value(ops[0], ops[1], fresh, ROWS as nat, vars, arrs, tabs);
}

/// The number of rows before row `n` that the row mask `m` keeps (`m[0][i]` not 0).
pub open spec fn rows_kept_before(
    m: Grid<IntExpr>,
    n: nat,
    vars: spec_fn(u64) -> int,
    arrs: spec_fn(u64, int) -> int,
    tabs: spec_fn(u64, int, int) -> int,
) -> int
    decreases n,
{
    if n == 0 {
        0
    } else {
        rows_kept_before(m, (n - 1) as nat, vars, arrs, tabs) + if value(m, 0, n - 1, vars, arrs, tabs) != 0 {
            1int
        } else {
            0int
        }
    }
}

proof fn lemma_rows_kept_before_bounds(
    m: Grid<IntExpr>,
    p: nat,
    q: nat,
    vars: spec_fn(u64) -> int,
    arrs: spec_fn(u64, int) -> int,
    tabs: spec_fn(u64, int, int) -> int,
)
    requires
        p <= q,
    ensures
        0 <= rows_kept_before(m, p, vars, arrs, tabs) <= p,
        rows_kept_before(m, p, vars, arrs, tabs) <= rows_kept_before(m, q, vars, arrs, tabs),
        p < q && value(m, 0, p as int, vars, arrs, tabs) != 0 ==> rows_kept_before(m, p, vars, arrs, tabs)
            < rows_kept_before(m, q, vars, arrs, tabs),
    decreases q,
{
    if p < q {
        lemma_rows_kept_before_bounds(m, p, (q - 1) as nat, vars, arrs, tabs);
    } else if p > 0 {
        lemma_rows_kept_before_bounds(m, (p - 1) as nat, (p - 1) as nat, vars, arrs, tabs);
    }
}

proof fn lemma_row_mask_position(
    x: Grid<IntExpr>,
    m: Grid<IntExpr>,
    fresh: u64,
    i: int,
    p: nat,
    vars: spec_fn(u64) -> int,
    arrs: spec_fn(u64, int) -> int,
    tabs: spec_fn(u64, int, int) -> int,
)
    requires
        0 <= i < ROWS,
        1 <= p <= COLS,
    ensures
        eval_int(mask_state(x, m, fresh, true, (i * COLS + p) as nat).1, vars, arrs, tabs) == if value(
            m,
            0,
            i,
            vars,
            arrs,
            tabs,
        ) != 0 {
            p as int
        } else {
            0int
        },
    decreases p,
{
    let k = i * COLS + p - 1;
    assert(k as int / COLS as int == i && k as int % COLS as int == p - 1);
    if p > 1 {
        lemma_row_mask_position(x, m, fresh, i, (p - 1) as nat, vars, arrs, tabs);
    }
}

proof fn lemma_row_mask_stores(
    x: Grid<IntExpr>,
    m: Grid<IntExpr>,
    fresh: u64,
    i: int,
    j: int,
    p: nat,
    vars: spec_fn(u64) -> int,
    arrs: spec_fn(u64, int) -> int,
    tabs: spec_fn(u64, int, int) -> int,
)
    requires
        0 <= i < ROWS,
        0 <= j < p,
        p <= COLS,
        value(m, 0, i, vars, arrs, tabs) != 0,
    ensures
        eval_select(mask_state(x, m, fresh, true, (i * COLS + p) as nat).0, j, vars, arrs, tabs) == value(
            x,
            i,
            j,
            vars,
            arrs,
            tabs,
        ),
    decreases p,
{
    let k = i * COLS + p - 1;
    assert(k as int / COLS as int == i && k as int % COLS as int == p - 1);
    if p > 1 {
        lemma_row_mask_position(x, m, fresh, i, (p - 1) as nat, vars, arrs, tabs);
        if j < p - 1 {
            lemma_row_mask_stores(x, m, fresh, i, j, (p - 1) as nat, vars, arrs, tabs);
        }
    }
}

proof fn lemma_mask_table_value(
    x: Grid<IntExpr>,
    m: Grid<IntExpr>,
    fresh: u64,
    i: int,
    n: nat,
    j: int,
    vars: spec_fn(u64) -> int,
    arrs: spec_fn(u64, int) -> int,
    tabs: spec_fn(u64, int, int) -> int,
)
    requires
        n <= ROWS,
        0 <= i < n,
        value(m, 0, i, vars, arrs, tabs) != 0,
    ensures
        eval_int(mask_table(x, m, fresh, n).1, vars, arrs, tabs) == rows_kept_before(m, n, vars, arrs, tabs),
        eval_row_select(mask_table(x, m, fresh, n).0, rows_kept_before(m, i as nat, vars, arrs, tabs), j, vars, arrs, tabs)
            == eval_select(mask_state(x, m, fresh, true, ((i + 1) * COLS) as nat).0, j, vars, arrs, tabs),
    decreases n,
{
    lemma_rows_kept_before_bounds(m, i as nat, (n - 1) as nat, vars, arrs, tabs);
    lemma_mask_table_count(x, m, fresh, n, vars, arrs, tabs);
    lemma_mask_table_count(x, m, fresh, (n - 1) as nat, vars, arrs, tabs);
    if i < n - 1 {
        lemma_mask_table_value(x, m, fresh, i, (n - 1) as nat, j, vars, arrs, tabs);
    }
}

proof fn lemma_mask_table_count(
    x: Grid<IntExpr>,
    m: Grid<IntExpr>,
    fresh: u64,
    n: nat,
    vars: spec_fn(u64) -> int,
    arrs: spec_fn(u64, int) -> int,
    tabs: spec_fn(u64, int, int) -> int,
)
    requires
        n <= ROWS,
    ensures
        eval_int(mask_table(x, m, fresh, n).1, vars, arrs, tabs) == rows_kept_before(m, n, vars, arrs, tabs),
    decreases n,
{
    if n > 0 {
        lemma_mask_table_count(x, m, fresh, (n - 1) as nat, vars, arrs, tabs);
    }
}

/// Masking rows: each row `i` of `a` that the row mask (row 0 of `b`) keeps lands, whole,
/// in the row of the result that counts the kept rows before it; the row count of the
/// result is the number of kept rows.
pub proof fn law_boolean_mask_rows_packs_kept_rows(
    ops: Seq<Grid<IntExpr>>,
    fresh: u64,
    i: int,
    j: int,
    vars: spec_fn(u64) -> int,
    arrs: spec_fn(u64, int) -> int,
    tabs: spec_fn(u64, int, int) -> int,
)
    requires
        ops.len() >= 2,
        0 <= i < ROWS,
        0 <= j < COLS,
        value(ops[1], 0, i, vars, arrs, tabs) != 0,
    ensures
        ({
            let r = rows_kept_before(ops[1], i as nat, vars, arrs, tabs);
            &&& 0 <= r <= i
            &&& eval_int(TfBooleanMask_.spec_expression(ops, fresh).at(r, j), vars, arrs, tabs)
                == value(ops[0], i, j, vars, arrs, tabs)
        }),
        eval_int(TfBooleanMask_.spec_expression(ops, fresh).dims.0, vars, arrs, tabs) == rows_kept_before(
            ops[1],
            ROWS as nat,
            vars,
            arrs,
            tabs,
        ),
{
    let r = rows_kept_before(ops[1], i as nat, vars, arrs, tabs);
    lemma_rows_kept_before_bounds(ops[1], i as nat, i as nat, vars, arrs, tabs);
    lemma_mask_table_value(ops[0], ops[1], fresh, i, ROWS as nat, j, vars, arrs, tabs);
    lemma_row_mask_stores(ops[0], ops[1], fresh, i, j, COLS as nat, vars, arrs, tabs);
    assert((i + 1) * COLS == i * COLS + COLS);
}

} // verus!
