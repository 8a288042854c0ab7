//! What the encodings of the building, reshaping and scanning components mean.

use vstd::prelude::*;

use crate::component::Component;
use crate::components::shape::{
    cumsum, roll_head, roll_shifted, TfCumsum, TfExpandDims, TfFill, TfOneHot, TfOnes, TfRoll, TfTensordot,
};
use crate::expr::{cap_rows, eval_int, IntExpr};
use crate::laws::{dot_value, lemma_dot_value, row_total, value};
use crate::{Grid, COLS, ROWS};

verus! {

broadcast use crate::expr::group_eval;

/// Filling: `b[0][0]` inside `a[0][0]` rows and `a[0][1]` columns, 0 elsewhere.
pub proof fn law_fill_fills(
    ops: Seq<Grid<IntExpr>>,
    fresh: u64,
    i: int,
    j: int,
    vars: spec_fn(u64) -> int,
    arrs: spec_fn(u64, int) -> int,
    tabs: spec_fn(u64, int, int) -> int,
)
    requires
        ops.len() >= 2,
        0 <= i < ROWS,
        0 <= j < COLS,
    ensures
        eval_int(TfFill.spec_expression(ops, fresh).at(i, j), vars, arrs, tabs) == if i < value(ops[0], 0, 0, vars, arrs, tabs)
            && j < value(ops[0], 0, 1, vars, arrs, tabs) {
            value(ops[1], 0, 0, vars, arrs, tabs)
        } else {
            0int
        },
        TfFill.spec_expression(ops, fresh).dims == (ops[0].at(0, 0), ops[0].at(0, 1)),
{
}

/// Ones: 1 inside `a[0][0]` rows and `a[0][1]` columns, 0 elsewhere.
pub proof fn law_ones_fills_ones(
    ops: Seq<Grid<IntExpr>>,
    fresh: u64,
    i: int,
    j: int,
    vars: spec_fn(u64) -> int,
    arrs: spec_fn(u64, int) -> int,
    tabs: spec_fn(u64, int, int) -> int,
)
    requires
        ops.len() >= 1,
        0 <= i < ROWS,
        0 <= j < COLS,
    ensures
        eval_int(TfOnes.spec_expression(ops, fresh).at(i, j), vars, arrs, tabs) == if i < value(ops[0], 0, 0, vars, arrs, tabs)
            && j < value(ops[0], 0, 1, vars, arrs, tabs) {
            1int
        } else {
            0int
        },
{
}

/// One-hot rows: row `i` (below the row count) holds 1 at column `a[0][i]` when that
/// column is below both the column count and the depth `b[0][0]`, and 0 elsewhere.
pub proof fn law_one_hot_marks_index(
    ops: Seq<Grid<IntExpr>>,
    fresh: u64,
    i: int,
    j: int,
    vars: spec_fn(u64) -> int,
    arrs: spec_fn(u64, int) -> int,
    tabs: spec_fn(u64, int, int) -> int,
)
    requires
        ops.len() >= 2,
        0 <= i < ROWS,
        0 <= j < COLS,
    ensures
        eval_int(TfOneHot.spec_expression(ops, fresh).at(i, j), vars, arrs, tabs) == if i < eval_int(
            ops[0].dims.0,
            vars,
            arrs,
            tabs,
        ) && j < eval_int(ops[0].dims.1, vars, arrs, tabs) && j < value(ops[1], 0, 0, vars, arrs, tabs)
            && value(ops[0], 0, i, vars, arrs, tabs) == j {
            1int
        } else {
            0int
        },
{
}

/// The tensor dot product over one axis is the matrix product of the leading square
/// blocks.
pub proof fn law_tensordot_is_product(
    ops: Seq<Grid<IntExpr>>,
    fresh: u64,
    i: int,
    j: int,
    vars: spec_fn(u64) -> int,
    arrs: spec_fn(u64, int) -> int,
    tabs: spec_fn(u64, int, int) -> int,
)
    requires
        ops.len() >= 2,
        0 <= i < ROWS,
        0 <= j < COLS,
    ensures
        eval_int(TfTensordot.spec_expression(ops, fresh).at(i, j), vars, arrs, tabs) == if j < ROWS {
            dot_value(ops[0], ops[1], i, j, ROWS as nat, vars, arrs, tabs)
        } else {
            0
        },
{
    lemma_dot_value(ops[0], ops[1], i, j, ROWS as nat, vars, arrs, tabs);
}

/// Adding a dimension: column 0 of the result holds row 0 of the operand, stood up as a
/// column, the other columns 0; the result has as many rows as the operand has columns
/// (at most the row capacity) and one column.
pub proof fn law_expand_dims_stands_row_up(ops: Seq<Grid<IntExpr>>, fresh: u64, i: int, j: int)
    requires
        ops.len() >= 1,
        0 <= i < ROWS,
        0 <= j < COLS,
    ensures
        TfExpandDims.spec_expression(ops, fresh).at(i, j) == if j == 0 {
            ops[0].at(0, i)
        } else {
            IntExpr::Const(0)
        },
        TfExpandDims.spec_expression(ops, fresh).dims == (cap_rows(ops[0].dims.1), IntExpr::Const(1)),
{
}

proof fn lemma_cumsum_value(
    x: Grid<IntExpr>,
    y: Grid<IntExpr>,
    i: int,
    j: nat,
    vars: spec_fn(u64) -> int,
    arrs: spec_fn(u64, int) -> int,
    tabs: spec_fn(u64, int, int) -> int,
)
    requires
        j < COLS,
        j == 0 || j < eval_int(x.dims.1, vars, arrs, tabs),
    ensures
        eval_int(cumsum(x, y, i, j), vars, arrs, tabs) == if value(y, 0, 0, vars, arrs, tabs) == 0 {
            row_total(x, i, j + 1, vars, arrs, tabs)
        } else {
            row_total(x, i, j, vars, arrs, tabs)
        },
    decreases j,
{
    assert(row_total(x, i, j + 1, vars, arrs, tabs) == row_total(x, i, j, vars, arrs, tabs) + value(x, i, j as int, vars, arrs, tabs));
    if j > 0 {
        lemma_cumsum_value(x, y, i, (j - 1) as nat, vars, arrs, tabs);
        assert(row_total(x, i, j, vars, arrs, tabs) == row_total(x, i, (j - 1) as nat, vars, arrs, tabs) + value(x, i, j - 1, vars, arrs, tabs));
        assert(eval_int(cumsum(x, y, i, j), vars, arrs, tabs) == eval_int(cumsum(x, y, i, (j - 1) as nat), vars, arrs, tabs) + if value(y, 0, 0, vars, arrs, tabs) == 0 {
            value(x, i, j as int, vars, arrs, tabs)
        } else {
            value(x, i, j - 1, vars, arrs, tabs)
        });
    }
}

/// Running sums: inside the column count (and always at column 0), the value of the
/// result at `(i, j)` is the sum of row `i` up to column `j`, inclusive when `b[0][0]` is
/// 0 and exclusive otherwise; beyond the column count, 0.
pub proof fn law_cumsum_sums_prefixes(
    ops: Seq<Grid<IntExpr>>,
    fresh: u64,
    i: int,
    j: int,
    vars: spec_fn(u64) -> int,
    arrs: spec_fn(u64, int) -> int,
    tabs: spec_fn(u64, int, int) -> int,
)
    requires
        ops.len() >= 2,
        0 <= i < ROWS,
        0 <= j < COLS,
    ensures
        eval_int(TfCumsum.spec_expression(ops, fresh).at(i, j), vars, arrs, tabs) == if j == 0 || j < eval_int(
            ops[0].dims.1,
            vars,
            arrs,
            tabs,
        ) {
            if value(ops[1], 0, 0, vars, arrs, tabs) == 0 {
                row_total(ops[0], i, (j + 1) as nat, vars, arrs, tabs)
            } else {
                row_total(ops[0], i, j as nat, vars, arrs, tabs)
            }
        } else {
            0
        },
{
    if j == 0 || j < eval_int(ops[0].dims.1, vars, arrs, tabs) {
        lemma_cumsum_value(ops[0], ops[1], i, j as nat, vars, arrs, tabs);
    }
}

/// Rolling: from column 1 on, a cell inside the column count takes the operand's cell one
/// column to its left in the same row when that row is inside the row count; every other
/// cell from column 1 on is 0.
pub proof fn law_roll_shifts_right(
    ops: Seq<Grid<IntExpr>>,
    fresh: u64,
    i: int,
    j: int,
    vars: spec_fn(u64) -> int,
    arrs: spec_fn(u64, int) -> int,
    tabs: spec_fn(u64, int, int) -> int,
)
    requires
        ops.len() >= 1,
        0 <= i < ROWS,
        1 <= j < COLS,
    ensures
        eval_int(TfRoll.spec_expression(ops, fresh).at(i, j), vars, arrs, tabs) == if i
            < eval_int(ops[0].dims.0, vars, arrs, tabs) && j < eval_int(ops[0].dims.1, vars, arrs, tabs) {
            value(ops[0], i, j - 1, vars, arrs, tabs)
        } else {
            0int
        },
{
}

proof fn lemma_roll_head_value(
    x: Grid<IntExpr>,
    i: int,
    n: nat,
    vars: spec_fn(u64) -> int,
    arrs: spec_fn(u64, int) -> int,
    tabs: spec_fn(u64, int, int) -> int,
)
    requires
        1 <= n <= COLS,
    ensures
        ({
            let c = eval_int(x.dims.1, vars, arrs, tabs);
            eval_int(roll_head(x, i, n), vars, arrs, tabs) == if c <= 0 {
                0int
            } else if c <= n {
                value(x, i, c - 1, vars, arrs, tabs)
            } else {
                eval_int(roll_shifted(x, i, 0), vars, arrs, tabs)
            }
        }),
    decreases n,
{
    if n > 1 {
        lemma_roll_head_value(x, i, (n - 1) as nat, vars, arrs, tabs);
    }
}

/// Rolling wraps each row: column 0 takes the row's last cell inside the column count
/// (the one at column count - 1), so a row inside the row count rotates by one; with no
/// columns it is 0. A column count past the capacity wraps the last stored cell.
pub proof fn law_roll_wraps_last_cell(
    ops: Seq<Grid<IntExpr>>,
    fresh: u64,
    i: int,
    vars: spec_fn(u64) -> int,
    arrs: spec_fn(u64, int) -> int,
    tabs: spec_fn(u64, int, int) -> int,
)
    requires
        ops.len() >= 1,
        0 <= i < ROWS,
    ensures
        ({
            let c = eval_int(ops[0].dims.1, vars, arrs, tabs);
            eval_int(TfRoll.spec_expression(ops, fresh).at(i, 0), vars, arrs, tabs) == if c <= 0 {
                0int
            } else if c <= COLS {
                value(ops[0], i, c - 1, vars, arrs, tabs)
            } else if i < eval_int(ops[0].dims.0, vars, arrs, tabs) {
                value(ops[0], i, COLS - 1, vars, arrs, tabs)
            } else {
                0int
            }
        }),
{
    lemma_roll_head_value(ops[0], i, COLS as nat, vars, arrs, tabs);
}

} // verus!
