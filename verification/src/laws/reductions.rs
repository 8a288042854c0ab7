//! What the encodings of the reducing components mean.

use vstd::prelude::*;

use crate::component::Component;
use crate::components::reduce::{
    all_max, all_sum, col_any, col_max, col_sum, nonzero, row_prod, TfReduceAny0, TfReduceMax,
    TfReduceMax0, TfReduceMean, TfReduceProd, TfReduceSum, TfReduceSum0,
};
use crate::expr::{eval_bool, eval_int, IntExpr};
use crate::laws::{inside, value};
use crate::{Grid, COLS, ROWS};

verus! {

broadcast use crate::expr::group_eval;

/// The sum of the values of the first `n` rows of column `j`.
pub open spec fn col_total(
    x: Grid<IntExpr>,
    j: int,
    n: nat,
    vars: spec_fn(u64) -> int,
    arrs: spec_fn(u64, int) -> int,
    tabs: spec_fn(u64, int, int) -> int,
) -> int
    decreases n,
{
    if n == 0 {
        0
    } else {
        col_total(x, j, (n - 1) as nat, vars, arrs, tabs) + value(x, n - 1, j, vars, arrs, tabs)
    }
}

/// The sum of the values of the first `n` cells, row by row.
pub open spec fn grid_total(
    x: Grid<IntExpr>,
    n: nat,
    vars: spec_fn(u64) -> int,
    arrs: spec_fn(u64, int) -> int,
    tabs: spec_fn(u64, int, int) -> int,
) -> int
    decreases n,
{
    if n == 0 {
        0
    } else {
        let k = n - 1;
        grid_total(x, (n - 1) as nat, vars, arrs, tabs) + value(x, k / COLS as int, k % COLS as int, vars, arrs, tabs)
    }
}

/// The product of the values of the first `n` cells of row `i` that lie below the
/// column count.
pub open spec fn row_product(
    x: Grid<IntExpr>,
    i: int,
    n: nat,
    vars: spec_fn(u64) -> int,
    arrs: spec_fn(u64, int) -> int,
    tabs: spec_fn(u64, int, int) -> int,
) -> int
    decreases n,
{
    if n == 0 {
        1
    } else {
        let p = row_product(x, i, (n - 1) as nat, vars, arrs, tabs);
        if n - 1 < eval_int(x.dims.1, vars, arrs, tabs) {
            p * value(x, i, n - 1, vars, arrs, tabs)
        } else {
            p
        }
    }
}

proof fn lemma_col_sum_value(
    x: Grid<IntExpr>,
    j: int,
    n: nat,
    vars: spec_fn(u64) -> int,
    arrs: spec_fn(u64, int) -> int,
    tabs: spec_fn(u64, int, int) -> int,
)
    ensures
        eval_int(col_sum(x, j, n), vars, arrs, tabs) == col_total(x, j, n, vars, arrs, tabs),
    decreases n,
{
    if n > 0 {
        lemma_col_sum_value(x, j, (n - 1) as nat, vars, arrs, tabs);
    }
}

proof fn lemma_all_sum_value(
    x: Grid<IntExpr>,
    n: nat,
    vars: spec_fn(u64) -> int,
    arrs: spec_fn(u64, int) -> int,
    tabs: spec_fn(u64, int, int) -> int,
)
    ensures
        eval_int(all_sum(x, n), vars, arrs, tabs) == grid_total(x, n, vars, arrs, tabs),
    decreases n,
{
    if n > 0 {
        lemma_all_sum_value(x, (n - 1) as nat, vars, arrs, tabs);
    }
}

proof fn lemma_row_prod_value(
    x: Grid<IntExpr>,
    i: int,
    n: nat,
    vars: spec_fn(u64) -> int,
    arrs: spec_fn(u64, int) -> int,
    tabs: spec_fn(u64, int, int) -> int,
)
    requires
        n <= COLS,
    ensures
        eval_int(row_prod(x, i, n), vars, arrs, tabs) == row_product(x, i, n, vars, arrs, tabs),
    decreases n,
{
    if n > 0 {
        lemma_row_prod_value(x, i, (n - 1) as nat, vars, arrs, tabs);
    }
}

/// Summing everything: the value of the result at `(0, 0)` is the sum of the values of
/// all cells, and the result is 1 x 1.
pub proof fn law_reduce_sum_totals(
    ops: Seq<Grid<IntExpr>>,
    fresh: u64,
    vars: spec_fn(u64) -> int,
    arrs: spec_fn(u64, int) -> int,
    tabs: spec_fn(u64, int, int) -> int,
)
    requires
        ops.len() >= 1,
    ensures
        eval_int(TfReduceSum.spec_expression(ops, fresh).at(0, 0), vars, arrs, tabs) == grid_total(
            ops[0],
            (ROWS * COLS) as nat,
            vars,
            arrs,
            tabs,
        ),
        eval_int(TfReduceSum.spec_expression(ops, fresh).dims.0, vars, arrs, tabs) == 1,
        eval_int(TfReduceSum.spec_expression(ops, fresh).dims.1, vars, arrs, tabs) == 1,
{
    lemma_all_sum_value(ops[0], (ROWS * COLS) as nat, vars, arrs, tabs);
}

/// Summing each column: the value of the result at `(0, j)` is the sum of the values of
/// column `j`.
pub proof fn law_reduce_sum0_sums_columns(
    ops: Seq<Grid<IntExpr>>,
    fresh: u64,
    j: int,
    vars: spec_fn(u64) -> int,
    arrs: spec_fn(u64, int) -> int,
    tabs: spec_fn(u64, int, int) -> int,
)
    requires
        ops.len() >= 1,
        0 <= j < COLS,
    ensures
        eval_int(TfReduceSum0.spec_expression(ops, fresh).at(0, j), vars, arrs, tabs) == col_total(
            ops[0],
            j,
            ROWS as nat,
            vars,
            arrs,
            tabs,
        ),
{
    lemma_col_sum_value(ops[0], j, ROWS as nat, vars, arrs, tabs);
}

/// The mean of each column: the value of the result at `(0, j)` is the sum of the values
/// of column `j` divided (rounding down) by the value of the row count.
pub proof fn law_reduce_mean_averages_columns(
    ops: Seq<Grid<IntExpr>>,
    fresh: u64,
    j: int,
    vars: spec_fn(u64) -> int,
    arrs: spec_fn(u64, int) -> int,
    tabs: spec_fn(u64, int, int) -> int,
)
    requires
        ops.len() >= 1,
        0 <= j < COLS,
    ensures
        eval_int(TfReduceMean.spec_expression(ops, fresh).at(0, j), vars, arrs, tabs) == col_total(
            ops[0],
            j,
            ROWS as nat,
            vars,
            arrs,
            tabs,
        ) / eval_int(ops[0].dims.0, vars, arrs, tabs),
{
    lemma_col_sum_value(ops[0], j, ROWS as nat, vars, arrs, tabs);
}

/// The product of each row: the value of the result at `(0, i)` is the product of the
/// values of row `i` below the column count.
pub proof fn law_reduce_prod_multiplies_rows(
    ops: Seq<Grid<IntExpr>>,
    fresh: u64,
    i: int,
    vars: spec_fn(u64) -> int,
    arrs: spec_fn(u64, int) -> int,
    tabs: spec_fn(u64, int, int) -> int,
)
    requires
        ops.len() >= 1,
        0 <= i < ROWS,
    ensures
        eval_int(TfReduceProd.spec_expression(ops, fresh).at(0, i), vars, arrs, tabs) == row_product(
            ops[0],
            i,
            COLS as nat,
            vars,
            arrs,
            tabs,
        ),
{
    lemma_row_prod_value(ops[0], i, COLS as nat, vars, arrs, tabs);
}

proof fn lemma_col_max_value(
    x: Grid<IntExpr>,
    j: int,
    n: nat,
    vars: spec_fn(u64) -> int,
    arrs: spec_fn(u64, int) -> int,
    tabs: spec_fn(u64, int, int) -> int,
)
    requires
        0 <= j < COLS,
        n <= ROWS,
    ensures
        ({
            let m = eval_int(col_max(x, j, n), vars, arrs, tabs);
            &&& m >= i64::MIN
            &&& forall|i: int| 0 <= i < n && inside(x, i, j, vars, arrs, tabs) ==> value(x, i, j, vars, arrs, tabs) <= m
            &&& (m == i64::MIN || exists|i: int| 0 <= i < n && inside(x, i, j, vars, arrs, tabs) && value(x, i, j, vars, arrs, tabs) == m)
        }),
    decreases n,
{
    if n > 0 {
        lemma_col_max_value(x, j, (n - 1) as nat, vars, arrs, tabs);
        let m0 = eval_int(col_max(x, j, (n - 1) as nat), vars, arrs, tabs);
        let m = eval_int(col_max(x, j, n), vars, arrs, tabs);
        if m != i64::MIN && m != m0 {
            assert(inside(x, n - 1, j, vars, arrs, tabs) && value(x, n - 1, j, vars, arrs, tabs) == m);
        }
        if m != i64::MIN && m == m0 && m0 != i64::MIN {
            let w = choose|i: int| 0 <= i < n - 1 && inside(x, i, j, vars, arrs, tabs) && value(x, i, j, vars, arrs, tabs) == m0;
            assert(0 <= w < n && inside(x, w, j, vars, arrs, tabs) && value(x, w, j, vars, arrs, tabs) == m);
        }
    }
}

/// The largest of each column: the value of the result at `(0, j)` is at least every
/// value of column `j` inside the dimensions, and is one of them unless it is `i64::MIN`.
pub proof fn law_reduce_max0_is_column_maximum(
    ops: Seq<Grid<IntExpr>>,
    fresh: u64,
    j: int,
    vars: spec_fn(u64) -> int,
    arrs: spec_fn(u64, int) -> int,
    tabs: spec_fn(u64, int, int) -> int,
)
    requires
        ops.len() >= 1,
        0 <= j < COLS,
    ensures
        ({
            let m = eval_int(TfReduceMax0.spec_expression(ops, fresh).at(0, j), vars, arrs, tabs);
            &&& m >= i64::MIN
            &&& forall|i: int| 0 <= i < ROWS && inside(ops[0], i, j, vars, arrs, tabs) ==> value(ops[0], i, j, vars, arrs, tabs) <= m
            &&& (m == i64::MIN || exists|i: int| 0 <= i < ROWS && inside(ops[0], i, j, vars, arrs, tabs) && value(ops[0], i, j, vars, arrs, tabs) == m)
        }),
{
    lemma_col_max_value(ops[0], j, ROWS as nat, vars, arrs, tabs);
}

/// The value of the `k`-th cell, row by row.
spec fn flat_value(
    x: Grid<IntExpr>,
    k: int,
    vars: spec_fn(u64) -> int,
    arrs: spec_fn(u64, int) -> int,
    tabs: spec_fn(u64, int, int) -> int,
) -> int {
    value(x, k / COLS as int, k % COLS as int, vars, arrs, tabs)
}

/// Whether the `k`-th cell, row by row, lies inside the dimensions.
spec fn flat_inside(
    x: Grid<IntExpr>,
    k: int,
    vars: spec_fn(u64) -> int,
    arrs: spec_fn(u64, int) -> int,
    tabs: spec_fn(u64, int, int) -> int,
) -> bool {
    inside(x, k / COLS as int, k % COLS as int, vars, arrs, tabs)
}

proof fn lemma_all_max_value(
    x: Grid<IntExpr>,
    n: nat,
    vars: spec_fn(u64) -> int,
    arrs: spec_fn(u64, int) -> int,
    tabs: spec_fn(u64, int, int) -> int,
)
    requires
        n <= ROWS * COLS,
    ensures
        ({
            let m = eval_int(all_max(x, n), vars, arrs, tabs);
            &&& m >= i64::MIN
            &&& forall|k: int| 0 <= k < n && #[trigger] flat_inside(x, k, vars, arrs, tabs) ==> flat_value(x, k, vars, arrs, tabs) <= m
            &&& (m == i64::MIN || exists|k: int| 0 <= k < n && #[trigger] flat_inside(x, k, vars, arrs, tabs) && flat_value(x, k, vars, arrs, tabs) == m)
        }),
    decreases n,
{
    if n > 0 {
        lemma_all_max_value(x, (n - 1) as nat, vars, arrs, tabs);
        let k = n - 1;
        assert(0 <= (k / COLS as int) && (k / COLS as int) < ROWS && 0 <= (k % COLS as int) && (k % COLS as int) < COLS);
        let m0 = eval_int(all_max(x, (n - 1) as nat), vars, arrs, tabs);
        let m = eval_int(all_max(x, n), vars, arrs, tabs);
        if m != i64::MIN && m != m0 {
            assert(flat_inside(x, k, vars, arrs, tabs) && flat_value(x, k, vars, arrs, tabs) == m);
        }
        if m != i64::MIN && m == m0 && m0 != i64::MIN {
            let w = choose|k: int| 0 <= k < n - 1 && #[trigger] flat_inside(x, k, vars, arrs, tabs) && flat_value(x, k, vars, arrs, tabs) == m0;
            assert(0 <= w < n && flat_inside(x, w, vars, arrs, tabs));
        }
    }
}

/// The largest of all: the value of the result at `(0, 0)` is at least the value of every
/// cell inside the dimensions, and is one of them unless it is `i64::MIN`.
pub proof fn law_reduce_max_is_maximum(
    ops: Seq<Grid<IntExpr>>,
    fresh: u64,
    vars: spec_fn(u64) -> int,
    arrs: spec_fn(u64, int) -> int,
    tabs: spec_fn(u64, int, int) -> int,
)
    requires
        ops.len() >= 1,
    ensures
        ({
            let m = eval_int(TfReduceMax.spec_expression(ops, fresh).at(0, 0), vars, arrs, tabs);
            &&& m >= i64::MIN
            &&& forall|i: int, j: int| 0 <= i < ROWS && 0 <= j < COLS && inside(ops[0], i, j, vars, arrs, tabs)
                ==> value(ops[0], i, j, vars, arrs, tabs) <= m
            &&& (m == i64::MIN || exists|i: int, j: int| 0 <= i < ROWS && 0 <= j < COLS && inside(ops[0], i, j, vars, arrs, tabs)
                && value(ops[0], i, j, vars, arrs, tabs) == m)
        }),
{
    let x = ops[0];
    lemma_all_max_value(x, (ROWS * COLS) as nat, vars, arrs, tabs);
    let m = eval_int(all_max(x, (ROWS * COLS) as nat), vars, arrs, tabs);
    assert forall|i: int, j: int| 0 <= i < ROWS && 0 <= j < COLS && inside(x, i, j, vars, arrs, tabs)
        implies value(x, i, j, vars, arrs, tabs) <= m by {
        let k = i * COLS + j;
        assert(k / COLS as int == i && k % COLS as int == j);
        assert(flat_inside(x, k, vars, arrs, tabs));
    }
    if m != i64::MIN {
        let k = choose|k: int| 0 <= k < ROWS * COLS && #[trigger] flat_inside(x, k, vars, arrs, tabs)
            && flat_value(x, k, vars, arrs, tabs) == m;
        let i = k / COLS as int;
        let j = k % COLS as int;
        assert(0 <= i && i < ROWS && 0 <= j && j < COLS);
        assert(inside(x, i, j, vars, arrs, tabs) && value(x, i, j, vars, arrs, tabs) == m);
    }
}

proof fn lemma_col_any_value(
    x: Grid<IntExpr>,
    j: int,
    n: nat,
    vars: spec_fn(u64) -> int,
    arrs: spec_fn(u64, int) -> int,
    tabs: spec_fn(u64, int, int) -> int,
)
    ensures
        eval_bool(col_any(x, j, n), vars, arrs, tabs) <==> exists|i: int|
            0 <= i < n && value(x, i, j, vars, arrs, tabs) != 0,
    decreases n,
{
    if n > 0 {
        lemma_col_any_value(x, j, (n - 1) as nat, vars, arrs, tabs);
        assert(eval_bool(nonzero(x.at(n - 1, j)), vars, arrs, tabs) == (value(x, n - 1, j, vars, arrs, tabs) != 0));
        if eval_bool(col_any(x, j, n), vars, arrs, tabs) && !eval_bool(col_any(x, j, (n - 1) as nat), vars, arrs, tabs) {
            assert(value(x, n - 1, j, vars, arrs, tabs) != 0);
        }
    }
}

/// Any along each column: the value of the result at `(0, j)` is 1 when some cell of
/// column `j` is not 0, else 0.
pub proof fn law_reduce_any0_tests_columns(
    ops: Seq<Grid<IntExpr>>,
    fresh: u64,
    j: int,
    vars: spec_fn(u64) -> int,
    arrs: spec_fn(u64, int) -> int,
    tabs: spec_fn(u64, int, int) -> int,
)
    requires
        ops.len() >= 1,
        0 <= j < COLS,
    ensures
        eval_int(TfReduceAny0.spec_expression(ops, fresh).at(0, j), vars, arrs, tabs) == if exists|i: int|
            0 <= i < ROWS && value(ops[0], i, j, vars, arrs, tabs) != 0 {
            1int
        } else {
            0int
        },
{
    lemma_col_any_value(ops[0], j, ROWS as nat, vars, arrs, tabs);
}

} // verus!
