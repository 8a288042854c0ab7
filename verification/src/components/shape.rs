//! Components that build, reshape or scan tensors.

use vstd::prelude::*;

use crate::component::{grids, Component};
use crate::expr::{
    and3, and3_expr, b_and, b_eq, b_gt, b_lt, build_grid, cap_rows, cap_rows_expr, e_add, e_const,
    e_ite, e_mul, e_sub, in_bounds, in_bounds_expr, one, one_expr, table, zero, zero_expr, BoolExpr,
    ExprContext, IntExpr,
};
use crate::operator::Operator;
use crate::{Grid, Id, Vecs, COLS, ROWS};

verus! {

/// `start + 1 + ... + 1` with `n` ones.
pub open spec fn range_value(start: IntExpr, n: nat) -> IntExpr
    decreases n,
{
    if n == 0 {
        start
    } else {
        e_add(range_value(start, (n - 1) as nat), one())
    }
}

/// `limit - start` when it is positive, else 0.
pub open spec fn range_length(start: IntExpr, limit: IntExpr) -> IntExpr {
    e_ite(b_gt(e_sub(limit, start), zero()), e_sub(limit, start), zero())
}

fn range_value_expr(start: IntExpr, n: usize, bit_width: u32) -> (r: IntExpr)
    ensures
        r == range_value(start, n as nat),
{
    let mut v = start;
    let mut k: usize = 0;
    while k < n
        invariant
            k <= n,
            v == range_value(start, k as nat),
        decreases n - k,
    {
        v = IntExpr::add(v, one_expr(bit_width));
        k += 1;
    }
    v
}

fn range_length_expr(start: IntExpr, limit: IntExpr, bit_width: u32) -> (r: IntExpr)
    ensures
        r == range_length(start, limit),
{
    let len = IntExpr::sub(limit, start);
    IntExpr::ite(BoolExpr::gt(len.dup(), zero_expr(bit_width)), len.dup(), zero_expr(bit_width))
}

/// The running maximum (from 0) of the first `n` cells of row 0.
pub open spec fn mask_length(x: Grid<IntExpr>, n: nat) -> IntExpr
    decreases n,
{
    if n == 0 {
        zero()
    } else {
        let m = mask_length(x, (n - 1) as nat);
        e_ite(b_gt(m, x.at(0, n - 1)), m, x.at(0, n - 1))
    }
}

fn mask_length_expr(a: &Vecs<IntExpr>, bit_width: u32) -> (r: IntExpr)
    requires
        a@.well_shaped(),
    ensures
        r == mask_length(a@, ROWS as nat),
{
    let mut m = zero_expr(bit_width);
    let mut k: usize = 0;
    while k < ROWS
        invariant
            k <= ROWS,
            a@.well_shaped(),
            m == mask_length(a@, k as nat),
        decreases ROWS - k,
    {
        m = IntExpr::ite(BoolExpr::gt(m.dup(), a.cell(0, k)), m.dup(), a.cell(0, k));
        k += 1;
    }
    m
}

/// `x[i][0] * y[0][j] + ... + x[i][n-1] * y[n-1][j]`, added from 0 in that order.
pub open spec fn dot(x: Grid<IntExpr>, y: Grid<IntExpr>, i: int, j: int, n: nat) -> IntExpr
    decreases n,
{
    if n == 0 {
        zero()
    } else {
        e_add(dot(x, y, i, j, (n - 1) as nat), e_mul(x.at(i, n - 1), y.at(n - 1, j)))
    }
}

fn dot_expr(a: &Vecs<IntExpr>, b: &Vecs<IntExpr>, i: usize, j: usize, bit_width: u32) -> (r: IntExpr)
    requires
        a@.well_shaped(),
        b@.well_shaped(),
        i < ROWS,
        j < ROWS,
    ensures
        r == dot(a@, b@, i as int, j as int, ROWS as nat),
{
    let mut s = zero_expr(bit_width);
    let mut k: usize = 0;
    while k < ROWS
        invariant
            k <= ROWS,
            i < ROWS,
            j < ROWS,
            a@.well_shaped(),
            b@.well_shaped(),
            s == dot(a@, b@, i as int, j as int, k as nat),
        decreases ROWS - k,
    {
        s = IntExpr::add(s, IntExpr::mul(a.cell(i, k), b.cell(k, j)));
        k += 1;
    }
    s
}

/// The column that moves to column `j` when row `i` rolls by one.
pub open spec fn roll_source(j: int) -> int {
    if j == 0 {
        COLS - 1
    } else {
        j - 1
    }
}

/// What the roll first writes at `(i, j)`: the cell before it, when that cell is inside
/// the dimensions, else 0.
pub open spec fn roll_shifted(x: Grid<IntExpr>, i: int, j: int) -> IntExpr {
    e_ite(in_bounds(x, i, roll_source(j)), x.at(i, roll_source(j)), zero())
}

/// Column 0 of a rolled row after the first `n` columns have been checked: the column
/// whose next index equals the column dimension, the row's last cell, wraps to the front.
pub open spec fn roll_head(x: Grid<IntExpr>, i: int, n: nat) -> IntExpr
    decreases n,
{
    if n <= 1 {
        e_ite(b_lt(e_const(0), x.dims.1), e_ite(b_eq(e_const(1), x.dims.1), x.at(i, 0), roll_shifted(x, i, 0)), zero())
    } else {
        e_ite(b_eq(e_const(n as int), x.dims.1), x.at(i, n - 1), roll_head(x, i, (n - 1) as nat))
    }
}

fn roll_shifted_expr(a: &Vecs<IntExpr>, i: usize, j: usize, bit_width: u32) -> (r: IntExpr)
    requires
        a@.well_shaped(),
        i < ROWS,
        j < COLS,
    ensures
        r == roll_shifted(a@, i as int, j as int),
{
    let src = if j == 0 { COLS - 1 } else { j - 1 };
    IntExpr::ite(in_bounds_expr(a, i, src), a.cell(i, src), zero_expr(bit_width))
}

fn roll_head_expr(a: &Vecs<IntExpr>, i: usize, bit_width: u32) -> (r: IntExpr)
    requires
        a@.well_shaped(),
        i < ROWS,
    ensures
        r == roll_head(a@, i as int, COLS as nat),
{
    let first = IntExpr::ite(
        BoolExpr::eq(IntExpr::index(1), a.dim1()),
        a.cell(i, 0),
        roll_shifted_expr(a, i, 0, bit_width),
    );
    let mut h = IntExpr::ite(BoolExpr::lt(IntExpr::index(0), a.dim1()), first, zero_expr(bit_width));
    let mut k: usize = 1;
    while k < COLS
        invariant
            1 <= k <= COLS,
            i < ROWS,
            a@.well_shaped(),
            h == roll_head(a@, i as int, k as nat),
        decreases COLS - k,
    {
        h = IntExpr::ite(BoolExpr::eq(IntExpr::index(k + 1), a.dim1()), a.cell(i, k), h);
        k += 1;
    }
    h
}

/// Cell `(i, j)` of the running sums: column 0 starts the row, each next column inside the
/// column dimension adds the cell at the same column (exclusive) or the one before it.
pub open spec fn cumsum(x: Grid<IntExpr>, y: Grid<IntExpr>, i: int, j: nat) -> IntExpr
    decreases j,
{
    let exclusive = b_eq(y.at(0, 0), zero());
    if j == 0 {
        e_ite(exclusive, x.at(i, 0), zero())
    } else {
        let same = if j == COLS { COLS - 1 } else { j as int };
        let step = e_ite(exclusive, x.at(i, same), x.at(i, j - 1));
        e_ite(b_lt(e_const(j as int), x.dims.1), e_add(cumsum(x, y, i, (j - 1) as nat), step), zero())
    }
}

fn cumsum_expr(a: &Vecs<IntExpr>, b: &Vecs<IntExpr>, i: usize, j: usize, bit_width: u32) -> (r: IntExpr)
    requires
        a@.well_shaped(),
        b@.well_shaped(),
        i < ROWS,
        j <= COLS,
    ensures
        r == cumsum(a@, b@, i as int, j as nat),
{
    let mut v = IntExpr::ite(BoolExpr::eq(b.cell(0, 0), zero_expr(bit_width)), a.cell(i, 0), zero_expr(bit_width));
    let mut k: usize = 1;
    while k <= j
        invariant
            1 <= k <= j + 1,
            j <= COLS,
            i < ROWS,
            a@.well_shaped(),
            b@.well_shaped(),
            v == cumsum(a@, b@, i as int, (k - 1) as nat),
        decreases j + 1 - k,
    {
        let same = if k == COLS { COLS - 1 } else { k };
        let step = IntExpr::ite(BoolExpr::eq(b.cell(0, 0), zero_expr(bit_width)), a.cell(i, same), a.cell(i, k - 1));
        v = IntExpr::ite(BoolExpr::lt(IntExpr::index(k), a.dim1()), IntExpr::add(v, step), zero_expr(bit_width));
        k += 1;
    }
    v
}

/// The running maximum (from 0) of the first `n` cells, row by row.
pub open spec fn bin_length(x: Grid<IntExpr>, n: nat) -> IntExpr
    decreases n,
{
    if n == 0 {
        zero()
    } else {
        let k = n - 1;
        let m = bin_length(x, (n - 1) as nat);
        let c = x.at(k / COLS as int, k % COLS as int);
        e_ite(b_gt(m, c), m, c)
    }
}

/// How many of the first `n` cells of row `i` equal `k`, counted from 0.
pub open spec fn bin_count(x: Grid<IntExpr>, i: int, k: int, n: nat) -> IntExpr
    decreases n,
{
    if n == 0 {
        zero()
    } else {
        let v = bin_count(x, i, k, (n - 1) as nat);
        e_ite(b_eq(e_const(k), x.at(i, n - 1)), e_add(v, one()), v)
    }
}

fn bin_length_expr(a: &Vecs<IntExpr>, bit_width: u32) -> (r: IntExpr)
    requires
        a@.well_shaped(),
    ensures
        r == bin_length(a@, (ROWS * COLS) as nat),
{
    let mut m = zero_expr(bit_width);
    let mut k: usize = 0;
    while k < ROWS * COLS
        invariant
            k <= ROWS * COLS,
            a@.well_shaped(),
            m == bin_length(a@, k as nat),
        decreases ROWS * COLS - k,
    {
        let c = a.cell(k / COLS, k % COLS);
        m = IntExpr::ite(BoolExpr::gt(m.dup(), c.dup()), m.dup(), c);
        k += 1;
    }
    m
}

fn bin_count_expr(a: &Vecs<IntExpr>, i: usize, k: usize, bit_width: u32) -> (r: IntExpr)
    requires
        a@.well_shaped(),
        i < ROWS,
        k < COLS,
    ensures
        r == bin_count(a@, i as int, k as int, COLS as nat),
{
    let mut v = zero_expr(bit_width);
    let mut j: usize = 0;
    while j < COLS
        invariant
            j <= COLS,
            i < ROWS,
            k < COLS,
            a@.well_shaped(),
            v == bin_count(a@, i as int, k as int, j as nat),
        decreases COLS - j,
    {
        v = IntExpr::ite(BoolExpr::eq(IntExpr::index(k), a.cell(i, j)), IntExpr::add(v.dup(), one_expr(bit_width)), v);
        j += 1;
    }
    v
}

/// The running maximum (from `i64::MIN`) of the first `n` cells of a row.
pub open spec fn row_peak(row: Seq<IntExpr>, n: nat) -> IntExpr
    decreases n,
{
    if n == 0 {
        e_const(i64::MIN as int)
    } else {
        let m = row_peak(row, (n - 1) as nat);
        e_ite(b_gt(row[n - 1], m), row[n - 1], m)
    }
}

/// The first column from `j` on whose cell equals `m`, or 0 when there is none.
pub open spec fn argmax_index(row: Seq<IntExpr>, m: IntExpr, j: nat) -> IntExpr
    decreases COLS - j,
{
    if j >= COLS {
        zero()
    } else {
        e_ite(b_eq(row[j as int], m), e_const(j as int), argmax_index(row, m, j + 1))
    }
}

fn argmax_expr(a: &Vecs<IntExpr>, i: usize, bit_width: u32) -> (r: IntExpr)
    requires
        a@.well_shaped(),
        i < ROWS,
    ensures
        r == argmax_index(a@.cells[i as int], row_peak(a@.cells[i as int], COLS as nat), 0),
{
    let ghost row = a@.cells[i as int];
    let mut m = IntExpr::lit(i64::MIN);
    let mut j: usize = 0;
    while j < COLS
        invariant
            j <= COLS,
            i < ROWS,
            a@.well_shaped(),
            row == a@.cells[i as int],
            m == row_peak(row, j as nat),
        decreases COLS - j,
    {
        let c = a.cell(i, j);
        m = IntExpr::ite(BoolExpr::gt(c.dup(), m.dup()), c, m);
        j += 1;
    }
    let mut index = zero_expr(bit_width);
    let mut k: usize = COLS;
    while k > 0
        invariant
            k <= COLS,
            i < ROWS,
            a@.well_shaped(),
            row == a@.cells[i as int],
            m == row_peak(row, COLS as nat),
            index == argmax_index(row, m, k as nat),
        decreases k,
    {
        k -= 1;
        index = IntExpr::ite(BoolExpr::eq(a.cell(i, k), m.dup()), IntExpr::index(k), index);
    }
    index
}

/// The cell at `(i, j)` of the result of `TfEye`.
pub open spec fn eye_cell(ops: Seq<Grid<IntExpr>>, fresh: u64, i: int, j: int) -> IntExpr {
    e_ite(and3(b_lt(e_const(i), ops[0].at(0, 0)), b_lt(e_const(j), ops[1].at(0, 0)), b_eq(e_const(i), e_const(j))), one(), zero())
}

/// The identity matrix with `a[0][0]` rows and `b[0][0]` columns.
#[derive(Debug)]
pub struct TfEye;

impl Component for TfEye {
    open spec fn spec_operand_arity(&self) -> nat {
        2
    }

    open spec fn spec_operator(&self, ids: Seq<Id>) -> Operator {
        Operator::TfEye(ids[0], ids[1])
    }

    open spec fn spec_expression(&self, ops: Seq<Grid<IntExpr>>, fresh: u64) -> Grid<IntExpr> {
        Grid {
            dims: (ops[0].at(0, 0), ops[1].at(0, 0)),
            cells: table(COLS as nat, |i: int, j: int| eye_cell(ops, fresh, i, j)),
        }
    }

    open spec fn spec_fresh_count(&self) -> nat {
        0
    }

    open spec fn is_operation(&self) -> bool {
        true
    }

    fn operand_arity(&self) -> usize {
        2
    }

    fn make_operator(&self, _immediates: &Vec<Vecs<i64>>, operands: &[Id]) -> Operator {
        Operator::TfEye(operands[0], operands[1])
    }

    fn make_expression(
        &self,
        context: &mut ExprContext,
        _immediates: &[Vecs<IntExpr>],
        operands: &[Vecs<IntExpr>],
        bit_width: u32,
    ) -> Vecs<IntExpr> {
        let a = &operands[0];
        let b = &operands[1];
        let fresh = context.next_fresh;
        let ghost ops = grids(operands@);
        assert(ops[0] == a@ && ops[1] == b@);
        let vecs = build_grid(
            COLS,
            (|i: usize, j: usize| -> (r: IntExpr)
                requires
                    i < ROWS,
                    j < COLS,
                    a@ == ops[0],
                    a@.well_shaped(),
                    b@ == ops[1],
                    b@.well_shaped(),
                ensures
                    r == eye_cell(ops, fresh, i as int, j as int),
                {
                    let cond = and3_expr(
                        BoolExpr::lt(IntExpr::index(i), a.cell(0, 0)),
                        BoolExpr::lt(IntExpr::index(j), b.cell(0, 0)),
                        BoolExpr::eq(IntExpr::index(i), IntExpr::index(j)),
                    );
                    IntExpr::ite(cond, one_expr(bit_width), zero_expr(bit_width))
                }),
            Ghost(|i: int, j: int| eye_cell(ops, fresh, i, j)),
        );
        let dims = (a.cell(0, 0), b.cell(0, 0));
        Vecs { dims, vecs }
    }
}

/// The cell at `(i, j)` of the result of `TfFill`.
pub open spec fn fill_cell(ops: Seq<Grid<IntExpr>>, fresh: u64, i: int, j: int) -> IntExpr {
    e_ite(b_and(b_lt(e_const(i), ops[0].at(0, 0)), b_lt(e_const(j), ops[0].at(0, 1))), ops[1].at(0, 0), zero())
}

/// `b[0][0]` in every cell of an `a[0][0]` x `a[0][1]` tensor.
#[derive(Debug)]
pub struct TfFill;

impl Component for TfFill {
    open spec fn spec_operand_arity(&self) -> nat {
        2
    }

    open spec fn spec_operator(&self, ids: Seq<Id>) -> Operator {
        Operator::TfFill(ids[0], ids[1])
    }

    open spec fn spec_expression(&self, ops: Seq<Grid<IntExpr>>, fresh: u64) -> Grid<IntExpr> {
        Grid {
            dims: (ops[0].at(0, 0), ops[0].at(0, 1)),
            cells: table(COLS as nat, |i: int, j: int| fill_cell(ops, fresh, i, j)),
        }
    }

    open spec fn spec_fresh_count(&self) -> nat {
        0
    }

    open spec fn is_operation(&self) -> bool {
        true
    }

    fn operand_arity(&self) -> usize {
        2
    }

    fn make_operator(&self, _immediates: &Vec<Vecs<i64>>, operands: &[Id]) -> Operator {
        Operator::TfFill(operands[0], operands[1])
    }

    fn make_expression(
        &self,
        context: &mut ExprContext,
        _immediates: &[Vecs<IntExpr>],
        operands: &[Vecs<IntExpr>],
        bit_width: u32,
    ) -> Vecs<IntExpr> {
        let a = &operands[0];
        let b = &operands[1];
        let fresh = context.next_fresh;
        let ghost ops = grids(operands@);
        assert(ops[0] == a@ && ops[1] == b@);
        let vecs = build_grid(
            COLS,
            (|i: usize, j: usize| -> (r: IntExpr)
                requires
                    i < ROWS,
                    j < COLS,
                    a@ == ops[0],
                    a@.well_shaped(),
                    b@ == ops[1],
                    b@.well_shaped(),
                ensures
                    r == fill_cell(ops, fresh, i as int, j as int),
                {
                    let cond = BoolExpr::and(
                        BoolExpr::lt(IntExpr::index(i), a.cell(0, 0)),
                        BoolExpr::lt(IntExpr::index(j), a.cell(0, 1)),
                    );
                    IntExpr::ite(cond, b.cell(0, 0), zero_expr(bit_width))
                }),
            Ghost(|i: int, j: int| fill_cell(ops, fresh, i, j)),
        );
        let dims = (a.cell(0, 0), a.cell(0, 1));
        Vecs { dims, vecs }
    }
}

/// The cell at `(i, j)` of the result of `TfOnes`.
pub open spec fn ones_cell(ops: Seq<Grid<IntExpr>>, fresh: u64, i: int, j: int) -> IntExpr {
    e_ite(b_and(b_lt(e_const(i), ops[0].at(0, 0)), b_lt(e_const(j), ops[0].at(0, 1))), one(), zero())
}

/// 1 in every cell of an `a[0][0]` x `a[0][1]` tensor.
#[derive(Debug)]
pub struct TfOnes;

impl Component for TfOnes {
    open spec fn spec_operand_arity(&self) -> nat {
        1
    }

    open spec fn spec_operator(&self, ids: Seq<Id>) -> Operator {
        Operator::TfOnes(ids[0])
    }

    open spec fn spec_expression(&self, ops: Seq<Grid<IntExpr>>, fresh: u64) -> Grid<IntExpr> {
        Grid {
            dims: (ops[0].at(0, 0), ops[0].at(0, 1)),
            cells: table(COLS as nat, |i: int, j: int| ones_cell(ops, fresh, i, j)),
        }
    }

    open spec fn spec_fresh_count(&self) -> nat {
        0
    }

    open spec fn is_operation(&self) -> bool {
        true
    }

    fn operand_arity(&self) -> usize {
        1
    }

    fn make_operator(&self, _immediates: &Vec<Vecs<i64>>, operands: &[Id]) -> Operator {
        Operator::TfOnes(operands[0])
    }

    fn make_expression(
        &self,
        context: &mut ExprContext,
        _immediates: &[Vecs<IntExpr>],
        operands: &[Vecs<IntExpr>],
        bit_width: u32,
    ) -> Vecs<IntExpr> {
        let a = &operands[0];
        let fresh = context.next_fresh;
        let ghost ops = grids(operands@);
        assert(ops[0] == a@);
        let vecs = build_grid(
            COLS,
            (|i: usize, j: usize| -> (r: IntExpr)
                requires
                    i < ROWS,
                    j < COLS,
                    a@ == ops[0],
                    a@.well_shaped(),
                ensures
                    r == ones_cell(ops, fresh, i as int, j as int),
                {
                    let cond = BoolExpr::and(
                        BoolExpr::lt(IntExpr::index(i), a.cell(0, 0)),
                        BoolExpr::lt(IntExpr::index(j), a.cell(0, 1)),
                    );
                    IntExpr::ite(cond, one_expr(bit_width), zero_expr(bit_width))
                }),
            Ghost(|i: int, j: int| ones_cell(ops, fresh, i, j)),
        );
        let dims = (a.cell(0, 0), a.cell(0, 1));
        Vecs { dims, vecs }
    }
}

/// The cell at `(i, j)` of the result of `TfRange`.
pub open spec fn range_cell(ops: Seq<Grid<IntExpr>>, fresh: u64, i: int, j: int) -> IntExpr {
    if i == 0 { e_ite(b_lt(range_value(ops[0].at(0, 0), j as nat), ops[1].at(0, 0)), range_value(ops[0].at(0, 0), j as nat), zero()) } else { zero() }
}

/// The integers from `a[0][0]` up to (not including) `b[0][0]`, as one row.
#[derive(Debug)]
pub struct TfRange;

impl Component for TfRange {
    open spec fn spec_operand_arity(&self) -> nat {
        2
    }

    open spec fn spec_operator(&self, ids: Seq<Id>) -> Operator {
        Operator::TfRange(ids[0], ids[1])
    }

    open spec fn spec_expression(&self, ops: Seq<Grid<IntExpr>>, fresh: u64) -> Grid<IntExpr> {
        Grid {
            dims: (one(), range_length(ops[0].at(0, 0), ops[1].at(0, 0))),
            cells: table(COLS as nat, |i: int, j: int| range_cell(ops, fresh, i, j)),
        }
    }

    open spec fn spec_fresh_count(&self) -> nat {
        0
    }

    open spec fn is_operation(&self) -> bool {
        true
    }

    fn operand_arity(&self) -> usize {
        2
    }

    fn make_operator(&self, _immediates: &Vec<Vecs<i64>>, operands: &[Id]) -> Operator {
        Operator::TfRange(operands[0], operands[1])
    }

    fn make_expression(
        &self,
        context: &mut ExprContext,
        _immediates: &[Vecs<IntExpr>],
        operands: &[Vecs<IntExpr>],
        bit_width: u32,
    ) -> Vecs<IntExpr> {
        let a = &operands[0];
        let b = &operands[1];
        let fresh = context.next_fresh;
        let ghost ops = grids(operands@);
        assert(ops[0] == a@ && ops[1] == b@);
        let vecs = build_grid(
            COLS,
            (|i: usize, j: usize| -> (r: IntExpr)
                requires
                    i < ROWS,
                    j < COLS,
                    a@ == ops[0],
                    a@.well_shaped(),
                    b@ == ops[1],
                    b@.well_shaped(),
                ensures
                    r == range_cell(ops, fresh, i as int, j as int),
                {
                    if i == 0 {
                        let v = range_value_expr(a.cell(0, 0), j, bit_width);
                        IntExpr::ite(BoolExpr::lt(v.dup(), b.cell(0, 0)), v, zero_expr(bit_width))
                    } else {
                        zero_expr(bit_width)
                    }
                }),
            Ghost(|i: int, j: int| range_cell(ops, fresh, i, j)),
        );
        let dims = (one_expr(bit_width), range_length_expr(a.cell(0, 0), b.cell(0, 0), bit_width));
        Vecs { dims, vecs }
    }
}

/// The cell at `(i, j)` of the result of `TfOneHot`.
pub open spec fn one_hot_cell(ops: Seq<Grid<IntExpr>>, fresh: u64, i: int, j: int) -> IntExpr {
    e_ite(and3(b_lt(e_const(i), ops[0].dims.0), b_and(b_lt(e_const(j), ops[0].dims.1), b_lt(e_const(j), ops[1].at(0, 0))), b_eq(ops[0].at(0, i), e_const(j))), one(), zero())
}

/// Row `i` marks with 1 the column `a[0][i]`, below depth `b[0][0]`.
#[derive(Debug)]
pub struct TfOneHot;

impl Component for TfOneHot {
    open spec fn spec_operand_arity(&self) -> nat {
        2
    }

    open spec fn spec_operator(&self, ids: Seq<Id>) -> Operator {
        Operator::TfOneHot(ids[0], ids[1])
    }

    open spec fn spec_expression(&self, ops: Seq<Grid<IntExpr>>, fresh: u64) -> Grid<IntExpr> {
        Grid {
            dims: (cap_rows(ops[0].dims.1), ops[1].at(0, 0)),
            cells: table(COLS as nat, |i: int, j: int| one_hot_cell(ops, fresh, i, j)),
        }
    }

    open spec fn spec_fresh_count(&self) -> nat {
        0
    }

    open spec fn is_operation(&self) -> bool {
        true
    }

    fn operand_arity(&self) -> usize {
        2
    }

    fn make_operator(&self, _immediates: &Vec<Vecs<i64>>, operands: &[Id]) -> Operator {
        Operator::TfOneHot(operands[0], operands[1])
    }

    fn make_expression(
        &self,
        context: &mut ExprContext,
        _immediates: &[Vecs<IntExpr>],
        operands: &[Vecs<IntExpr>],
        bit_width: u32,
    ) -> Vecs<IntExpr> {
        let a = &operands[0];
        let b = &operands[1];
        let fresh = context.next_fresh;
        let ghost ops = grids(operands@);
        assert(ops[0] == a@ && ops[1] == b@);
        let vecs = build_grid(
            COLS,
            (|i: usize, j: usize| -> (r: IntExpr)
                requires
                    i < ROWS,
                    j < COLS,
                    a@ == ops[0],
                    a@.well_shaped(),
                    b@ == ops[1],
                    b@.well_shaped(),
                ensures
                    r == one_hot_cell(ops, fresh, i as int, j as int),
                {
                    let in_col = BoolExpr::and(
                        BoolExpr::lt(IntExpr::index(j), a.dim1()),
                        BoolExpr::lt(IntExpr::index(j), b.cell(0, 0)),
                    );
                    let cond = and3_expr(
                        BoolExpr::lt(IntExpr::index(i), a.dim0()),
                        in_col,
                        BoolExpr::eq(a.cell(0, i), IntExpr::index(j)),
                    );
                    IntExpr::ite(cond, one_expr(bit_width), zero_expr(bit_width))
                }),
            Ghost(|i: int, j: int| one_hot_cell(ops, fresh, i, j)),
        );
        let dims = (cap_rows_expr(a.dim1()), b.cell(0, 0));
        Vecs { dims, vecs }
    }
}

/// The cell at `(i, j)` of the result of `TfSequenceMask`.
pub open spec fn sequence_mask_cell(ops: Seq<Grid<IntExpr>>, fresh: u64, i: int, j: int) -> IntExpr {
    e_ite(b_and(b_lt(e_const(i), ops[0].dims.1), b_lt(e_const(j), ops[0].at(0, i))), one(), zero())
}

/// Row `i` holds 1 in its first `a[0][i]` columns, 0 after.
#[derive(Debug)]
pub struct TfSequenceMask;

impl Component for TfSequenceMask {
    open spec fn spec_operand_arity(&self) -> nat {
        1
    }

    open spec fn spec_operator(&self, ids: Seq<Id>) -> Operator {
        Operator::TfSequenceMask(ids[0])
    }

    open spec fn spec_expression(&self, ops: Seq<Grid<IntExpr>>, fresh: u64) -> Grid<IntExpr> {
        Grid {
            dims: (cap_rows(ops[0].dims.1), mask_length(ops[0], ROWS as nat)),
            cells: table(COLS as nat, |i: int, j: int| sequence_mask_cell(ops, fresh, i, j)),
        }
    }

    open spec fn spec_fresh_count(&self) -> nat {
        0
    }

    open spec fn is_operation(&self) -> bool {
        true
    }

    fn operand_arity(&self) -> usize {
        1
    }

    fn make_operator(&self, _immediates: &Vec<Vecs<i64>>, operands: &[Id]) -> Operator {
        Operator::TfSequenceMask(operands[0])
    }

    fn make_expression(
        &self,
        context: &mut ExprContext,
        _immediates: &[Vecs<IntExpr>],
        operands: &[Vecs<IntExpr>],
        bit_width: u32,
    ) -> Vecs<IntExpr> {
        let a = &operands[0];
        let fresh = context.next_fresh;
        let ghost ops = grids(operands@);
        assert(ops[0] == a@);
        let vecs = build_grid(
            COLS,
            (|i: usize, j: usize| -> (r: IntExpr)
                requires
                    i < ROWS,
                    j < COLS,
                    a@ == ops[0],
                    a@.well_shaped(),
                ensures
                    r == sequence_mask_cell(ops, fresh, i as int, j as int),
                {
                    let cond = BoolExpr::and(
                        BoolExpr::lt(IntExpr::index(i), a.dim1()),
                        BoolExpr::lt(IntExpr::index(j), a.cell(0, i)),
                    );
                    IntExpr::ite(cond, one_expr(bit_width), zero_expr(bit_width))
                }),
            Ghost(|i: int, j: int| sequence_mask_cell(ops, fresh, i, j)),
        );
        let dims = (cap_rows_expr(a.dim1()), mask_length_expr(a, bit_width));
        Vecs { dims, vecs }
    }
}

/// The cell at `(i, j)` of the result of `TfExpandDims`.
pub open spec fn expand_dims_cell(ops: Seq<Grid<IntExpr>>, fresh: u64, i: int, j: int) -> IntExpr {
    if j == 0 { ops[0].at(0, i) } else { zero() }
}

/// Row 0 of the operand, stood up as a column.
#[derive(Debug)]
pub struct TfExpandDims;

impl Component for TfExpandDims {
    open spec fn spec_operand_arity(&self) -> nat {
        1
    }

    open spec fn spec_operator(&self, ids: Seq<Id>) -> Operator {
        Operator::TfExpandDims(ids[0])
    }

    open spec fn spec_expression(&self, ops: Seq<Grid<IntExpr>>, fresh: u64) -> Grid<IntExpr> {
        Grid {
            dims: (cap_rows(ops[0].dims.1), one()),
            cells: table(COLS as nat, |i: int, j: int| expand_dims_cell(ops, fresh, i, j)),
        }
    }

    open spec fn spec_fresh_count(&self) -> nat {
        0
    }

    open spec fn is_operation(&self) -> bool {
        true
    }

    fn operand_arity(&self) -> usize {
        1
    }

    fn make_operator(&self, _immediates: &Vec<Vecs<i64>>, operands: &[Id]) -> Operator {
        Operator::TfExpandDims(operands[0])
    }

    fn make_expression(
        &self,
        context: &mut ExprContext,
        _immediates: &[Vecs<IntExpr>],
        operands: &[Vecs<IntExpr>],
        bit_width: u32,
    ) -> Vecs<IntExpr> {
        let a = &operands[0];
        let fresh = context.next_fresh;
        let ghost ops = grids(operands@);
        assert(ops[0] == a@);
        let vecs = build_grid(
            COLS,
            (|i: usize, j: usize| -> (r: IntExpr)
                requires
                    i < ROWS,
                    j < COLS,
                    a@ == ops[0],
                    a@.well_shaped(),
                ensures
                    r == expand_dims_cell(ops, fresh, i as int, j as int),
                {
                    if j == 0 { a.cell(0, i) } else { zero_expr(bit_width) }
                }),
            Ghost(|i: int, j: int| expand_dims_cell(ops, fresh, i, j)),
        );
        let dims = (cap_rows_expr(a.dim1()), one_expr(bit_width));
        Vecs { dims, vecs }
    }
}

/// The cell at `(i, j)` of the result of `TfTranspose`.
pub open spec fn transpose_cell(ops: Seq<Grid<IntExpr>>, fresh: u64, i: int, j: int) -> IntExpr {
    if j < ROWS { ops[0].at(j, i) } else { zero() }
}

/// The transpose of the leading square block.
#[derive(Debug)]
pub struct TfTranspose;

impl Component for TfTranspose {
    open spec fn spec_operand_arity(&self) -> nat {
        1
    }

    open spec fn spec_operator(&self, ids: Seq<Id>) -> Operator {
        Operator::TfTranspose(ids[0])
    }

    open spec fn spec_expression(&self, ops: Seq<Grid<IntExpr>>, fresh: u64) -> Grid<IntExpr> {
        Grid {
            dims: (cap_rows(ops[0].dims.1), ops[0].dims.0),
            cells: table(COLS as nat, |i: int, j: int| transpose_cell(ops, fresh, i, j)),
        }
    }

    open spec fn spec_fresh_count(&self) -> nat {
        0
    }

    open spec fn is_operation(&self) -> bool {
        true
    }

    fn operand_arity(&self) -> usize {
        1
    }

    fn make_operator(&self, _immediates: &Vec<Vecs<i64>>, operands: &[Id]) -> Operator {
        Operator::TfTranspose(operands[0])
    }

    fn make_expression(
        &self,
        context: &mut ExprContext,
        _immediates: &[Vecs<IntExpr>],
        operands: &[Vecs<IntExpr>],
        bit_width: u32,
    ) -> Vecs<IntExpr> {
        let a = &operands[0];
        let fresh = context.next_fresh;
        let ghost ops = grids(operands@);
        assert(ops[0] == a@);
        let vecs = build_grid(
            COLS,
            (|i: usize, j: usize| -> (r: IntExpr)
                requires
                    i < ROWS,
                    j < COLS,
                    a@ == ops[0],
                    a@.well_shaped(),
                ensures
                    r == transpose_cell(ops, fresh, i as int, j as int),
                {
                    if j < ROWS { a.cell(j, i) } else { zero_expr(bit_width) }
                }),
            Ghost(|i: int, j: int| transpose_cell(ops, fresh, i, j)),
        );
        let dims = (cap_rows_expr(a.dim1()), a.dim0());
        Vecs { dims, vecs }
    }
}

/// The cell at `(i, j)` of the result of `TfMatmul`.
pub open spec fn matmul_cell(ops: Seq<Grid<IntExpr>>, fresh: u64, i: int, j: int) -> IntExpr {
    if j < ROWS { dot(ops[0], ops[1], i, j, ROWS as nat) } else { zero() }
}

/// The matrix product of the leading square blocks.
#[derive(Debug)]
pub struct TfMatmul;

impl Component for TfMatmul {
    open spec fn spec_operand_arity(&self) -> nat {
        2
    }

    open spec fn spec_operator(&self, ids: Seq<Id>) -> Operator {
        Operator::TfMatmul(ids[0], ids[1])
    }

    open spec fn spec_expression(&self, ops: Seq<Grid<IntExpr>>, fresh: u64) -> Grid<IntExpr> {
        Grid {
            dims: (ops[0].dims.0, cap_rows(ops[1].dims.1)),
            cells: table(COLS as nat, |i: int, j: int| matmul_cell(ops, fresh, i, j)),
        }
    }

    open spec fn spec_fresh_count(&self) -> nat {
        0
    }

    open spec fn is_operation(&self) -> bool {
        true
    }

    fn operand_arity(&self) -> usize {
        2
    }

    fn make_operator(&self, _immediates: &Vec<Vecs<i64>>, operands: &[Id]) -> Operator {
        Operator::TfMatmul(operands[0], operands[1])
    }

    fn make_expression(
        &self,
        context: &mut ExprContext,
        _immediates: &[Vecs<IntExpr>],
        operands: &[Vecs<IntExpr>],
        bit_width: u32,
    ) -> Vecs<IntExpr> {
        let a = &operands[0];
        let b = &operands[1];
        let fresh = context.next_fresh;
        let ghost ops = grids(operands@);
        assert(ops[0] == a@ && ops[1] == b@);
        let vecs = build_grid(
            COLS,
            (|i: usize, j: usize| -> (r: IntExpr)
                requires
                    i < ROWS,
                    j < COLS,
                    a@ == ops[0],
                    a@.well_shaped(),
                    b@ == ops[1],
                    b@.well_shaped(),
                ensures
                    r == matmul_cell(ops, fresh, i as int, j as int),
                {
                    if j < ROWS { dot_expr(a, b, i, j, bit_width) } else { zero_expr(bit_width) }
                }),
            Ghost(|i: int, j: int| matmul_cell(ops, fresh, i, j)),
        );
        let dims = (a.dim0(), cap_rows_expr(b.dim1()));
        Vecs { dims, vecs }
    }
}

/// The cell at `(i, j)` of the result of `TfTensordot`.
pub open spec fn tensordot_cell(ops: Seq<Grid<IntExpr>>, fresh: u64, i: int, j: int) -> IntExpr {
    if j < ROWS { dot(ops[0], ops[1], i, j, ROWS as nat) } else { zero() }
}

/// The tensor dot product over one axis: the matrix product of the leading square blocks.
#[derive(Debug)]
pub struct TfTensordot;

impl Component for TfTensordot {
    open spec fn spec_operand_arity(&self) -> nat {
        2
    }

    open spec fn spec_operator(&self, ids: Seq<Id>) -> Operator {
        Operator::TfTensordot(ids[0], ids[1])
    }

    open spec fn spec_expression(&self, ops: Seq<Grid<IntExpr>>, fresh: u64) -> Grid<IntExpr> {
        Grid {
            dims: (ops[0].dims.0, cap_rows(ops[1].dims.1)),
            cells: table(COLS as nat, |i: int, j: int| tensordot_cell(ops, fresh, i, j)),
        }
    }

    open spec fn spec_fresh_count(&self) -> nat {
        0
    }

    open spec fn is_operation(&self) -> bool {
        true
    }

    fn operand_arity(&self) -> usize {
        2
    }

    fn make_operator(&self, _immediates: &Vec<Vecs<i64>>, operands: &[Id]) -> Operator {
        Operator::TfTensordot(operands[0], operands[1])
    }

    fn make_expression(
        &self,
        context: &mut ExprContext,
        _immediates: &[Vecs<IntExpr>],
        operands: &[Vecs<IntExpr>],
        bit_width: u32,
    ) -> Vecs<IntExpr> {
        let a = &operands[0];
        let b = &operands[1];
        let fresh = context.next_fresh;
        let ghost ops = grids(operands@);
        assert(ops[0] == a@ && ops[1] == b@);
        let vecs = build_grid(
            COLS,
            (|i: usize, j: usize| -> (r: IntExpr)
                requires
                    i < ROWS,
                    j < COLS,
                    a@ == ops[0],
                    a@.well_shaped(),
                    b@ == ops[1],
                    b@.well_shaped(),
                ensures
                    r == tensordot_cell(ops, fresh, i as int, j as int),
                {
                    if j < ROWS { dot_expr(a, b, i, j, bit_width) } else { zero_expr(bit_width) }
                }),
            Ghost(|i: int, j: int| tensordot_cell(ops, fresh, i, j)),
        );
        let dims = (a.dim0(), cap_rows_expr(b.dim1()));
        Vecs { dims, vecs }
    }
}

/// The cell at `(i, j)` of the result of `TfRoll`.
pub open spec fn roll_cell(ops: Seq<Grid<IntExpr>>, fresh: u64, i: int, j: int) -> IntExpr {
    if j == 0 { roll_head(ops[0], i, COLS as nat) } else { e_ite(b_lt(e_const(j), ops[0].dims.1), roll_shifted(ops[0], i, j), zero()) }
}

/// Each row shifted one column to the right inside the column count; column 0 takes the row's last cell inside the column count, the one that falls off its end.
#[derive(Debug)]
pub struct TfRoll;

impl Component for TfRoll {
    open spec fn spec_operand_arity(&self) -> nat {
        1
    }

    open spec fn spec_operator(&self, ids: Seq<Id>) -> Operator {
        Operator::TfRoll(ids[0])
    }

    open spec fn spec_expression(&self, ops: Seq<Grid<IntExpr>>, fresh: u64) -> Grid<IntExpr> {
        Grid {
            dims: ops[0].dims,
            cells: table(COLS as nat, |i: int, j: int| roll_cell(ops, fresh, i, j)),
        }
    }

    open spec fn spec_fresh_count(&self) -> nat {
        0
    }

    open spec fn is_operation(&self) -> bool {
        true
    }

    fn operand_arity(&self) -> usize {
        1
    }

    fn make_operator(&self, _immediates: &Vec<Vecs<i64>>, operands: &[Id]) -> Operator {
        Operator::TfRoll(operands[0])
    }

    fn make_expression(
        &self,
        context: &mut ExprContext,
        _immediates: &[Vecs<IntExpr>],
        operands: &[Vecs<IntExpr>],
        bit_width: u32,
    ) -> Vecs<IntExpr> {
        let a = &operands[0];
        let fresh = context.next_fresh;
        let ghost ops = grids(operands@);
        assert(ops[0] == a@);
        let vecs = build_grid(
            COLS,
            (|i: usize, j: usize| -> (r: IntExpr)
                requires
                    i < ROWS,
                    j < COLS,
                    a@ == ops[0],
                    a@.well_shaped(),
                ensures
                    r == roll_cell(ops, fresh, i as int, j as int),
                {
                    if j == 0 {
                        roll_head_expr(a, i, bit_width)
                    } else {
                        IntExpr::ite(BoolExpr::lt(IntExpr::index(j), a.dim1()), roll_shifted_expr(a, i, j, bit_width), zero_expr(bit_width))
                    }
                }),
            Ghost(|i: int, j: int| roll_cell(ops, fresh, i, j)),
        );
        let dims = (a.dim0(), a.dim1());
        Vecs { dims, vecs }
    }
}

/// The cell at `(i, j)` of the result of `TfCumsum`.
pub open spec fn cumsum_cell(ops: Seq<Grid<IntExpr>>, fresh: u64, i: int, j: int) -> IntExpr {
    cumsum(ops[0], ops[1], i, j as nat)
}

/// Running sums along each row, exclusive unless `b[0][0]` is 0; each row has one cell more.
#[derive(Debug)]
pub struct TfCumsum;

impl Component for TfCumsum {
    open spec fn spec_operand_arity(&self) -> nat {
        2
    }

    open spec fn spec_operator(&self, ids: Seq<Id>) -> Operator {
        Operator::TfCumsum(ids[0], ids[1])
    }

    open spec fn spec_expression(&self, ops: Seq<Grid<IntExpr>>, fresh: u64) -> Grid<IntExpr> {
        Grid {
            dims: ops[0].dims,
            cells: table((COLS + 1) as nat, |i: int, j: int| cumsum_cell(ops, fresh, i, j)),
        }
    }

    open spec fn spec_fresh_count(&self) -> nat {
        0
    }

    open spec fn is_operation(&self) -> bool {
        true
    }

    fn operand_arity(&self) -> usize {
        2
    }

    fn make_operator(&self, _immediates: &Vec<Vecs<i64>>, operands: &[Id]) -> Operator {
        Operator::TfCumsum(operands[0], operands[1])
    }

    fn make_expression(
        &self,
        context: &mut ExprContext,
        _immediates: &[Vecs<IntExpr>],
        operands: &[Vecs<IntExpr>],
        bit_width: u32,
    ) -> Vecs<IntExpr> {
        let a = &operands[0];
        let b = &operands[1];
        let fresh = context.next_fresh;
        let ghost ops = grids(operands@);
        assert(ops[0] == a@ && ops[1] == b@);
        let vecs = build_grid(
            COLS + 1,
            (|i: usize, j: usize| -> (r: IntExpr)
                requires
                    i < ROWS,
                    j < COLS + 1,
                    a@ == ops[0],
                    a@.well_shaped(),
                    b@ == ops[1],
                    b@.well_shaped(),
                ensures
                    r == cumsum_cell(ops, fresh, i as int, j as int),
                {
                    cumsum_expr(a, b, i, j, bit_width)
                }),
            Ghost(|i: int, j: int| cumsum_cell(ops, fresh, i, j)),
        );
        let dims = (a.dim0(), a.dim1());
        Vecs { dims, vecs }
    }
}

/// The cell at `(i, j)` of the result of `TfBincount`.
pub open spec fn bincount_cell(ops: Seq<Grid<IntExpr>>, fresh: u64, i: int, j: int) -> IntExpr {
    bin_count(ops[0], i, j, COLS as nat)
}

/// Cell `(i, k)` counts the cells of row `i` equal to `k`.
#[derive(Debug)]
pub struct TfBincount;

impl Component for TfBincount {
    open spec fn spec_operand_arity(&self) -> nat {
        1
    }

    open spec fn spec_operator(&self, ids: Seq<Id>) -> Operator {
        Operator::TfBincount(ids[0])
    }

    open spec fn spec_expression(&self, ops: Seq<Grid<IntExpr>>, fresh: u64) -> Grid<IntExpr> {
        Grid {
            dims: (ops[0].dims.0, bin_length(ops[0], (ROWS * COLS) as nat)),
            cells: table(COLS as nat, |i: int, j: int| bincount_cell(ops, fresh, i, j)),
        }
    }

    open spec fn spec_fresh_count(&self) -> nat {
        0
    }

    open spec fn is_operation(&self) -> bool {
        true
    }

    fn operand_arity(&self) -> usize {
        1
    }

    fn make_operator(&self, _immediates: &Vec<Vecs<i64>>, operands: &[Id]) -> Operator {
        Operator::TfBincount(operands[0])
    }

    fn make_expression(
        &self,
        context: &mut ExprContext,
        _immediates: &[Vecs<IntExpr>],
        operands: &[Vecs<IntExpr>],
        bit_width: u32,
    ) -> Vecs<IntExpr> {
        let a = &operands[0];
        let fresh = context.next_fresh;
        let ghost ops = grids(operands@);
        assert(ops[0] == a@);
        let vecs = build_grid(
            COLS,
            (|i: usize, j: usize| -> (r: IntExpr)
                requires
                    i < ROWS,
                    j < COLS,
                    a@ == ops[0],
                    a@.well_shaped(),
                ensures
                    r == bincount_cell(ops, fresh, i as int, j as int),
                {
                    bin_count_expr(a, i, j, bit_width)
                }),
            Ghost(|i: int, j: int| bincount_cell(ops, fresh, i, j)),
        );
        let dims = (a.dim0(), bin_length_expr(a, bit_width));
        Vecs { dims, vecs }
    }
}

/// The cell at `(i, j)` of the result of `TfArgmax`.
pub open spec fn argmax_cell(ops: Seq<Grid<IntExpr>>, fresh: u64, i: int, j: int) -> IntExpr {
    if i == 0 && j < ROWS { argmax_index(ops[0].cells[j], row_peak(ops[0].cells[j], COLS as nat), 0) } else { zero() }
}

/// The column of the first largest cell of each row, as one row.
#[derive(Debug)]
pub struct TfArgmax;

impl Component for TfArgmax {
    open spec fn spec_operand_arity(&self) -> nat {
        1
    }

    open spec fn spec_operator(&self, ids: Seq<Id>) -> Operator {
        Operator::TfArgmax(ids[0])
    }

    open spec fn spec_expression(&self, ops: Seq<Grid<IntExpr>>, fresh: u64) -> Grid<IntExpr> {
        Grid {
            dims: (one(), ops[0].dims.0),
            cells: table(COLS as nat, |i: int, j: int| argmax_cell(ops, fresh, i, j)),
        }
    }

    open spec fn spec_fresh_count(&self) -> nat {
        0
    }

    open spec fn is_operation(&self) -> bool {
        true
    }

    fn operand_arity(&self) -> usize {
        1
    }

    fn make_operator(&self, _immediates: &Vec<Vecs<i64>>, operands: &[Id]) -> Operator {
        Operator::TfArgmax(operands[0])
    }

    fn make_expression(
        &self,
        context: &mut ExprContext,
        _immediates: &[Vecs<IntExpr>],
        operands: &[Vecs<IntExpr>],
        bit_width: u32,
    ) -> Vecs<IntExpr> {
        let a = &operands[0];
        let fresh = context.next_fresh;
        let ghost ops = grids(operands@);
        assert(ops[0] == a@);
        let vecs = build_grid(
            COLS,
            (|i: usize, j: usize| -> (r: IntExpr)
                requires
                    i < ROWS,
                    j < COLS,
                    a@ == ops[0],
                    a@.well_shaped(),
                ensures
                    r == argmax_cell(ops, fresh, i as int, j as int),
                {
                    if i == 0 && j < ROWS { argmax_expr(a, j, bit_width) } else { zero_expr(bit_width) }
                }),
            Ghost(|i: int, j: int| argmax_cell(ops, fresh, i, j)),
        );
        let dims = (one_expr(bit_width), a.dim0());
        Vecs { dims, vecs }
    }
}

} // verus!
