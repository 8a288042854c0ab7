//! Components whose encoding goes through arrays of the solver.

use vstd::prelude::*;

use crate::component::{grids, Component};
use crate::expr::{
    a_row, a_store, b_and, b_eq, b_gt, b_lt, build_grid, cap_rows, cap_rows_expr, e_add, e_const,
    e_ite, e_select, one, one_expr, t_store, table, zero, zero_expr, ArrayExpr, BoolExpr,
    ExprContext, IntExpr, TableExpr,
};
use crate::operator::Operator;
use crate::{Grid, Id, Vecs, COLS, ROWS};

verus! {

/// Column `j` gathered through the fresh array `fresh + j` after `n` stores: first the
/// rows of `x` at their own indices, then the rows of `y` after the row count of `x`.
pub open spec fn concat0_array(x: Grid<IntExpr>, y: Grid<IntExpr>, fresh: u64, j: int, n: nat) -> ArrayExpr
    decreases n,
{
    if n == 0 {
        ArrayExpr::Fresh((fresh + j) as u64)
    } else if n <= ROWS {
        a_store(concat0_array(x, y, fresh, j, (n - 1) as nat), e_const(n - 1), x.at(n - 1, j))
    } else {
        a_store(
            concat0_array(x, y, fresh, j, (n - 1) as nat),
            e_add(e_const(n - 1 - ROWS), x.dims.0),
            y.at(n - 1 - ROWS, j),
        )
    }
}

fn concat0_array_expr(a: &Vecs<IntExpr>, b: &Vecs<IntExpr>, fresh: u64, j: usize) -> (r: ArrayExpr)
    requires
        a@.well_shaped(),
        b@.well_shaped(),
        j < COLS,
        fresh + COLS <= u64::MAX,
    ensures
        r == concat0_array(a@, b@, fresh, j as int, 2 * ROWS as nat),
{
    let mut arr = ArrayExpr::Fresh(fresh + j as u64);
    let mut n: usize = 1;
    while n <= 2 * ROWS
        invariant
            1 <= n <= 2 * ROWS + 1,
            j < COLS,
            a@.well_shaped(),
            b@.well_shaped(),
            arr == concat0_array(a@, b@, fresh, j as int, (n - 1) as nat),
        decreases 2 * ROWS + 1 - n,
    {
        if n <= ROWS {
            arr = ArrayExpr::store(arr, IntExpr::index(n - 1), a.cell(n - 1, j));
        } else {
            arr = ArrayExpr::store(arr, IntExpr::add(IntExpr::index(n - 1 - ROWS), a.dim0()), b.cell(n - 1 - ROWS, j));
        }
        n += 1;
    }
    arr
}

/// Row `i` gathered through the fresh array `fresh + i` after `n` stores: first the
/// columns of `x` at their own indices, then the columns of `y` after the column count of `x`.
pub open spec fn concat1_array(x: Grid<IntExpr>, y: Grid<IntExpr>, fresh: u64, i: int, n: nat) -> ArrayExpr
    decreases n,
{
    if n == 0 {
        ArrayExpr::Fresh((fresh + i) as u64)
    } else if n <= COLS {
        a_store(concat1_array(x, y, fresh, i, (n - 1) as nat), e_const(n - 1), x.at(i, n - 1))
    } else {
        a_store(
            concat1_array(x, y, fresh, i, (n - 1) as nat),
            e_add(e_const(n - 1 - COLS), x.dims.1),
            y.at(i, n - 1 - COLS),
        )
    }
}

fn concat1_array_expr(a: &Vecs<IntExpr>, b: &Vecs<IntExpr>, fresh: u64, i: usize) -> (r: ArrayExpr)
    requires
        a@.well_shaped(),
        b@.well_shaped(),
        i < ROWS,
        fresh + ROWS <= u64::MAX,
    ensures
        r == concat1_array(a@, b@, fresh, i as int, 2 * COLS as nat),
{
    let mut arr = ArrayExpr::Fresh(fresh + i as u64);
    let mut n: usize = 1;
    while n <= 2 * COLS
        invariant
            1 <= n <= 2 * COLS + 1,
            i < ROWS,
            a@.well_shaped(),
            b@.well_shaped(),
            arr == concat1_array(a@, b@, fresh, i as int, (n - 1) as nat),
        decreases 2 * COLS + 1 - n,
    {
        if n <= COLS {
            arr = ArrayExpr::store(arr, IntExpr::index(n - 1), a.cell(i, n - 1));
        } else {
            arr = ArrayExpr::store(arr, IntExpr::add(IntExpr::index(n - 1 - COLS), a.dim1()), b.cell(i, n - 1 - COLS));
        }
        n += 1;
    }
    arr
}

/// Row `i` of the segment maxima after `n` columns: the fresh array `fresh + i`, where
/// each step keeps under segment `x[i][k]` the larger of what is there and `y[i][k]`.
pub open spec fn segment_array(x: Grid<IntExpr>, y: Grid<IntExpr>, fresh: u64, i: int, n: nat) -> ArrayExpr
    decreases n,
{
    if n == 0 {
        ArrayExpr::Fresh((fresh + i) as u64)
    } else {
        let p = segment_array(x, y, fresh, i, (n - 1) as nat);
        let s = e_select(p, x.at(i, n - 1));
        a_store(p, x.at(i, n - 1), e_ite(b_gt(s, y.at(i, n - 1)), s, y.at(i, n - 1)))
    }
}

/// The number of steps among the first `n` (row by row) that find a value other than
/// `i64::MIN` under their segment, counted from 0.
pub open spec fn segment_count(x: Grid<IntExpr>, y: Grid<IntExpr>, fresh: u64, n: nat) -> IntExpr
    decreases n,
{
    if n == 0 {
        zero()
    } else {
        let k = n - 1;
        let i = k / COLS as int;
        let j = k % COLS as int;
        let s = e_select(segment_array(x, y, fresh, i, j as nat), x.at(i, j));
        let c = segment_count(x, y, fresh, (n - 1) as nat);
        e_ite(b_eq(s, e_const(i64::MIN as int)), c, e_add(c, one()))
    }
}

fn segment_array_expr(a: &Vecs<IntExpr>, b: &Vecs<IntExpr>, fresh: u64, i: usize, n: usize, bit_width: u32) -> (r: ArrayExpr)
    requires
        a@.well_shaped(),
        b@.well_shaped(),
        i < ROWS,
        n <= COLS,
        fresh + ROWS <= u64::MAX,
    ensures
        r == segment_array(a@, b@, fresh, i as int, n as nat),
{
    let mut arr = ArrayExpr::Fresh(fresh + i as u64);
    let mut k: usize = 0;
    while k < n
        invariant
            k <= n,
            n <= COLS,
            i < ROWS,
            a@.well_shaped(),
            b@.well_shaped(),
            arr == segment_array(a@, b@, fresh, i as int, k as nat),
        decreases n - k,
    {
        let s = IntExpr::select(arr.dup(), a.cell(i, k));
        let v = IntExpr::ite(BoolExpr::gt(s.dup(), b.cell(i, k)), s, b.cell(i, k));
        arr = ArrayExpr::store(arr, a.cell(i, k), v);
        k += 1;
    }
    arr
}

fn segment_count_expr(a: &Vecs<IntExpr>, b: &Vecs<IntExpr>, fresh: u64, bit_width: u32) -> (r: IntExpr)
    requires
        a@.well_shaped(),
        b@.well_shaped(),
        fresh + ROWS <= u64::MAX,
    ensures
        r == segment_count(a@, b@, fresh, (ROWS * COLS) as nat),
{
    let mut c = zero_expr(bit_width);
    let mut k: usize = 0;
    while k < ROWS * COLS
        invariant
            k <= ROWS * COLS,
            a@.well_shaped(),
            b@.well_shaped(),
            fresh + ROWS <= u64::MAX,
            c == segment_count(a@, b@, fresh, k as nat),
        decreases ROWS * COLS - k,
    {
        let i = k / COLS;
        let j = k % COLS;
        let s = IntExpr::select(segment_array_expr(a, b, fresh, i, j, bit_width), a.cell(i, j));
        c = IntExpr::ite(BoolExpr::eq(s, IntExpr::lit(i64::MIN)), c.dup(), IntExpr::add(c.dup(), one_expr(bit_width)));
        k += 1;
    }
    c
}

/// Whether the mask skips cell `(i, j)`: by `m[i][j]`, or for the whole row by `m[0][i]`.
pub open spec fn mask_skips(m: Grid<IntExpr>, by_row: bool, i: int, j: int) -> BoolExpr {
    if by_row {
        b_eq(m.at(0, i), zero())
    } else {
        b_eq(m.at(i, j), zero())
    }
}

/// The masking array (named `fresh`) and the position within the current row after the
/// first `n` cells, row by row: a kept cell is stored at the next position, a skipped
/// one at -1.
pub open spec fn mask_state(x: Grid<IntExpr>, m: Grid<IntExpr>, fresh: u64, by_row: bool, n: nat) -> (ArrayExpr, IntExpr)
    decreases n,
{
    if n == 0 {
        (ArrayExpr::Fresh(fresh), zero())
    } else {
        let k = n - 1;
        let i = k / COLS as int;
        let j = k % COLS as int;
        let p = mask_state(x, m, fresh, by_row, (n - 1) as nat);
        let pos = if j == 0 { zero() } else { p.1 };
        let skip = mask_skips(m, by_row, i, j);
        (a_store(p.0, e_ite(skip, e_const(-1), pos), x.at(i, j)), e_ite(skip, pos, e_add(pos, one())))
    }
}

/// The largest number of kept cells in a row among the first `n` rows (from 0).
pub open spec fn mask_width(x: Grid<IntExpr>, m: Grid<IntExpr>, fresh: u64, by_row: bool, n: nat) -> IntExpr
    decreases n,
{
    if n == 0 {
        zero()
    } else {
        let w = mask_width(x, m, fresh, by_row, (n - 1) as nat);
        let kept = mask_state(x, m, fresh, by_row, (n * COLS) as nat).1;
        e_ite(b_lt(w, kept), kept, w)
    }
}

fn mask_state_expr(a: &Vecs<IntExpr>, b: &Vecs<IntExpr>, fresh: u64, by_row: bool, n: usize, bit_width: u32) -> (r: (ArrayExpr, IntExpr))
    requires
        a@.well_shaped(),
        b@.well_shaped(),
        n <= ROWS * COLS,
    ensures
        r == mask_state(a@, b@, fresh, by_row, n as nat),
{
    let mut arr = ArrayExpr::Fresh(fresh);
    let mut pos = zero_expr(bit_width);
    let mut k: usize = 0;
    while k < n
        invariant
            k <= n,
            n <= ROWS * COLS,
            a@.well_shaped(),
            b@.well_shaped(),
            (arr, pos) == mask_state(a@, b@, fresh, by_row, k as nat),
        decreases n - k,
    {
        let i = k / COLS;
        let j = k % COLS;
        let start = if j == 0 { zero_expr(bit_width) } else { pos };
        let skip = if by_row {
            BoolExpr::eq(b.cell(0, i), zero_expr(bit_width))
        } else {
            BoolExpr::eq(b.cell(i, j), zero_expr(bit_width))
        };
        let at = IntExpr::ite(skip.dup(), IntExpr::lit(-1), start.dup());
        arr = ArrayExpr::store(arr, at, a.cell(i, j));
        pos = IntExpr::ite(skip, start.dup(), IntExpr::add(start, one_expr(bit_width)));
        k += 1;
    }
    (arr, pos)
}

fn mask_width_expr(a: &Vecs<IntExpr>, b: &Vecs<IntExpr>, fresh: u64, by_row: bool, bit_width: u32) -> (r: IntExpr)
    requires
        a@.well_shaped(),
        b@.well_shaped(),
    ensures
        r == mask_width(a@, b@, fresh, by_row, ROWS as nat),
{
    let mut w = zero_expr(bit_width);
    let mut n: usize = 1;
    while n <= ROWS
        invariant
            1 <= n <= ROWS + 1,
            a@.well_shaped(),
            b@.well_shaped(),
            w == mask_width(a@, b@, fresh, by_row, (n - 1) as nat),
        decreases ROWS + 1 - n,
    {
        let kept = mask_state_expr(a, b, fresh, by_row, n * COLS, bit_width).1;
        w = IntExpr::ite(BoolExpr::lt(w.dup(), kept.dup()), kept, w);
        n += 1;
    }
    w
}

/// The table of kept rows (named `fresh + 1`) and the next free row after the first `n`
/// rows: a kept row's masking array is stored at the next free row, a skipped one at -1.
pub open spec fn mask_table(x: Grid<IntExpr>, m: Grid<IntExpr>, fresh: u64, n: nat) -> (TableExpr, IntExpr)
    decreases n,
{
    if n == 0 {
        (TableExpr::Fresh((fresh + 1) as u64), zero())
    } else {
        let i = n - 1;
        let p = mask_table(x, m, fresh, (n - 1) as nat);
        let skip = b_eq(m.at(0, i), zero());
        let row = mask_state(x, m, fresh, true, (n * COLS) as nat).0;
        (t_store(p.0, e_ite(skip, e_const(-1), p.1), row), e_ite(skip, p.1, e_add(p.1, one())))
    }
}

fn mask_table_expr(a: &Vecs<IntExpr>, b: &Vecs<IntExpr>, fresh: u64, bit_width: u32) -> (r: (TableExpr, IntExpr))
    requires
        a@.well_shaped(),
        b@.well_shaped(),
        fresh + 2 <= u64::MAX,
    ensures
        r == mask_table(a@, b@, fresh, ROWS as nat),
{
    let mut t = TableExpr::Fresh(fresh + 1);
    let mut next = zero_expr(bit_width);
    let mut n: usize = 1;
    while n <= ROWS
        invariant
            1 <= n <= ROWS + 1,
            a@.well_shaped(),
            b@.well_shaped(),
            fresh + 2 <= u64::MAX,
            (t, next) == mask_table(a@, b@, fresh, (n - 1) as nat),
        decreases ROWS + 1 - n,
    {
        let skip = BoolExpr::eq(b.cell(0, n - 1), zero_expr(bit_width));
        let row = mask_state_expr(a, b, fresh, true, n * COLS, bit_width).0;
        t = TableExpr::store(t, IntExpr::ite(skip.dup(), IntExpr::lit(-1), next.dup()), row);
        next = IntExpr::ite(skip, next.dup(), IntExpr::add(next, one_expr(bit_width)));
        n += 1;
    }
    (t, next)
}

/// The table of coordinate pairs (named `fresh`) and the running count after the first
/// `n` cells, row by row. Each step stores, in the fresh array `fresh + 1 + step`, the row
/// and the column of the cell (both -1 for a cell that is 0) at indices 0 and 1, and files
/// that array under the count (or under -1 for a cell that is 0); the count grows by 1
/// for each cell other than 0.
pub open spec fn where_state(x: Grid<IntExpr>, fresh: u64, n: nat) -> (TableExpr, IntExpr)
    decreases n,
{
    if n == 0 {
        (TableExpr::Fresh(fresh), zero())
    } else {
        let k = n - 1;
        let i = k / COLS as int;
        let j = k % COLS as int;
        let p = where_state(x, fresh, (n - 1) as nat);
        let z = b_eq(x.at(i, j), zero());
        let ri = e_ite(z, e_const(-1), e_const(i));
        let ci = e_ite(z, e_const(-1), e_const(j));
        let pair = a_store(a_store(ArrayExpr::Fresh((fresh + 1 + k) as u64), zero(), ri), one(), ci);
        let gone = b_and(b_eq(ri, e_const(-1)), b_eq(ci, e_const(-1)));
        (t_store(p.0, e_ite(gone, e_const(-1), p.1), pair), e_ite(gone, p.1, e_add(p.1, one())))
    }
}

fn where_state_expr(a: &Vecs<IntExpr>, fresh: u64, bit_width: u32) -> (r: (TableExpr, IntExpr))
    requires
        a@.well_shaped(),
        fresh + 1 + ROWS * COLS <= u64::MAX,
    ensures
        r == where_state(a@, fresh, (ROWS * COLS) as nat),
{
    let mut t = TableExpr::Fresh(fresh);
    let mut count = zero_expr(bit_width);
    let mut k: usize = 0;
    while k < ROWS * COLS
        invariant
            k <= ROWS * COLS,
            a@.well_shaped(),
            fresh + 1 + ROWS * COLS <= u64::MAX,
            (t, count) == where_state(a@, fresh, k as nat),
        decreases ROWS * COLS - k,
    {
        let i = k / COLS;
        let j = k % COLS;
        let z = BoolExpr::eq(a.cell(i, j), zero_expr(bit_width));
        let ri = IntExpr::ite(z.dup(), IntExpr::lit(-1), IntExpr::index(i));
        let ci = IntExpr::ite(z, IntExpr::lit(-1), IntExpr::index(j));
        let pair = ArrayExpr::store(
            ArrayExpr::store(ArrayExpr::Fresh(fresh + 1 + k as u64), zero_expr(bit_width), ri.dup()),
            one_expr(bit_width),
            ci.dup(),
        );
        let gone = BoolExpr::and(BoolExpr::eq(ri, IntExpr::lit(-1)), BoolExpr::eq(ci, IntExpr::lit(-1)));
        t = TableExpr::store(t, IntExpr::ite(gone.dup(), IntExpr::lit(-1), count.dup()), pair);
        count = IntExpr::ite(gone, count.dup(), IntExpr::add(count, one_expr(bit_width)));
        k += 1;
    }
    (t, count)
}

/// The cell at `(i, j)` of the result of `TfConcat0`.
pub open spec fn concat0_cell(ops: Seq<Grid<IntExpr>>, fresh: u64, i: int, j: int) -> IntExpr {
    e_select(concat0_array(ops[0], ops[1], fresh, j, 2 * ROWS as nat), e_const(i))
}

/// `b` stacked under `a`: column `j` stores the cells of `a`, then those of `b` after the row count of `a`, in a fresh array, and row `i` reads that array at index `i`.
#[derive(Debug)]
pub struct TfConcat0;

impl Component for TfConcat0 {
    open spec fn spec_operand_arity(&self) -> nat {
        2
    }

    open spec fn spec_operator(&self, ids: Seq<Id>) -> Operator {
        Operator::TfConcat0(ids[0], ids[1])
    }

    open spec fn spec_expression(&self, ops: Seq<Grid<IntExpr>>, fresh: u64) -> Grid<IntExpr> {
        Grid {
            dims: (e_add(ops[0].dims.0, ops[1].dims.0), ops[0].dims.1),
            cells: table(COLS as nat, |i: int, j: int| concat0_cell(ops, fresh, i, j)),
        }
    }

    open spec fn spec_fresh_count(&self) -> nat {
        COLS as nat
    }

    open spec fn is_operation(&self) -> bool {
        true
    }

    fn operand_arity(&self) -> usize {
        2
    }

    fn make_operator(&self, _immediates: &Vec<Vecs<i64>>, operands: &[Id]) -> Operator {
        Operator::TfConcat0(operands[0], operands[1])
    }

    fn make_expression(
        &self,
        context: &mut ExprContext,
        _immediates: &[Vecs<IntExpr>],
        operands: &[Vecs<IntExpr>],
        bit_width: u32,
    ) -> Vecs<IntExpr> {
        let a = &operands[0];
        let b = &operands[1];
        let fresh = context.next_fresh;
        let ghost ops = grids(operands@);
        assert(ops[0] == a@ && ops[1] == b@);
        let vecs = build_grid(
            COLS,
            (|i: usize, j: usize| -> (r: IntExpr)
                requires
                    i < ROWS,
                    j < COLS,
                    a@ == ops[0],
                    a@.well_shaped(),
                    b@ == ops[1],
                    b@.well_shaped(),
                    fresh + COLS <= u64::MAX,
                ensures
                    r == concat0_cell(ops, fresh, i as int, j as int),
                {
                    IntExpr::select(concat0_array_expr(a, b, fresh, j), IntExpr::index(i))
                }),
            Ghost(|i: int, j: int| concat0_cell(ops, fresh, i, j)),
        );
        let dims = (IntExpr::add(a.dim0(), b.dim0()), a.dim1());
        context.next_fresh = fresh + COLS as u64;
        Vecs { dims, vecs }
    }
}

/// The cell at `(i, j)` of the result of `TfConcat1`.
pub open spec fn concat1_cell(ops: Seq<Grid<IntExpr>>, fresh: u64, i: int, j: int) -> IntExpr {
    e_select(concat1_array(ops[0], ops[1], fresh, i, 2 * COLS as nat), e_const(j))
}

/// Each row of `a` followed by the same row of `b`, gathered through an array.
#[derive(Debug)]
pub struct TfConcat1;

impl Component for TfConcat1 {
    open spec fn spec_operand_arity(&self) -> nat {
        2
    }

    open spec fn spec_operator(&self, ids: Seq<Id>) -> Operator {
        Operator::TfConcat1(ids[0], ids[1])
    }

    open spec fn spec_expression(&self, ops: Seq<Grid<IntExpr>>, fresh: u64) -> Grid<IntExpr> {
        Grid {
            dims: (ops[0].dims.0, e_add(ops[0].dims.1, ops[1].dims.1)),
            cells: table(COLS as nat, |i: int, j: int| concat1_cell(ops, fresh, i, j)),
        }
    }

    open spec fn spec_fresh_count(&self) -> nat {
        ROWS as nat
    }

    open spec fn is_operation(&self) -> bool {
        true
    }

    fn operand_arity(&self) -> usize {
        2
    }

    fn make_operator(&self, _immediates: &Vec<Vecs<i64>>, operands: &[Id]) -> Operator {
        Operator::TfConcat1(operands[0], operands[1])
    }

    fn make_expression(
        &self,
        context: &mut ExprContext,
        _immediates: &[Vecs<IntExpr>],
        operands: &[Vecs<IntExpr>],
        bit_width: u32,
    ) -> Vecs<IntExpr> {
        let a = &operands[0];
        let b = &operands[1];
        let fresh = context.next_fresh;
        let ghost ops = grids(operands@);
        assert(ops[0] == a@ && ops[1] == b@);
        let vecs = build_grid(
            COLS,
            (|i: usize, j: usize| -> (r: IntExpr)
                requires
                    i < ROWS,
                    j < COLS,
                    a@ == ops[0],
                    a@.well_shaped(),
                    b@ == ops[1],
                    b@.well_shaped(),
                    fresh + ROWS <= u64::MAX,
                ensures
                    r == concat1_cell(ops, fresh, i as int, j as int),
                {
                    IntExpr::select(concat1_array_expr(a, b, fresh, i), IntExpr::index(j))
                }),
            Ghost(|i: int, j: int| concat1_cell(ops, fresh, i, j)),
        );
        let dims = (a.dim0(), IntExpr::add(a.dim1(), b.dim1()));
        context.next_fresh = fresh + ROWS as u64;
        Vecs { dims, vecs }
    }
}

/// The cell at `(i, j)` of the result of `TfSegmentMax`.
pub open spec fn segment_max_cell(ops: Seq<Grid<IntExpr>>, fresh: u64, i: int, j: int) -> IntExpr {
    e_select(segment_array(ops[0], ops[1], fresh, i, COLS as nat), e_const(j))
}

/// Per row, the largest `b` value stored under each segment id given by `a`.
#[derive(Debug)]
pub struct TfSegmentMax;

impl Component for TfSegmentMax {
    open spec fn spec_operand_arity(&self) -> nat {
        2
    }

    open spec fn spec_operator(&self, ids: Seq<Id>) -> Operator {
        Operator::TfSegmentMax(ids[0], ids[1])
    }

    open spec fn spec_expression(&self, ops: Seq<Grid<IntExpr>>, fresh: u64) -> Grid<IntExpr> {
        Grid {
            dims: (ops[0].dims.0, segment_count(ops[0], ops[1], fresh, (ROWS * COLS) as nat)),
            cells: table(COLS as nat, |i: int, j: int| segment_max_cell(ops, fresh, i, j)),
        }
    }

    open spec fn spec_fresh_count(&self) -> nat {
        ROWS as nat
    }

    open spec fn is_operation(&self) -> bool {
        true
    }

    fn operand_arity(&self) -> usize {
        2
    }

    fn make_operator(&self, _immediates: &Vec<Vecs<i64>>, operands: &[Id]) -> Operator {
        Operator::TfSegmentMax(operands[0], operands[1])
    }

    fn make_expression(
        &self,
        context: &mut ExprContext,
        _immediates: &[Vecs<IntExpr>],
        operands: &[Vecs<IntExpr>],
        bit_width: u32,
    ) -> Vecs<IntExpr> {
        let a = &operands[0];
        let b = &operands[1];
        let fresh = context.next_fresh;
        let ghost ops = grids(operands@);
        assert(ops[0] == a@ && ops[1] == b@);
        let vecs = build_grid(
            COLS,
            (|i: usize, j: usize| -> (r: IntExpr)
                requires
                    i < ROWS,
                    j < COLS,
                    a@ == ops[0],
                    a@.well_shaped(),
                    b@ == ops[1],
                    b@.well_shaped(),
                    fresh + ROWS <= u64::MAX,
                ensures
                    r == segment_max_cell(ops, fresh, i as int, j as int),
                {
                    IntExpr::select(segment_array_expr(a, b, fresh, i, COLS, bit_width), IntExpr::index(j))
                }),
            Ghost(|i: int, j: int| segment_max_cell(ops, fresh, i, j)),
        );
        let dims = (a.dim0(), segment_count_expr(a, b, fresh, bit_width));
        context.next_fresh = fresh + ROWS as u64;
        Vecs { dims, vecs }
    }
}

/// The cell at `(i, j)` of the result of `TfBooleanMask`.
pub open spec fn boolean_mask_cell(ops: Seq<Grid<IntExpr>>, fresh: u64, i: int, j: int) -> IntExpr {
    e_select(mask_state(ops[0], ops[1], fresh, false, ((i + 1) * COLS) as nat).0, e_const(j))
}

/// Per row, the cells of `a` where `b` is not 0, moved to the front through one array.
#[derive(Debug)]
pub struct TfBooleanMask;

impl Component for TfBooleanMask {
    open spec fn spec_operand_arity(&self) -> nat {
        2
    }

    open spec fn spec_operator(&self, ids: Seq<Id>) -> Operator {
        Operator::TfBooleanMask(ids[0], ids[1])
    }

    open spec fn spec_expression(&self, ops: Seq<Grid<IntExpr>>, fresh: u64) -> Grid<IntExpr> {
        Grid {
            dims: (ops[0].dims.0, mask_width(ops[0], ops[1], fresh, false, ROWS as nat)),
            cells: table(COLS as nat, |i: int, j: int| boolean_mask_cell(ops, fresh, i, j)),
        }
    }

    open spec fn spec_fresh_count(&self) -> nat {
        1
    }

    open spec fn is_operation(&self) -> bool {
        true
    }

    fn operand_arity(&self) -> usize {
        2
    }

    fn make_operator(&self, _immediates: &Vec<Vecs<i64>>, operands: &[Id]) -> Operator {
        Operator::TfBooleanMask(operands[0], operands[1])
    }

    fn make_expression(
        &self,
        context: &mut ExprContext,
        _immediates: &[Vecs<IntExpr>],
        operands: &[Vecs<IntExpr>],
        bit_width: u32,
    ) -> Vecs<IntExpr> {
        let a = &operands[0];
        let b = &operands[1];
        let fresh = context.next_fresh;
        let ghost ops = grids(operands@);
        assert(ops[0] == a@ && ops[1] == b@);
        let vecs = build_grid(
            COLS,
            (|i: usize, j: usize| -> (r: IntExpr)
                requires
                    i < ROWS,
                    j < COLS,
                    a@ == ops[0],
                    a@.well_shaped(),
                    b@ == ops[1],
                    b@.well_shaped(),
                    fresh + 1 <= u64::MAX,
                ensures
                    r == boolean_mask_cell(ops, fresh, i as int, j as int),
                {
                    IntExpr::select(mask_state_expr(a, b, fresh, false, (i + 1) * COLS, bit_width).0, IntExpr::index(j))
                }),
            Ghost(|i: int, j: int| boolean_mask_cell(ops, fresh, i, j)),
        );
        let dims = (a.dim0(), mask_width_expr(a, b, fresh, false, bit_width));
        context.next_fresh = fresh + 1;
        Vecs { dims, vecs }
    }
}

/// The cell at `(i, j)` of the result of `TfBooleanMask_`.
pub open spec fn boolean_mask_rows_cell(ops: Seq<Grid<IntExpr>>, fresh: u64, i: int, j: int) -> IntExpr {
    e_select(a_row(mask_table(ops[0], ops[1], fresh, ROWS as nat).0, e_const(i)), e_const(j))
}

/// The rows of `a` whose entry in row 0 of `b` is not 0, moved to the top through a table.
#[derive(Debug)]
pub struct TfBooleanMask_;

impl Component for TfBooleanMask_ {
    open spec fn spec_operand_arity(&self) -> nat {
        2
    }

    open spec fn spec_operator(&self, ids: Seq<Id>) -> Operator {
        Operator::TfBooleanMask_(ids[0], ids[1])
    }

    open spec fn spec_expression(&self, ops: Seq<Grid<IntExpr>>, fresh: u64) -> Grid<IntExpr> {
        Grid {
            dims: (mask_table(ops[0], ops[1], fresh, ROWS as nat).1, mask_width(ops[0], ops[1], fresh, true, ROWS as nat)),
            cells: table(COLS as nat, |i: int, j: int| boolean_mask_rows_cell(ops, fresh, i, j)),
        }
    }

    open spec fn spec_fresh_count(&self) -> nat {
        2
    }

    open spec fn is_operation(&self) -> bool {
        true
    }

    fn operand_arity(&self) -> usize {
        2
    }

    fn make_operator(&self, _immediates: &Vec<Vecs<i64>>, operands: &[Id]) -> Operator {
        Operator::TfBooleanMask_(operands[0], operands[1])
    }

    fn make_expression(
        &self,
        context: &mut ExprContext,
        _immediates: &[Vecs<IntExpr>],
        operands: &[Vecs<IntExpr>],
        bit_width: u32,
    ) -> Vecs<IntExpr> {
        let a = &operands[0];
        let b = &operands[1];
        let fresh = context.next_fresh;
        let ghost ops = grids(operands@);
        assert(ops[0] == a@ && ops[1] == b@);
        let vecs = build_grid(
            COLS,
            (|i: usize, j: usize| -> (r: IntExpr)
                requires
                    i < ROWS,
                    j < COLS,
                    a@ == ops[0],
                    a@.well_shaped(),
                    b@ == ops[1],
                    b@.well_shaped(),
                    fresh + 2 <= u64::MAX,
                ensures
                    r == boolean_mask_rows_cell(ops, fresh, i as int, j as int),
                {
                    IntExpr::select(ArrayExpr::row(mask_table_expr(a, b, fresh, bit_width).0, IntExpr::index(i)), IntExpr::index(j))
                }),
            Ghost(|i: int, j: int| boolean_mask_rows_cell(ops, fresh, i, j)),
        );
        let dims = (mask_table_expr(a, b, fresh, bit_width).1, mask_width_expr(a, b, fresh, true, bit_width));
        context.next_fresh = fresh + 2;
        Vecs { dims, vecs }
    }
}

/// The cell at `(i, j)` of the result of `TfWhere1`.
pub open spec fn where1_cell(ops: Seq<Grid<IntExpr>>, fresh: u64, i: int, j: int) -> IntExpr {
    if j < 2 { e_select(a_row(where_state(ops[0], fresh, (ROWS * COLS) as nat).0, e_const(i)), e_const(j)) } else { zero() }
}

/// The coordinates of the cells other than 0, in row-major order: each such cell's row and column go to indices 0 and 1 of a fresh array, filed in a table under a count of such cells; row `t` of the result is the `t`-th pair, and the row count is the count, at most the row capacity.
#[derive(Debug)]
pub struct TfWhere1;

impl Component for TfWhere1 {
    open spec fn spec_operand_arity(&self) -> nat {
        1
    }

    open spec fn spec_operator(&self, ids: Seq<Id>) -> Operator {
        Operator::TfWhere1(ids[0])
    }

    open spec fn spec_expression(&self, ops: Seq<Grid<IntExpr>>, fresh: u64) -> Grid<IntExpr> {
        Grid {
            dims: (cap_rows(where_state(ops[0], fresh, (ROWS * COLS) as nat).1), e_const(2)),
            cells: table(COLS as nat, |i: int, j: int| where1_cell(ops, fresh, i, j)),
        }
    }

    open spec fn spec_fresh_count(&self) -> nat {
        (1 + ROWS * COLS) as nat
    }

    open spec fn is_operation(&self) -> bool {
        true
    }

    fn operand_arity(&self) -> usize {
        1
    }

    fn make_operator(&self, _immediates: &Vec<Vecs<i64>>, operands: &[Id]) -> Operator {
        Operator::TfWhere1(operands[0])
    }

    fn make_expression(
        &self,
        context: &mut ExprContext,
        _immediates: &[Vecs<IntExpr>],
        operands: &[Vecs<IntExpr>],
        bit_width: u32,
    ) -> Vecs<IntExpr> {
        let a = &operands[0];
        let fresh = context.next_fresh;
        let ghost ops = grids(operands@);
        assert(ops[0] == a@);
        let vecs = build_grid(
            COLS,
            (|i: usize, j: usize| -> (r: IntExpr)
                requires
                    i < ROWS,
                    j < COLS,
                    a@ == ops[0],
                    a@.well_shaped(),
                    fresh + 1 + ROWS * COLS <= u64::MAX,
                ensures
                    r == where1_cell(ops, fresh, i as int, j as int),
                {
                    if j < 2 {
                        IntExpr::select(ArrayExpr::row(where_state_expr(a, fresh, bit_width).0, IntExpr::index(i)), IntExpr::index(j))
                    } else {
                        zero_expr(bit_width)
                    }
                }),
            Ghost(|i: int, j: int| where1_cell(ops, fresh, i, j)),
        );
        let dims = (cap_rows_expr(where_state_expr(a, fresh, bit_width).1), IntExpr::lit(2));
        context.next_fresh = fresh + (1 + ROWS * COLS) as u64;
        Vecs { dims, vecs }
    }
}

} // verus!
