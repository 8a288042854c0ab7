//! Components that reduce a tensor along its rows, its columns, or entirely.

use vstd::prelude::*;

use crate::component::{grids, Component};
use crate::expr::{
    b_eq, b_gt, b_lt, b_or, b_ite, build_grid, e_add, e_const, e_div, e_ite, e_mul, in_bounds,
    in_bounds_expr, one, one_expr, table, zero, zero_expr, BoolExpr, ExprContext, IntExpr,
};
use crate::operator::Operator;
use crate::{Grid, Id, Vecs, COLS, ROWS};

verus! {

/// The smallest `i64`, where a running maximum starts.
pub open spec fn min_literal() -> IntExpr {
    e_const(i64::MIN as int)
}

/// One step of a running maximum `m` over the cells inside the dimensions.
pub open spec fn max_step(x: Grid<IntExpr>, i: int, j: int, m: IntExpr) -> IntExpr {
    e_ite(in_bounds(x, i, j), e_ite(b_gt(x.at(i, j), m), x.at(i, j), m), m)
}

/// The running maximum over the first `n` cells, row by row.
pub open spec fn all_max(x: Grid<IntExpr>, n: nat) -> IntExpr
    decreases n,
{
    if n == 0 {
        min_literal()
    } else {
        let k = n - 1;
        max_step(x, k / COLS as int, k % COLS as int, all_max(x, (n - 1) as nat))
    }
}

/// The running maximum over the first `n` rows of column `j`.
pub open spec fn col_max(x: Grid<IntExpr>, j: int, n: nat) -> IntExpr
    decreases n,
{
    if n == 0 {
        min_literal()
    } else {
        max_step(x, n - 1, j, col_max(x, j, (n - 1) as nat))
    }
}

/// The running maximum over the first `n` columns of row `i`.
pub open spec fn row_max(x: Grid<IntExpr>, i: int, n: nat) -> IntExpr
    decreases n,
{
    if n == 0 {
        min_literal()
    } else {
        max_step(x, i, n - 1, row_max(x, i, (n - 1) as nat))
    }
}

/// The sum of the first `n` cells, row by row.
pub open spec fn all_sum(x: Grid<IntExpr>, n: nat) -> IntExpr
    decreases n,
{
    if n == 0 {
        zero()
    } else {
        let k = n - 1;
        e_add(all_sum(x, (n - 1) as nat), x.at(k / COLS as int, k % COLS as int))
    }
}

/// The sum of the first `n` rows of column `j`.
pub open spec fn col_sum(x: Grid<IntExpr>, j: int, n: nat) -> IntExpr
    decreases n,
{
    if n == 0 {
        zero()
    } else {
        e_add(col_sum(x, j, (n - 1) as nat), x.at(n - 1, j))
    }
}

/// The sum of the first `n` columns of row `i`.
pub open spec fn row_sum(x: Grid<IntExpr>, i: int, n: nat) -> IntExpr
    decreases n,
{
    if n == 0 {
        zero()
    } else {
        e_add(row_sum(x, i, (n - 1) as nat), x.at(i, n - 1))
    }
}

/// The product of the first `n` columns of row `i` that lie inside the column dimension.
pub open spec fn row_prod(x: Grid<IntExpr>, i: int, n: nat) -> IntExpr
    decreases n,
{
    if n == 0 {
        one()
    } else {
        let p = row_prod(x, i, (n - 1) as nat);
        e_ite(b_lt(e_const(n - 1), x.dims.1), e_mul(p, x.at(i, n - 1)), p)
    }
}

/// Whether a cell is not 0.
pub open spec fn nonzero(e: IntExpr) -> BoolExpr {
    b_ite(b_eq(e, zero()), BoolExpr::Lit(false), BoolExpr::Lit(true))
}

/// Whether one of the first `n` rows of column `j` is not 0.
pub open spec fn col_any(x: Grid<IntExpr>, j: int, n: nat) -> BoolExpr
    decreases n,
{
    if n == 0 {
        BoolExpr::Lit(false)
    } else {
        b_or(col_any(x, j, (n - 1) as nat), nonzero(x.at(n - 1, j)))
    }
}

/// Whether one of the first `n` columns of row `i` is not 0.
pub open spec fn row_any(x: Grid<IntExpr>, i: int, n: nat) -> BoolExpr
    decreases n,
{
    if n == 0 {
        BoolExpr::Lit(false)
    } else {
        b_or(row_any(x, i, (n - 1) as nat), nonzero(x.at(i, n - 1)))
    }
}

fn max_step_expr(a: &Vecs<IntExpr>, i: usize, j: usize, m: IntExpr) -> (r: IntExpr)
    requires
        a@.well_shaped(),
        i < ROWS,
        j < COLS,
    ensures
        r == max_step(a@, i as int, j as int, m),
{
    let bigger = IntExpr::ite(BoolExpr::gt(a.cell(i, j), m.dup()), a.cell(i, j), m.dup());
    IntExpr::ite(in_bounds_expr(a, i, j), bigger, m)
}

fn all_max_expr(a: &Vecs<IntExpr>) -> (r: IntExpr)
    requires
        a@.well_shaped(),
    ensures
        r == all_max(a@, (ROWS * COLS) as nat),
{
    let mut m = IntExpr::lit(i64::MIN);
    let mut k: usize = 0;
    while k < ROWS * COLS
        invariant
            k <= ROWS * COLS,
            a@.well_shaped(),
            m == all_max(a@, k as nat),
        decreases ROWS * COLS - k,
    {
        m = max_step_expr(a, k / COLS, k % COLS, m);
        k += 1;
    }
    m
}

fn col_max_expr(a: &Vecs<IntExpr>, j: usize) -> (r: IntExpr)
    requires
        a@.well_shaped(),
        j < COLS,
    ensures
        r == col_max(a@, j as int, ROWS as nat),
{
    let mut m = IntExpr::lit(i64::MIN);
    let mut i: usize = 0;
    while i < ROWS
        invariant
            i <= ROWS,
            j < COLS,
            a@.well_shaped(),
            m == col_max(a@, j as int, i as nat),
        decreases ROWS - i,
    {
        m = max_step_expr(a, i, j, m);
        i += 1;
    }
    m
}

fn row_max_expr(a: &Vecs<IntExpr>, i: usize) -> (r: IntExpr)
    requires
        a@.well_shaped(),
        i < ROWS,
    ensures
        r == row_max(a@, i as int, COLS as nat),
{
    let mut m = IntExpr::lit(i64::MIN);
    let mut j: usize = 0;
    while j < COLS
        invariant
            j <= COLS,
            i < ROWS,
            a@.well_shaped(),
            m == row_max(a@, i as int, j as nat),
        decreases COLS - j,
    {
        m = max_step_expr(a, i, j, m);
        j += 1;
    }
    m
}

fn all_sum_expr(a: &Vecs<IntExpr>, bit_width: u32) -> (r: IntExpr)
    requires
        a@.well_shaped(),
    ensures
        r == all_sum(a@, (ROWS * COLS) as nat),
{
    let mut s = zero_expr(bit_width);
    let mut k: usize = 0;
    while k < ROWS * COLS
        invariant
            k <= ROWS * COLS,
            a@.well_shaped(),
            s == all_sum(a@, k as nat),
        decreases ROWS * COLS - k,
    {
        s = IntExpr::add(s, a.cell(k / COLS, k % COLS));
        k += 1;
    }
    s
}

pub(crate) fn col_sum_expr(a: &Vecs<IntExpr>, j: usize, bit_width: u32) -> (r: IntExpr)
    requires
        a@.well_shaped(),
        j < COLS,
    ensures
        r == col_sum(a@, j as int, ROWS as nat),
{
    let mut s = zero_expr(bit_width);
    let mut i: usize = 0;
    while i < ROWS
        invariant
            i <= ROWS,
            j < COLS,
            a@.well_shaped(),
            s == col_sum(a@, j as int, i as nat),
        decreases ROWS - i,
    {
        s = IntExpr::add(s, a.cell(i, j));
        i += 1;
    }
    s
}

fn row_sum_expr(a: &Vecs<IntExpr>, i: usize, bit_width: u32) -> (r: IntExpr)
    requires
        a@.well_shaped(),
        i < ROWS,
    ensures
        r == row_sum(a@, i as int, COLS as nat),
{
    let mut s = zero_expr(bit_width);
    let mut j: usize = 0;
    while j < COLS
        invariant
            j <= COLS,
            i < ROWS,
            a@.well_shaped(),
            s == row_sum(a@, i as int, j as nat),
        decreases COLS - j,
    {
        s = IntExpr::add(s, a.cell(i, j));
        j += 1;
    }
    s
}

fn row_prod_expr(a: &Vecs<IntExpr>, i: usize, bit_width: u32) -> (r: IntExpr)
    requires
        a@.well_shaped(),
        i < ROWS,
    ensures
        r == row_prod(a@, i as int, COLS as nat),
{
    let mut p = one_expr(bit_width);
    let mut j: usize = 0;
    while j < COLS
        invariant
            j <= COLS,
            i < ROWS,
            a@.well_shaped(),
            p == row_prod(a@, i as int, j as nat),
        decreases COLS - j,
    {
        let cond = BoolExpr::lt(IntExpr::index(j), a.dim1());
        p = IntExpr::ite(cond, IntExpr::mul(p.dup(), a.cell(i, j)), p);
        j += 1;
    }
    p
}

fn nonzero_expr(e: IntExpr, bit_width: u32) -> (r: BoolExpr)
    ensures
        r == nonzero(e),
{
    BoolExpr::ite(BoolExpr::eq(e, zero_expr(bit_width)), BoolExpr::Lit(false), BoolExpr::Lit(true))
}

fn col_any_expr(a: &Vecs<IntExpr>, j: usize, bit_width: u32) -> (r: BoolExpr)
    requires
        a@.well_shaped(),
        j < COLS,
    ensures
        r == col_any(a@, j as int, ROWS as nat),
{
    let mut s = BoolExpr::Lit(false);
    let mut i: usize = 0;
    while i < ROWS
        invariant
            i <= ROWS,
            j < COLS,
            a@.well_shaped(),
            s == col_any(a@, j as int, i as nat),
        decreases ROWS - i,
    {
        s = BoolExpr::or(s, nonzero_expr(a.cell(i, j), bit_width));
        i += 1;
    }
    s
}

fn row_any_expr(a: &Vecs<IntExpr>, i: usize, bit_width: u32) -> (r: BoolExpr)
    requires
        a@.well_shaped(),
        i < ROWS,
    ensures
        r == row_any(a@, i as int, COLS as nat),
{
    let mut s = BoolExpr::Lit(false);
    let mut j: usize = 0;
    while j < COLS
        invariant
            j <= COLS,
            i < ROWS,
            a@.well_shaped(),
            s == row_any(a@, i as int, j as nat),
        decreases COLS - j,
    {
        s = BoolExpr::or(s, nonzero_expr(a.cell(i, j), bit_width));
        j += 1;
    }
    s
}

/// The cell at `(i, j)` of the result of `TfReduceMax`.
pub open spec fn reduce_max_cell(ops: Seq<Grid<IntExpr>>, fresh: u64, i: int, j: int) -> IntExpr {
    if i == 0 && j == 0 { all_max(ops[0], (ROWS * COLS) as nat) } else { zero() }
}

/// The largest cell inside the dimensions (`i64::MIN` if none), as a 1 x 1 tensor.
#[derive(Debug)]
pub struct TfReduceMax;

impl Component for TfReduceMax {
    open spec fn spec_operand_arity(&self) -> nat {
        1
    }

    open spec fn spec_operator(&self, ids: Seq<Id>) -> Operator {
        Operator::TfReduceMax(ids[0])
    }

    open spec fn spec_expression(&self, ops: Seq<Grid<IntExpr>>, fresh: u64) -> Grid<IntExpr> {
        Grid {
            dims: (one(), one()),
            cells: table(COLS as nat, |i: int, j: int| reduce_max_cell(ops, fresh, i, j)),
        }
    }

    open spec fn spec_fresh_count(&self) -> nat {
        0
    }

    open spec fn is_operation(&self) -> bool {
        true
    }

    fn operand_arity(&self) -> usize {
        1
    }

    fn make_operator(&self, _immediates: &Vec<Vecs<i64>>, operands: &[Id]) -> Operator {
        Operator::TfReduceMax(operands[0])
    }

    fn make_expression(
        &self,
        context: &mut ExprContext,
        _immediates: &[Vecs<IntExpr>],
        operands: &[Vecs<IntExpr>],
        bit_width: u32,
    ) -> Vecs<IntExpr> {
        let a = &operands[0];
        let fresh = context.next_fresh;
        let ghost ops = grids(operands@);
        assert(ops[0] == a@);
        let vecs = build_grid(
            COLS,
            (|i: usize, j: usize| -> (r: IntExpr)
                requires
                    i < ROWS,
                    j < COLS,
                    a@ == ops[0],
                    a@.well_shaped(),
                ensures
                    r == reduce_max_cell(ops, fresh, i as int, j as int),
                {
                    if i == 0 && j == 0 { all_max_expr(a) } else { zero_expr(bit_width) }
                }),
            Ghost(|i: int, j: int| reduce_max_cell(ops, fresh, i, j)),
        );
        let dims = (one_expr(bit_width), one_expr(bit_width));
        Vecs { dims, vecs }
    }
}

/// The cell at `(i, j)` of the result of `TfReduceMax0`.
pub open spec fn reduce_max0_cell(ops: Seq<Grid<IntExpr>>, fresh: u64, i: int, j: int) -> IntExpr {
    if i == 0 { col_max(ops[0], j, ROWS as nat) } else { zero() }
}

/// The largest cell of each column inside the dimensions, as one row.
#[derive(Debug)]
pub struct TfReduceMax0;

impl Component for TfReduceMax0 {
    open spec fn spec_operand_arity(&self) -> nat {
        1
    }

    open spec fn spec_operator(&self, ids: Seq<Id>) -> Operator {
        Operator::TfReduceMax0(ids[0])
    }

    open spec fn spec_expression(&self, ops: Seq<Grid<IntExpr>>, fresh: u64) -> Grid<IntExpr> {
        Grid {
            dims: (one(), ops[0].dims.1),
            cells: table(COLS as nat, |i: int, j: int| reduce_max0_cell(ops, fresh, i, j)),
        }
    }

    open spec fn spec_fresh_count(&self) -> nat {
        0
    }

    open spec fn is_operation(&self) -> bool {
        true
    }

    fn operand_arity(&self) -> usize {
        1
    }

    fn make_operator(&self, _immediates: &Vec<Vecs<i64>>, operands: &[Id]) -> Operator {
        Operator::TfReduceMax0(operands[0])
    }

    fn make_expression(
        &self,
        context: &mut ExprContext,
        _immediates: &[Vecs<IntExpr>],
        operands: &[Vecs<IntExpr>],
        bit_width: u32,
    ) -> Vecs<IntExpr> {
        let a = &operands[0];
        let fresh = context.next_fresh;
        let ghost ops = grids(operands@);
        assert(ops[0] == a@);
        let vecs = build_grid(
            COLS,
            (|i: usize, j: usize| -> (r: IntExpr)
                requires
                    i < ROWS,
                    j < COLS,
                    a@ == ops[0],
                    a@.well_shaped(),
                ensures
                    r == reduce_max0_cell(ops, fresh, i as int, j as int),
                {
                    if i == 0 { col_max_expr(a, j) } else { zero_expr(bit_width) }
                }),
            Ghost(|i: int, j: int| reduce_max0_cell(ops, fresh, i, j)),
        );
        let dims = (one_expr(bit_width), a.dim1());
        Vecs { dims, vecs }
    }
}

/// The cell at `(i, j)` of the result of `TfReduceMax1`.
pub open spec fn reduce_max1_cell(ops: Seq<Grid<IntExpr>>, fresh: u64, i: int, j: int) -> IntExpr {
    if i == 0 && j < ROWS { row_max(ops[0], j, COLS as nat) } else { zero() }
}

/// The largest cell of each row inside the dimensions, as one row.
#[derive(Debug)]
pub struct TfReduceMax1;

impl Component for TfReduceMax1 {
    open spec fn spec_operand_arity(&self) -> nat {
        1
    }

    open spec fn spec_operator(&self, ids: Seq<Id>) -> Operator {
        Operator::TfReduceMax1(ids[0])
    }

    open spec fn spec_expression(&self, ops: Seq<Grid<IntExpr>>, fresh: u64) -> Grid<IntExpr> {
        Grid {
            dims: (one(), ops[0].dims.0),
            cells: table(COLS as nat, |i: int, j: int| reduce_max1_cell(ops, fresh, i, j)),
        }
    }

    open spec fn spec_fresh_count(&self) -> nat {
        0
    }

    open spec fn is_operation(&self) -> bool {
        true
    }

    fn operand_arity(&self) -> usize {
        1
    }

    fn make_operator(&self, _immediates: &Vec<Vecs<i64>>, operands: &[Id]) -> Operator {
        Operator::TfReduceMax1(operands[0])
    }

    fn make_expression(
        &self,
        context: &mut ExprContext,
        _immediates: &[Vecs<IntExpr>],
        operands: &[Vecs<IntExpr>],
        bit_width: u32,
    ) -> Vecs<IntExpr> {
        let a = &operands[0];
        let fresh = context.next_fresh;
        let ghost ops = grids(operands@);
        assert(ops[0] == a@);
        let vecs = build_grid(
            COLS,
            (|i: usize, j: usize| -> (r: IntExpr)
                requires
                    i < ROWS,
                    j < COLS,
                    a@ == ops[0],
                    a@.well_shaped(),
                ensures
                    r == reduce_max1_cell(ops, fresh, i as int, j as int),
                {
                    if i == 0 && j < ROWS { row_max_expr(a, j) } else { zero_expr(bit_width) }
                }),
            Ghost(|i: int, j: int| reduce_max1_cell(ops, fresh, i, j)),
        );
        let dims = (one_expr(bit_width), a.dim0());
        Vecs { dims, vecs }
    }
}

/// The cell at `(i, j)` of the result of `TfReduceSum`.
pub open spec fn reduce_sum_cell(ops: Seq<Grid<IntExpr>>, fresh: u64, i: int, j: int) -> IntExpr {
    if i == 0 && j == 0 { all_sum(ops[0], (ROWS * COLS) as nat) } else { zero() }
}

/// The sum of all cells, as a 1 x 1 tensor.
#[derive(Debug)]
pub struct TfReduceSum;

impl Component for TfReduceSum {
    open spec fn spec_operand_arity(&self) -> nat {
        1
    }

    open spec fn spec_operator(&self, ids: Seq<Id>) -> Operator {
        Operator::TfReduceSum(ids[0])
    }

    open spec fn spec_expression(&self, ops: Seq<Grid<IntExpr>>, fresh: u64) -> Grid<IntExpr> {
        Grid {
            dims: (one(), one()),
            cells: table(COLS as nat, |i: int, j: int| reduce_sum_cell(ops, fresh, i, j)),
        }
    }

    open spec fn spec_fresh_count(&self) -> nat {
        0
    }

    open spec fn is_operation(&self) -> bool {
        true
    }

    fn operand_arity(&self) -> usize {
        1
    }

    fn make_operator(&self, _immediates: &Vec<Vecs<i64>>, operands: &[Id]) -> Operator {
        Operator::TfReduceSum(operands[0])
    }

    fn make_expression(
        &self,
        context: &mut ExprContext,
        _immediates: &[Vecs<IntExpr>],
        operands: &[Vecs<IntExpr>],
        bit_width: u32,
    ) -> Vecs<IntExpr> {
        let a = &operands[0];
        let fresh = context.next_fresh;
        let ghost ops = grids(operands@);
        assert(ops[0] == a@);
        let vecs = build_grid(
            COLS,
            (|i: usize, j: usize| -> (r: IntExpr)
                requires
                    i < ROWS,
                    j < COLS,
                    a@ == ops[0],
                    a@.well_shaped(),
                ensures
                    r == reduce_sum_cell(ops, fresh, i as int, j as int),
                {
                    if i == 0 && j == 0 { all_sum_expr(a, bit_width) } else { zero_expr(bit_width) }
                }),
            Ghost(|i: int, j: int| reduce_sum_cell(ops, fresh, i, j)),
        );
        let dims = (one_expr(bit_width), one_expr(bit_width));
        Vecs { dims, vecs }
    }
}

/// The cell at `(i, j)` of the result of `TfReduceSum0`.
pub open spec fn reduce_sum0_cell(ops: Seq<Grid<IntExpr>>, fresh: u64, i: int, j: int) -> IntExpr {
    if i == 0 { col_sum(ops[0], j, ROWS as nat) } else { zero() }
}

/// The sum of each column, as one row.
#[derive(Debug)]
pub struct TfReduceSum0;

impl Component for TfReduceSum0 {
    open spec fn spec_operand_arity(&self) -> nat {
        1
    }

    open spec fn spec_operator(&self, ids: Seq<Id>) -> Operator {
        Operator::TfReduceSum0(ids[0])
    }

    open spec fn spec_expression(&self, ops: Seq<Grid<IntExpr>>, fresh: u64) -> Grid<IntExpr> {
        Grid {
            dims: (one(), ops[0].dims.1),
            cells: table(COLS as nat, |i: int, j: int| reduce_sum0_cell(ops, fresh, i, j)),
        }
    }

    open spec fn spec_fresh_count(&self) -> nat {
        0
    }

    open spec fn is_operation(&self) -> bool {
        true
    }

    fn operand_arity(&self) -> usize {
        1
    }

    fn make_operator(&self, _immediates: &Vec<Vecs<i64>>, operands: &[Id]) -> Operator {
        Operator::TfReduceSum0(operands[0])
    }

    fn make_expression(
        &self,
        context: &mut ExprContext,
        _immediates: &[Vecs<IntExpr>],
        operands: &[Vecs<IntExpr>],
        bit_width: u32,
    ) -> Vecs<IntExpr> {
        let a = &operands[0];
        let fresh = context.next_fresh;
        let ghost ops = grids(operands@);
        assert(ops[0] == a@);
        let vecs = build_grid(
            COLS,
            (|i: usize, j: usize| -> (r: IntExpr)
                requires
                    i < ROWS,
                    j < COLS,
                    a@ == ops[0],
                    a@.well_shaped(),
                ensures
                    r == reduce_sum0_cell(ops, fresh, i as int, j as int),
                {
                    if i == 0 { col_sum_expr(a, j, bit_width) } else { zero_expr(bit_width) }
                }),
            Ghost(|i: int, j: int| reduce_sum0_cell(ops, fresh, i, j)),
        );
        let dims = (one_expr(bit_width), a.dim1());
        Vecs { dims, vecs }
    }
}

/// The cell at `(i, j)` of the result of `TfReduceSum1`.
pub open spec fn reduce_sum1_cell(ops: Seq<Grid<IntExpr>>, fresh: u64, i: int, j: int) -> IntExpr {
    if i == 0 && j < ROWS { row_sum(ops[0], j, COLS as nat) } else { zero() }
}

/// The sum of each row, as one row.
#[derive(Debug)]
pub struct TfReduceSum1;

impl Component for TfReduceSum1 {
    open spec fn spec_operand_arity(&self) -> nat {
        1
    }

    open spec fn spec_operator(&self, ids: Seq<Id>) -> Operator {
        Operator::TfReduceSum1(ids[0])
    }

    open spec fn spec_expression(&self, ops: Seq<Grid<IntExpr>>, fresh: u64) -> Grid<IntExpr> {
        Grid {
            dims: (one(), ops[0].dims.0),
            cells: table(COLS as nat, |i: int, j: int| reduce_sum1_cell(ops, fresh, i, j)),
        }
    }

    open spec fn spec_fresh_count(&self) -> nat {
        0
    }

    open spec fn is_operation(&self) -> bool {
        true
    }

    fn operand_arity(&self) -> usize {
        1
    }

    fn make_operator(&self, _immediates: &Vec<Vecs<i64>>, operands: &[Id]) -> Operator {
        Operator::TfReduceSum1(operands[0])
    }

    fn make_expression(
        &self,
        context: &mut ExprContext,
        _immediates: &[Vecs<IntExpr>],
        operands: &[Vecs<IntExpr>],
        bit_width: u32,
    ) -> Vecs<IntExpr> {
        let a = &operands[0];
        let fresh = context.next_fresh;
        let ghost ops = grids(operands@);
        assert(ops[0] == a@);
        let vecs = build_grid(
            COLS,
            (|i: usize, j: usize| -> (r: IntExpr)
                requires
                    i < ROWS,
                    j < COLS,
                    a@ == ops[0],
                    a@.well_shaped(),
                ensures
                    r == reduce_sum1_cell(ops, fresh, i as int, j as int),
                {
                    if i == 0 && j < ROWS { row_sum_expr(a, j, bit_width) } else { zero_expr(bit_width) }
                }),
            Ghost(|i: int, j: int| reduce_sum1_cell(ops, fresh, i, j)),
        );
        let dims = (one_expr(bit_width), a.dim0());
        Vecs { dims, vecs }
    }
}

/// The cell at `(i, j)` of the result of `TfReduceMean`.
pub open spec fn reduce_mean_cell(ops: Seq<Grid<IntExpr>>, fresh: u64, i: int, j: int) -> IntExpr {
    if i == 0 { e_div(col_sum(ops[0], j, ROWS as nat), ops[0].dims.0) } else { zero() }
}

/// The sum of each column divided by the number of rows, as one row.
#[derive(Debug)]
pub struct TfReduceMean;

impl Component for TfReduceMean {
    open spec fn spec_operand_arity(&self) -> nat {
        1
    }

    open spec fn spec_operator(&self, ids: Seq<Id>) -> Operator {
        Operator::TfReduceMean(ids[0])
    }

    open spec fn spec_expression(&self, ops: Seq<Grid<IntExpr>>, fresh: u64) -> Grid<IntExpr> {
        Grid {
            dims: (one(), ops[0].dims.1),
            cells: table(COLS as nat, |i: int, j: int| reduce_mean_cell(ops, fresh, i, j)),
        }
    }

    open spec fn spec_fresh_count(&self) -> nat {
        0
    }

    open spec fn is_operation(&self) -> bool {
        true
    }

    fn operand_arity(&self) -> usize {
        1
    }

    fn make_operator(&self, _immediates: &Vec<Vecs<i64>>, operands: &[Id]) -> Operator {
        Operator::TfReduceMean(operands[0])
    }

    fn make_expression(
        &self,
        context: &mut ExprContext,
        _immediates: &[Vecs<IntExpr>],
        operands: &[Vecs<IntExpr>],
        bit_width: u32,
    ) -> Vecs<IntExpr> {
        let a = &operands[0];
        let fresh = context.next_fresh;
        let ghost ops = grids(operands@);
        assert(ops[0] == a@);
        let vecs = build_grid(
            COLS,
            (|i: usize, j: usize| -> (r: IntExpr)
                requires
                    i < ROWS,
                    j < COLS,
                    a@ == ops[0],
                    a@.well_shaped(),
                ensures
                    r == reduce_mean_cell(ops, fresh, i as int, j as int),
                {
                    if i == 0 { IntExpr::div(col_sum_expr(a, j, bit_width), a.dim0()) } else { zero_expr(bit_width) }
                }),
            Ghost(|i: int, j: int| reduce_mean_cell(ops, fresh, i, j)),
        );
        let dims = (one_expr(bit_width), a.dim1());
        Vecs { dims, vecs }
    }
}

/// The cell at `(i, j)` of the result of `TfReduceProd`.
pub open spec fn reduce_prod_cell(ops: Seq<Grid<IntExpr>>, fresh: u64, i: int, j: int) -> IntExpr {
    if i == 0 && j < ROWS { row_prod(ops[0], j, COLS as nat) } else { zero() }
}

/// The product of each row over the columns inside the dimensions, as one row.
#[derive(Debug)]
pub struct TfReduceProd;

impl Component for TfReduceProd {
    open spec fn spec_operand_arity(&self) -> nat {
        1
    }

    open spec fn spec_operator(&self, ids: Seq<Id>) -> Operator {
        Operator::TfReduceProd(ids[0])
    }

    open spec fn spec_expression(&self, ops: Seq<Grid<IntExpr>>, fresh: u64) -> Grid<IntExpr> {
        Grid {
            dims: (one(), ops[0].dims.0),
            cells: table(COLS as nat, |i: int, j: int| reduce_prod_cell(ops, fresh, i, j)),
        }
    }

    open spec fn spec_fresh_count(&self) -> nat {
        0
    }

    open spec fn is_operation(&self) -> bool {
        true
    }

    fn operand_arity(&self) -> usize {
        1
    }

    fn make_operator(&self, _immediates: &Vec<Vecs<i64>>, operands: &[Id]) -> Operator {
        Operator::TfReduceProd(operands[0])
    }

    fn make_expression(
        &self,
        context: &mut ExprContext,
        _immediates: &[Vecs<IntExpr>],
        operands: &[Vecs<IntExpr>],
        bit_width: u32,
    ) -> Vecs<IntExpr> {
        let a = &operands[0];
        let fresh = context.next_fresh;
        let ghost ops = grids(operands@);
        assert(ops[0] == a@);
        let vecs = build_grid(
            COLS,
            (|i: usize, j: usize| -> (r: IntExpr)
                requires
                    i < ROWS,
                    j < COLS,
                    a@ == ops[0],
                    a@.well_shaped(),
                ensures
                    r == reduce_prod_cell(ops, fresh, i as int, j as int),
                {
                    if i == 0 && j < ROWS { row_prod_expr(a, j, bit_width) } else { zero_expr(bit_width) }
                }),
            Ghost(|i: int, j: int| reduce_prod_cell(ops, fresh, i, j)),
        );
        let dims = (one_expr(bit_width), a.dim0());
        Vecs { dims, vecs }
    }
}

/// The cell at `(i, j)` of the result of `TfReduceAny0`.
pub open spec fn reduce_any0_cell(ops: Seq<Grid<IntExpr>>, fresh: u64, i: int, j: int) -> IntExpr {
    if i == 0 { e_ite(col_any(ops[0], j, ROWS as nat), one(), zero()) } else { zero() }
}

/// 1 for each column holding a cell other than 0, else 0, as one row.
#[derive(Debug)]
pub struct TfReduceAny0;

impl Component for TfReduceAny0 {
    open spec fn spec_operand_arity(&self) -> nat {
        1
    }

    open spec fn spec_operator(&self, ids: Seq<Id>) -> Operator {
        Operator::TfReduceAny0(ids[0])
    }

    open spec fn spec_expression(&self, ops: Seq<Grid<IntExpr>>, fresh: u64) -> Grid<IntExpr> {
        Grid {
            dims: (one(), ops[0].dims.1),
            cells: table(COLS as nat, |i: int, j: int| reduce_any0_cell(ops, fresh, i, j)),
        }
    }

    open spec fn spec_fresh_count(&self) -> nat {
        0
    }

    open spec fn is_operation(&self) -> bool {
        true
    }

    fn operand_arity(&self) -> usize {
        1
    }

    fn make_operator(&self, _immediates: &Vec<Vecs<i64>>, operands: &[Id]) -> Operator {
        Operator::TfReduceAny0(operands[0])
    }

    fn make_expression(
        &self,
        context: &mut ExprContext,
        _immediates: &[Vecs<IntExpr>],
        operands: &[Vecs<IntExpr>],
        bit_width: u32,
    ) -> Vecs<IntExpr> {
        let a = &operands[0];
        let fresh = context.next_fresh;
        let ghost ops = grids(operands@);
        assert(ops[0] == a@);
        let vecs = build_grid(
            COLS,
            (|i: usize, j: usize| -> (r: IntExpr)
                requires
                    i < ROWS,
                    j < COLS,
                    a@ == ops[0],
                    a@.well_shaped(),
                ensures
                    r == reduce_any0_cell(ops, fresh, i as int, j as int),
                {
                    if i == 0 { IntExpr::ite(col_any_expr(a, j, bit_width), one_expr(bit_width), zero_expr(bit_width)) } else { zero_expr(bit_width) }
                }),
            Ghost(|i: int, j: int| reduce_any0_cell(ops, fresh, i, j)),
        );
        let dims = (one_expr(bit_width), a.dim1());
        Vecs { dims, vecs }
    }
}

/// The cell at `(i, j)` of the result of `TfReduceAny1`.
pub open spec fn reduce_any1_cell(ops: Seq<Grid<IntExpr>>, fresh: u64, i: int, j: int) -> IntExpr {
    if i == 0 && j < ROWS { e_ite(row_any(ops[0], j, COLS as nat), one(), zero()) } else { zero() }
}

/// 1 for each row holding a cell other than 0, else 0, as one row.
#[derive(Debug)]
pub struct TfReduceAny1;

impl Component for TfReduceAny1 {
    open spec fn spec_operand_arity(&self) -> nat {
        1
    }

    open spec fn spec_operator(&self, ids: Seq<Id>) -> Operator {
        Operator::TfReduceAny1(ids[0])
    }

    open spec fn spec_expression(&self, ops: Seq<Grid<IntExpr>>, fresh: u64) -> Grid<IntExpr> {
        Grid {
            dims: (one(), ops[0].dims.0),
            cells: table(COLS as nat, |i: int, j: int| reduce_any1_cell(ops, fresh, i, j)),
        }
    }

    open spec fn spec_fresh_count(&self) -> nat {
        0
    }

    open spec fn is_operation(&self) -> bool {
        true
    }

    fn operand_arity(&self) -> usize {
        1
    }

    fn make_operator(&self, _immediates: &Vec<Vecs<i64>>, operands: &[Id]) -> Operator {
        Operator::TfReduceAny1(operands[0])
    }

    fn make_expression(
        &self,
        context: &mut ExprContext,
        _immediates: &[Vecs<IntExpr>],
        operands: &[Vecs<IntExpr>],
        bit_width: u32,
    ) -> Vecs<IntExpr> {
        let a = &operands[0];
        let fresh = context.next_fresh;
        let ghost ops = grids(operands@);
        assert(ops[0] == a@);
        let vecs = build_grid(
            COLS,
            (|i: usize, j: usize| -> (r: IntExpr)
                requires
                    i < ROWS,
                    j < COLS,
                    a@ == ops[0],
                    a@.well_shaped(),
                ensures
                    r == reduce_any1_cell(ops, fresh, i as int, j as int),
                {
                    if i == 0 && j < ROWS { IntExpr::ite(row_any_expr(a, j, bit_width), one_expr(bit_width), zero_expr(bit_width)) } else { zero_expr(bit_width) }
                }),
            Ghost(|i: int, j: int| reduce_any1_cell(ops, fresh, i, j)),
        );
        let dims = (one_expr(bit_width), a.dim0());
        Vecs { dims, vecs }
    }
}

} // verus!
