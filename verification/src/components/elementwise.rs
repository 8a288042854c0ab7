//! Components that combine their operands cell by cell.

use vstd::prelude::*;

use crate::component::{grids, Component};
use crate::expr::{
    and3, and3_expr, b_eq, b_gt, b_lt, build_grid, e_add, e_const, e_div, e_ite, e_mul, e_sub,
    in_bounds, in_bounds_expr, one, one_expr, table, zero, zero_expr, BoolExpr, ExprContext, IntExpr,
};
use crate::operator::Operator;
use crate::{Grid, Id, Vecs, COLS, ROWS};

verus! {

/// The cell at `(i, j)` of the result of `TfAdd`.
pub open spec fn add_cell(ops: Seq<Grid<IntExpr>>, fresh: u64, i: int, j: int) -> IntExpr {
    e_add(ops[0].at(i, j), ops[1].at(i, j))
}

/// `a + b`, cell by cell.
#[derive(Debug)]
pub struct TfAdd;

impl Component for TfAdd {
    open spec fn spec_operand_arity(&self) -> nat {
        2
    }

    open spec fn spec_operator(&self, ids: Seq<Id>) -> Operator {
        Operator::TfAdd(ids[0], ids[1])
    }

    open spec fn spec_expression(&self, ops: Seq<Grid<IntExpr>>, fresh: u64) -> Grid<IntExpr> {
        Grid {
            dims: ops[0].dims,
            cells: table(COLS as nat, |i: int, j: int| add_cell(ops, fresh, i, j)),
        }
    }

    open spec fn spec_fresh_count(&self) -> nat {
        0
    }

    open spec fn is_operation(&self) -> bool {
        true
    }

    fn operand_arity(&self) -> usize {
        2
    }

    fn make_operator(&self, _immediates: &Vec<Vecs<i64>>, operands: &[Id]) -> Operator {
        Operator::TfAdd(operands[0], operands[1])
    }

    fn make_expression(
        &self,
        context: &mut ExprContext,
        _immediates: &[Vecs<IntExpr>],
        operands: &[Vecs<IntExpr>],
        bit_width: u32,
    ) -> Vecs<IntExpr> {
        let a = &operands[0];
        let b = &operands[1];
        let fresh = context.next_fresh;
        let ghost ops = grids(operands@);
        assert(ops[0] == a@ && ops[1] == b@);
        let vecs = build_grid(
            COLS,
            (|i: usize, j: usize| -> (r: IntExpr)
                requires
                    i < ROWS,
                    j < COLS,
                    a@ == ops[0],
                    a@.well_shaped(),
                    b@ == ops[1],
                    b@.well_shaped(),
                ensures
                    r == add_cell(ops, fresh, i as int, j as int),
                {
                    IntExpr::add(a.cell(i, j), b.cell(i, j))
                }),
            Ghost(|i: int, j: int| add_cell(ops, fresh, i, j)),
        );
        let dims = (a.dim0(), a.dim1());
        Vecs { dims, vecs }
    }
}

/// The cell at `(i, j)` of the result of `TfSubtract`.
pub open spec fn subtract_cell(ops: Seq<Grid<IntExpr>>, fresh: u64, i: int, j: int) -> IntExpr {
    e_sub(ops[0].at(i, j), ops[1].at(i, j))
}

/// `a - b`, cell by cell.
#[derive(Debug)]
pub struct TfSubtract;

impl Component for TfSubtract {
    open spec fn spec_operand_arity(&self) -> nat {
        2
    }

    open spec fn spec_operator(&self, ids: Seq<Id>) -> Operator {
        Operator::TfSubtract(ids[0], ids[1])
    }

    open spec fn spec_expression(&self, ops: Seq<Grid<IntExpr>>, fresh: u64) -> Grid<IntExpr> {
        Grid {
            dims: ops[0].dims,
            cells: table(COLS as nat, |i: int, j: int| subtract_cell(ops, fresh, i, j)),
        }
    }

    open spec fn spec_fresh_count(&self) -> nat {
        0
    }

    open spec fn is_operation(&self) -> bool {
        true
    }

    fn operand_arity(&self) -> usize {
        2
    }

    fn make_operator(&self, _immediates: &Vec<Vecs<i64>>, operands: &[Id]) -> Operator {
        Operator::TfSubtract(operands[0], operands[1])
    }

    fn make_expression(
        &self,
        context: &mut ExprContext,
        _immediates: &[Vecs<IntExpr>],
        operands: &[Vecs<IntExpr>],
        bit_width: u32,
    ) -> Vecs<IntExpr> {
        let a = &operands[0];
        let b = &operands[1];
        let fresh = context.next_fresh;
        let ghost ops = grids(operands@);
        assert(ops[0] == a@ && ops[1] == b@);
        let vecs = build_grid(
            COLS,
            (|i: usize, j: usize| -> (r: IntExpr)
                requires
                    i < ROWS,
                    j < COLS,
                    a@ == ops[0],
                    a@.well_shaped(),
                    b@ == ops[1],
                    b@.well_shaped(),
                ensures
                    r == subtract_cell(ops, fresh, i as int, j as int),
                {
                    IntExpr::sub(a.cell(i, j), b.cell(i, j))
                }),
            Ghost(|i: int, j: int| subtract_cell(ops, fresh, i, j)),
        );
        let dims = (a.dim0(), a.dim1());
        Vecs { dims, vecs }
    }
}

/// The cell at `(i, j)` of the result of `TfMultiply`.
pub open spec fn multiply_cell(ops: Seq<Grid<IntExpr>>, fresh: u64, i: int, j: int) -> IntExpr {
    e_mul(ops[0].at(i, j), ops[1].at(i, j))
}

/// `a * b`, cell by cell.
#[derive(Debug)]
pub struct TfMultiply;

impl Component for TfMultiply {
    open spec fn spec_operand_arity(&self) -> nat {
        2
    }

    open spec fn spec_operator(&self, ids: Seq<Id>) -> Operator {
        Operator::TfMultiply(ids[0], ids[1])
    }

    open spec fn spec_expression(&self, ops: Seq<Grid<IntExpr>>, fresh: u64) -> Grid<IntExpr> {
        Grid {
            dims: ops[0].dims,
            cells: table(COLS as nat, |i: int, j: int| multiply_cell(ops, fresh, i, j)),
        }
    }

    open spec fn spec_fresh_count(&self) -> nat {
        0
    }

    open spec fn is_operation(&self) -> bool {
        true
    }

    fn operand_arity(&self) -> usize {
        2
    }

    fn make_operator(&self, _immediates: &Vec<Vecs<i64>>, operands: &[Id]) -> Operator {
        Operator::TfMultiply(operands[0], operands[1])
    }

    fn make_expression(
        &self,
        context: &mut ExprContext,
        _immediates: &[Vecs<IntExpr>],
        operands: &[Vecs<IntExpr>],
        bit_width: u32,
    ) -> Vecs<IntExpr> {
        let a = &operands[0];
        let b = &operands[1];
        let fresh = context.next_fresh;
        let ghost ops = grids(operands@);
        assert(ops[0] == a@ && ops[1] == b@);
        let vecs = build_grid(
            COLS,
            (|i: usize, j: usize| -> (r: IntExpr)
                requires
                    i < ROWS,
                    j < COLS,
                    a@ == ops[0],
                    a@.well_shaped(),
                    b@ == ops[1],
                    b@.well_shaped(),
                ensures
                    r == multiply_cell(ops, fresh, i as int, j as int),
                {
                    IntExpr::mul(a.cell(i, j), b.cell(i, j))
                }),
            Ghost(|i: int, j: int| multiply_cell(ops, fresh, i, j)),
        );
        let dims = (a.dim0(), a.dim1());
        Vecs { dims, vecs }
    }
}

/// The cell at `(i, j)` of the result of `TfSquare`.
pub open spec fn square_cell(ops: Seq<Grid<IntExpr>>, fresh: u64, i: int, j: int) -> IntExpr {
    e_mul(ops[0].at(i, j), ops[0].at(i, j))
}

/// `a * a`, cell by cell.
#[derive(Debug)]
pub struct TfSquare;

impl Component for TfSquare {
    open spec fn spec_operand_arity(&self) -> nat {
        1
    }

    open spec fn spec_operator(&self, ids: Seq<Id>) -> Operator {
        Operator::TfSquare(ids[0])
    }

    open spec fn spec_expression(&self, ops: Seq<Grid<IntExpr>>, fresh: u64) -> Grid<IntExpr> {
        Grid {
            dims: ops[0].dims,
            cells: table(COLS as nat, |i: int, j: int| square_cell(ops, fresh, i, j)),
        }
    }

    open spec fn spec_fresh_count(&self) -> nat {
        0
    }

    open spec fn is_operation(&self) -> bool {
        true
    }

    fn operand_arity(&self) -> usize {
        1
    }

    fn make_operator(&self, _immediates: &Vec<Vecs<i64>>, operands: &[Id]) -> Operator {
        Operator::TfSquare(operands[0])
    }

    fn make_expression(
        &self,
        context: &mut ExprContext,
        _immediates: &[Vecs<IntExpr>],
        operands: &[Vecs<IntExpr>],
        bit_width: u32,
    ) -> Vecs<IntExpr> {
        let a = &operands[0];
        let fresh = context.next_fresh;
        let ghost ops = grids(operands@);
        assert(ops[0] == a@);
        let vecs = build_grid(
            COLS,
            (|i: usize, j: usize| -> (r: IntExpr)
                requires
                    i < ROWS,
                    j < COLS,
                    a@ == ops[0],
                    a@.well_shaped(),
                ensures
                    r == square_cell(ops, fresh, i as int, j as int),
                {
                    IntExpr::mul(a.cell(i, j), a.cell(i, j))
                }),
            Ghost(|i: int, j: int| square_cell(ops, fresh, i, j)),
        );
        let dims = (a.dim0(), a.dim1());
        Vecs { dims, vecs }
    }
}

/// The cell at `(i, j)` of the result of `TfCast`.
pub open spec fn cast_cell(ops: Seq<Grid<IntExpr>>, fresh: u64, i: int, j: int) -> IntExpr {
    ops[0].at(i, j)
}

/// The operand itself (every value is an integer).
#[derive(Debug)]
pub struct TfCast;

impl Component for TfCast {
    open spec fn spec_operand_arity(&self) -> nat {
        1
    }

    open spec fn spec_operator(&self, ids: Seq<Id>) -> Operator {
        Operator::TfCast(ids[0])
    }

    open spec fn spec_expression(&self, ops: Seq<Grid<IntExpr>>, fresh: u64) -> Grid<IntExpr> {
        Grid {
            dims: ops[0].dims,
            cells: table(COLS as nat, |i: int, j: int| cast_cell(ops, fresh, i, j)),
        }
    }

    open spec fn spec_fresh_count(&self) -> nat {
        0
    }

    open spec fn is_operation(&self) -> bool {
        true
    }

    fn operand_arity(&self) -> usize {
        1
    }

    fn make_operator(&self, _immediates: &Vec<Vecs<i64>>, operands: &[Id]) -> Operator {
        Operator::TfCast(operands[0])
    }

    fn make_expression(
        &self,
        context: &mut ExprContext,
        _immediates: &[Vecs<IntExpr>],
        operands: &[Vecs<IntExpr>],
        bit_width: u32,
    ) -> Vecs<IntExpr> {
        let a = &operands[0];
        let fresh = context.next_fresh;
        let ghost ops = grids(operands@);
        assert(ops[0] == a@);
        let vecs = build_grid(
            COLS,
            (|i: usize, j: usize| -> (r: IntExpr)
                requires
                    i < ROWS,
                    j < COLS,
                    a@ == ops[0],
                    a@.well_shaped(),
                ensures
                    r == cast_cell(ops, fresh, i as int, j as int),
                {
                    a.cell(i, j)
                }),
            Ghost(|i: int, j: int| cast_cell(ops, fresh, i, j)),
        );
        let dims = (a.dim0(), a.dim1());
        Vecs { dims, vecs }
    }
}

/// The cell at `(i, j)` of the result of `TfConstant`.
pub open spec fn constant_cell(ops: Seq<Grid<IntExpr>>, fresh: u64, i: int, j: int) -> IntExpr {
    ops[0].at(i, j)
}

/// The operand itself, used as a constant.
#[derive(Debug)]
pub struct TfConstant;

impl Component for TfConstant {
    open spec fn spec_operand_arity(&self) -> nat {
        1
    }

    open spec fn spec_operator(&self, ids: Seq<Id>) -> Operator {
        Operator::TfConstant(ids[0])
    }

    open spec fn spec_expression(&self, ops: Seq<Grid<IntExpr>>, fresh: u64) -> Grid<IntExpr> {
        Grid {
            dims: ops[0].dims,
            cells: table(COLS as nat, |i: int, j: int| constant_cell(ops, fresh, i, j)),
        }
    }

    open spec fn spec_fresh_count(&self) -> nat {
        0
    }

    open spec fn is_operation(&self) -> bool {
        true
    }

    fn operand_arity(&self) -> usize {
        1
    }

    fn make_operator(&self, _immediates: &Vec<Vecs<i64>>, operands: &[Id]) -> Operator {
        Operator::TfConstant(operands[0])
    }

    fn make_expression(
        &self,
        context: &mut ExprContext,
        _immediates: &[Vecs<IntExpr>],
        operands: &[Vecs<IntExpr>],
        bit_width: u32,
    ) -> Vecs<IntExpr> {
        let a = &operands[0];
        let fresh = context.next_fresh;
        let ghost ops = grids(operands@);
        assert(ops[0] == a@);
        let vecs = build_grid(
            COLS,
            (|i: usize, j: usize| -> (r: IntExpr)
                requires
                    i < ROWS,
                    j < COLS,
                    a@ == ops[0],
                    a@.well_shaped(),
                ensures
                    r == constant_cell(ops, fresh, i as int, j as int),
                {
                    a.cell(i, j)
                }),
            Ghost(|i: int, j: int| constant_cell(ops, fresh, i, j)),
        );
        let dims = (a.dim0(), a.dim1());
        Vecs { dims, vecs }
    }
}

/// The cell at `(i, j)` of the result of `TfDivide`.
pub open spec fn divide_cell(ops: Seq<Grid<IntExpr>>, fresh: u64, i: int, j: int) -> IntExpr {
    e_ite(in_bounds(ops[0], i, j), e_div(ops[0].at(i, j), e_ite(b_eq(ops[1].at(i, j), zero()), one(), ops[1].at(i, j))), zero())
}

/// `a / b` inside the dimensions of `a` (a zero divisor counts as 1), 0 outside.
#[derive(Debug)]
pub struct TfDivide;

impl Component for TfDivide {
    open spec fn spec_operand_arity(&self) -> nat {
        2
    }

    open spec fn spec_operator(&self, ids: Seq<Id>) -> Operator {
        Operator::TfDivide(ids[0], ids[1])
    }

    open spec fn spec_expression(&self, ops: Seq<Grid<IntExpr>>, fresh: u64) -> Grid<IntExpr> {
        Grid {
            dims: ops[0].dims,
            cells: table(COLS as nat, |i: int, j: int| divide_cell(ops, fresh, i, j)),
        }
    }

    open spec fn spec_fresh_count(&self) -> nat {
        0
    }

    open spec fn is_operation(&self) -> bool {
        true
    }

    fn operand_arity(&self) -> usize {
        2
    }

    fn make_operator(&self, _immediates: &Vec<Vecs<i64>>, operands: &[Id]) -> Operator {
        Operator::TfDivide(operands[0], operands[1])
    }

    fn make_expression(
        &self,
        context: &mut ExprContext,
        _immediates: &[Vecs<IntExpr>],
        operands: &[Vecs<IntExpr>],
        bit_width: u32,
    ) -> Vecs<IntExpr> {
        let a = &operands[0];
        let b = &operands[1];
        let fresh = context.next_fresh;
        let ghost ops = grids(operands@);
        assert(ops[0] == a@ && ops[1] == b@);
        let vecs = build_grid(
            COLS,
            (|i: usize, j: usize| -> (r: IntExpr)
                requires
                    i < ROWS,
                    j < COLS,
                    a@ == ops[0],
                    a@.well_shaped(),
                    b@ == ops[1],
                    b@.well_shaped(),
                ensures
                    r == divide_cell(ops, fresh, i as int, j as int),
                {
                    let y = b.cell(i, j);
                    let denom = IntExpr::ite(BoolExpr::eq(y.dup(), zero_expr(bit_width)), one_expr(bit_width), y);
                    IntExpr::ite(in_bounds_expr(a, i, j), IntExpr::div(a.cell(i, j), denom), zero_expr(bit_width))
                }),
            Ghost(|i: int, j: int| divide_cell(ops, fresh, i, j)),
        );
        let dims = (a.dim0(), a.dim1());
        Vecs { dims, vecs }
    }
}

/// The cell at `(i, j)` of the result of `TfEqual`.
pub open spec fn equal_cell(ops: Seq<Grid<IntExpr>>, fresh: u64, i: int, j: int) -> IntExpr {
    e_ite(and3(b_lt(e_const(i), ops[0].dims.0), b_lt(e_const(j), ops[0].dims.1), b_eq(ops[0].at(i, j), ops[1].at(i, j))), one(), zero())
}

/// 1 where `a == b` inside the dimensions of `a`, else 0.
#[derive(Debug)]
pub struct TfEqual;

impl Component for TfEqual {
    open spec fn spec_operand_arity(&self) -> nat {
        2
    }

    open spec fn spec_operator(&self, ids: Seq<Id>) -> Operator {
        Operator::TfEqual(ids[0], ids[1])
    }

    open spec fn spec_expression(&self, ops: Seq<Grid<IntExpr>>, fresh: u64) -> Grid<IntExpr> {
        Grid {
            dims: ops[0].dims,
            cells: table(COLS as nat, |i: int, j: int| equal_cell(ops, fresh, i, j)),
        }
    }

    open spec fn spec_fresh_count(&self) -> nat {
        0
    }

    open spec fn is_operation(&self) -> bool {
        true
    }

    fn operand_arity(&self) -> usize {
        2
    }

    fn make_operator(&self, _immediates: &Vec<Vecs<i64>>, operands: &[Id]) -> Operator {
        Operator::TfEqual(operands[0], operands[1])
    }

    fn make_expression(
        &self,
        context: &mut ExprContext,
        _immediates: &[Vecs<IntExpr>],
        operands: &[Vecs<IntExpr>],
        bit_width: u32,
    ) -> Vecs<IntExpr> {
        let a = &operands[0];
        let b = &operands[1];
        let fresh = context.next_fresh;
        let ghost ops = grids(operands@);
        assert(ops[0] == a@ && ops[1] == b@);
        let vecs = build_grid(
            COLS,
            (|i: usize, j: usize| -> (r: IntExpr)
                requires
                    i < ROWS,
                    j < COLS,
                    a@ == ops[0],
                    a@.well_shaped(),
                    b@ == ops[1],
                    b@.well_shaped(),
                ensures
                    r == equal_cell(ops, fresh, i as int, j as int),
                {
                    let cond = and3_expr(
                        BoolExpr::lt(IntExpr::index(i), a.dim0()),
                        BoolExpr::lt(IntExpr::index(j), a.dim1()),
                        BoolExpr::eq(a.cell(i, j), b.cell(i, j)),
                    );
                    IntExpr::ite(cond, one_expr(bit_width), zero_expr(bit_width))
                }),
            Ghost(|i: int, j: int| equal_cell(ops, fresh, i, j)),
        );
        let dims = (a.dim0(), a.dim1());
        Vecs { dims, vecs }
    }
}

/// The cell at `(i, j)` of the result of `TfGreater`.
pub open spec fn greater_cell(ops: Seq<Grid<IntExpr>>, fresh: u64, i: int, j: int) -> IntExpr {
    e_ite(and3(b_lt(e_const(i), ops[0].dims.0), b_lt(e_const(j), ops[0].dims.1), b_gt(ops[0].at(i, j), ops[1].at(i, j))), one(), zero())
}

/// 1 where `a > b` inside the dimensions of `a`, else 0.
#[derive(Debug)]
pub struct TfGreater;

impl Component for TfGreater {
    open spec fn spec_operand_arity(&self) -> nat {
        2
    }

    open spec fn spec_operator(&self, ids: Seq<Id>) -> Operator {
        Operator::TfGreater(ids[0], ids[1])
    }

    open spec fn spec_expression(&self, ops: Seq<Grid<IntExpr>>, fresh: u64) -> Grid<IntExpr> {
        Grid {
            dims: ops[0].dims,
            cells: table(COLS as nat, |i: int, j: int| greater_cell(ops, fresh, i, j)),
        }
    }

    open spec fn spec_fresh_count(&self) -> nat {
        0
    }

    open spec fn is_operation(&self) -> bool {
        true
    }

    fn operand_arity(&self) -> usize {
        2
    }

    fn make_operator(&self, _immediates: &Vec<Vecs<i64>>, operands: &[Id]) -> Operator {
        Operator::TfGreater(operands[0], operands[1])
    }

    fn make_expression(
        &self,
        context: &mut ExprContext,
        _immediates: &[Vecs<IntExpr>],
        operands: &[Vecs<IntExpr>],
        bit_width: u32,
    ) -> Vecs<IntExpr> {
        let a = &operands[0];
        let b = &operands[1];
        let fresh = context.next_fresh;
        let ghost ops = grids(operands@);
        assert(ops[0] == a@ && ops[1] == b@);
        let vecs = build_grid(
            COLS,
            (|i: usize, j: usize| -> (r: IntExpr)
                requires
                    i < ROWS,
                    j < COLS,
                    a@ == ops[0],
                    a@.well_shaped(),
                    b@ == ops[1],
                    b@.well_shaped(),
                ensures
                    r == greater_cell(ops, fresh, i as int, j as int),
                {
                    let cond = and3_expr(
                        BoolExpr::lt(IntExpr::index(i), a.dim0()),
                        BoolExpr::lt(IntExpr::index(j), a.dim1()),
                        BoolExpr::gt(a.cell(i, j), b.cell(i, j)),
                    );
                    IntExpr::ite(cond, one_expr(bit_width), zero_expr(bit_width))
                }),
            Ghost(|i: int, j: int| greater_cell(ops, fresh, i, j)),
        );
        let dims = (a.dim0(), a.dim1());
        Vecs { dims, vecs }
    }
}

/// The cell at `(i, j)` of the result of `TfNotEqual`.
pub open spec fn not_equal_cell(ops: Seq<Grid<IntExpr>>, fresh: u64, i: int, j: int) -> IntExpr {
    e_ite(in_bounds(ops[0], i, j), e_ite(b_eq(ops[0].at(i, j), ops[1].at(i, j)), zero(), one()), zero())
}

/// 1 where `a != b` inside the dimensions of `a`, else 0.
#[derive(Debug)]
pub struct TfNotEqual;

impl Component for TfNotEqual {
    open spec fn spec_operand_arity(&self) -> nat {
        2
    }

    open spec fn spec_operator(&self, ids: Seq<Id>) -> Operator {
        Operator::TfNotEqual(ids[0], ids[1])
    }

    open spec fn spec_expression(&self, ops: Seq<Grid<IntExpr>>, fresh: u64) -> Grid<IntExpr> {
        Grid {
            dims: ops[0].dims,
            cells: table(COLS as nat, |i: int, j: int| not_equal_cell(ops, fresh, i, j)),
        }
    }

    open spec fn spec_fresh_count(&self) -> nat {
        0
    }

    open spec fn is_operation(&self) -> bool {
        true
    }

    fn operand_arity(&self) -> usize {
        2
    }

    fn make_operator(&self, _immediates: &Vec<Vecs<i64>>, operands: &[Id]) -> Operator {
        Operator::TfNotEqual(operands[0], operands[1])
    }

    fn make_expression(
        &self,
        context: &mut ExprContext,
        _immediates: &[Vecs<IntExpr>],
        operands: &[Vecs<IntExpr>],
        bit_width: u32,
    ) -> Vecs<IntExpr> {
        let a = &operands[0];
        let b = &operands[1];
        let fresh = context.next_fresh;
        let ghost ops = grids(operands@);
        assert(ops[0] == a@ && ops[1] == b@);
        let vecs = build_grid(
            COLS,
            (|i: usize, j: usize| -> (r: IntExpr)
                requires
                    i < ROWS,
                    j < COLS,
                    a@ == ops[0],
                    a@.well_shaped(),
                    b@ == ops[1],
                    b@.well_shaped(),
                ensures
                    r == not_equal_cell(ops, fresh, i as int, j as int),
                {
                    let v = IntExpr::ite(BoolExpr::eq(a.cell(i, j), b.cell(i, j)), zero_expr(bit_width), one_expr(bit_width));
                    IntExpr::ite(in_bounds_expr(a, i, j), v, zero_expr(bit_width))
                }),
            Ghost(|i: int, j: int| not_equal_cell(ops, fresh, i, j)),
        );
        let dims = (a.dim0(), a.dim1());
        Vecs { dims, vecs }
    }
}

/// The cell at `(i, j)` of the result of `TfMaximum`.
pub open spec fn maximum_cell(ops: Seq<Grid<IntExpr>>, fresh: u64, i: int, j: int) -> IntExpr {
    e_ite(in_bounds(ops[0], i, j), e_ite(b_gt(ops[0].at(i, j), ops[1].at(i, j)), ops[0].at(i, j), ops[1].at(i, j)), zero())
}

/// The larger of `a` and `b` inside the dimensions of `a`, 0 outside.
#[derive(Debug)]
pub struct TfMaximum;

impl Component for TfMaximum {
    open spec fn spec_operand_arity(&self) -> nat {
        2
    }

    open spec fn spec_operator(&self, ids: Seq<Id>) -> Operator {
        Operator::TfMaximum(ids[0], ids[1])
    }

    open spec fn spec_expression(&self, ops: Seq<Grid<IntExpr>>, fresh: u64) -> Grid<IntExpr> {
        Grid {
            dims: ops[0].dims,
            cells: table(COLS as nat, |i: int, j: int| maximum_cell(ops, fresh, i, j)),
        }
    }

    open spec fn spec_fresh_count(&self) -> nat {
        0
    }

    open spec fn is_operation(&self) -> bool {
        true
    }

    fn operand_arity(&self) -> usize {
        2
    }

    fn make_operator(&self, _immediates: &Vec<Vecs<i64>>, operands: &[Id]) -> Operator {
        Operator::TfMaximum(operands[0], operands[1])
    }

    fn make_expression(
        &self,
        context: &mut ExprContext,
        _immediates: &[Vecs<IntExpr>],
        operands: &[Vecs<IntExpr>],
        bit_width: u32,
    ) -> Vecs<IntExpr> {
        let a = &operands[0];
        let b = &operands[1];
        let fresh = context.next_fresh;
        let ghost ops = grids(operands@);
        assert(ops[0] == a@ && ops[1] == b@);
        let vecs = build_grid(
            COLS,
            (|i: usize, j: usize| -> (r: IntExpr)
                requires
                    i < ROWS,
                    j < COLS,
                    a@ == ops[0],
                    a@.well_shaped(),
                    b@ == ops[1],
                    b@.well_shaped(),
                ensures
                    r == maximum_cell(ops, fresh, i as int, j as int),
                {
                    let v = IntExpr::ite(BoolExpr::gt(a.cell(i, j), b.cell(i, j)), a.cell(i, j), b.cell(i, j));
                    IntExpr::ite(in_bounds_expr(a, i, j), v, zero_expr(bit_width))
                }),
            Ghost(|i: int, j: int| maximum_cell(ops, fresh, i, j)),
        );
        let dims = (a.dim0(), a.dim1());
        Vecs { dims, vecs }
    }
}

/// The cell at `(i, j)` of the result of `TfMinimum`.
pub open spec fn minimum_cell(ops: Seq<Grid<IntExpr>>, fresh: u64, i: int, j: int) -> IntExpr {
    e_ite(in_bounds(ops[0], i, j), e_ite(b_lt(ops[0].at(i, j), ops[1].at(i, j)), ops[0].at(i, j), ops[1].at(i, j)), zero())
}

/// The smaller of `a` and `b` inside the dimensions of `a`, 0 outside.
#[derive(Debug)]
pub struct TfMinimum;

impl Component for TfMinimum {
    open spec fn spec_operand_arity(&self) -> nat {
        2
    }

    open spec fn spec_operator(&self, ids: Seq<Id>) -> Operator {
        Operator::TfMinimum(ids[0], ids[1])
    }

    open spec fn spec_expression(&self, ops: Seq<Grid<IntExpr>>, fresh: u64) -> Grid<IntExpr> {
        Grid {
            dims: ops[0].dims,
            cells: table(COLS as nat, |i: int, j: int| minimum_cell(ops, fresh, i, j)),
        }
    }

    open spec fn spec_fresh_count(&self) -> nat {
        0
    }

    open spec fn is_operation(&self) -> bool {
        true
    }

    fn operand_arity(&self) -> usize {
        2
    }

    fn make_operator(&self, _immediates: &Vec<Vecs<i64>>, operands: &[Id]) -> Operator {
        Operator::TfMinimum(operands[0], operands[1])
    }

    fn make_expression(
        &self,
        context: &mut ExprContext,
        _immediates: &[Vecs<IntExpr>],
        operands: &[Vecs<IntExpr>],
        bit_width: u32,
    ) -> Vecs<IntExpr> {
        let a = &operands[0];
        let b = &operands[1];
        let fresh = context.next_fresh;
        let ghost ops = grids(operands@);
        assert(ops[0] == a@ && ops[1] == b@);
        let vecs = build_grid(
            COLS,
            (|i: usize, j: usize| -> (r: IntExpr)
                requires
                    i < ROWS,
                    j < COLS,
                    a@ == ops[0],
                    a@.well_shaped(),
                    b@ == ops[1],
                    b@.well_shaped(),
                ensures
                    r == minimum_cell(ops, fresh, i as int, j as int),
                {
                    let v = IntExpr::ite(BoolExpr::lt(a.cell(i, j), b.cell(i, j)), a.cell(i, j), b.cell(i, j));
                    IntExpr::ite(in_bounds_expr(a, i, j), v, zero_expr(bit_width))
                }),
            Ghost(|i: int, j: int| minimum_cell(ops, fresh, i, j)),
        );
        let dims = (a.dim0(), a.dim1());
        Vecs { dims, vecs }
    }
}

/// The cell at `(i, j)` of the result of `TfWhere3`.
pub open spec fn where3_cell(ops: Seq<Grid<IntExpr>>, fresh: u64, i: int, j: int) -> IntExpr {
    e_ite(b_eq(ops[0].at(i, j), zero()), ops[2].at(i, j), ops[1].at(i, j))
}

/// `b` where `a` is not 0, `c` where it is, cell by cell.
#[derive(Debug)]
pub struct TfWhere3;

impl Component for TfWhere3 {
    open spec fn spec_operand_arity(&self) -> nat {
        3
    }

    open spec fn spec_operator(&self, ids: Seq<Id>) -> Operator {
        Operator::TfWhere3(ids[0], ids[1], ids[2])
    }

    open spec fn spec_expression(&self, ops: Seq<Grid<IntExpr>>, fresh: u64) -> Grid<IntExpr> {
        Grid {
            dims: ops[0].dims,
            cells: table(COLS as nat, |i: int, j: int| where3_cell(ops, fresh, i, j)),
        }
    }

    open spec fn spec_fresh_count(&self) -> nat {
        0
    }

    open spec fn is_operation(&self) -> bool {
        true
    }

    fn operand_arity(&self) -> usize {
        3
    }

    fn make_operator(&self, _immediates: &Vec<Vecs<i64>>, operands: &[Id]) -> Operator {
        Operator::TfWhere3(operands[0], operands[1], operands[2])
    }

    fn make_expression(
        &self,
        context: &mut ExprContext,
        _immediates: &[Vecs<IntExpr>],
        operands: &[Vecs<IntExpr>],
        bit_width: u32,
    ) -> Vecs<IntExpr> {
        let a = &operands[0];
        let b = &operands[1];
        let c = &operands[2];
        let fresh = context.next_fresh;
        let ghost ops = grids(operands@);
        assert(ops[0] == a@ && ops[1] == b@ && ops[2] == c@);
        let vecs = build_grid(
            COLS,
            (|i: usize, j: usize| -> (r: IntExpr)
                requires
                    i < ROWS,
                    j < COLS,
                    a@ == ops[0],
                    a@.well_shaped(),
                    b@ == ops[1],
                    b@.well_shaped(),
                    c@ == ops[2],
                    c@.well_shaped(),
                ensures
                    r == where3_cell(ops, fresh, i as int, j as int),
                {
                    IntExpr::ite(BoolExpr::eq(a.cell(i, j), zero_expr(bit_width)), c.cell(i, j), b.cell(i, j))
                }),
            Ghost(|i: int, j: int| where3_cell(ops, fresh, i, j)),
        );
        let dims = (a.dim0(), a.dim1());
        Vecs { dims, vecs }
    }
}

/// The cell at `(i, j)` of the result of `TfZeros`.
pub open spec fn zeros_cell(ops: Seq<Grid<IntExpr>>, fresh: u64, i: int, j: int) -> IntExpr {
    zero()
}

/// 0 in every cell of an `a[0][0]` x `a[0][1]` tensor: the operand gives the shape.
#[derive(Debug)]
pub struct TfZeros;

impl Component for TfZeros {
    open spec fn spec_operand_arity(&self) -> nat {
        1
    }

    open spec fn spec_operator(&self, ids: Seq<Id>) -> Operator {
        Operator::TfZeros(ids[0])
    }

    open spec fn spec_expression(&self, ops: Seq<Grid<IntExpr>>, fresh: u64) -> Grid<IntExpr> {
        Grid {
            dims: (ops[0].at(0, 0), ops[0].at(0, 1)),
            cells: table(COLS as nat, |i: int, j: int| zeros_cell(ops, fresh, i, j)),
        }
    }

    open spec fn spec_fresh_count(&self) -> nat {
        0
    }

    open spec fn is_operation(&self) -> bool {
        true
    }

    fn operand_arity(&self) -> usize {
        1
    }

    fn make_operator(&self, _immediates: &Vec<Vecs<i64>>, operands: &[Id]) -> Operator {
        Operator::TfZeros(operands[0])
    }

    fn make_expression(
        &self,
        context: &mut ExprContext,
        _immediates: &[Vecs<IntExpr>],
        operands: &[Vecs<IntExpr>],
        bit_width: u32,
    ) -> Vecs<IntExpr> {
        let a = &operands[0];
        let fresh = context.next_fresh;
        let ghost ops = grids(operands@);
        assert(ops[0] == a@);
        let vecs = build_grid(
            COLS,
            (|i: usize, j: usize| -> (r: IntExpr)
                requires
                    i < ROWS,
                    j < COLS,
                    a@ == ops[0],
                    a@.well_shaped(),
                ensures
                    r == zeros_cell(ops, fresh, i as int, j as int),
                {
                    zero_expr(bit_width)
                }),
            Ghost(|i: int, j: int| zeros_cell(ops, fresh, i, j)),
        );
        let dims = (a.cell(0, 0), a.cell(0, 1));
        Vecs { dims, vecs }
    }
}

} // verus!
