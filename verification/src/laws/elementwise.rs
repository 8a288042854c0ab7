//! What the encodings of the cell-by-cell components mean.

use vstd::prelude::*;

use crate::component::Component;
use crate::components::elementwise::{
    TfAdd, TfCast, TfConstant, TfDivide, TfEqual, TfGreater, TfMaximum, TfMinimum, TfMultiply,
    TfNotEqual, TfSquare, TfSubtract, TfZeros,
};
use crate::expr::{eval_int, IntExpr};
use crate::laws::{inside, value};
use crate::{Grid, COLS, ROWS};

verus! {

broadcast use crate::expr::group_eval;

/// Addition: each cell's value is the sum of the operands' values.
/// The result has the dimensions of the first operand.
pub proof fn law_add_adds(
    ops: Seq<Grid<IntExpr>>,
    fresh: u64,
    i: int,
    j: int,
    vars: spec_fn(u64) -> int,
    arrs: spec_fn(u64, int) -> int,
    tabs: spec_fn(u64, int, int) -> int,
)
    requires
        ops.len() >= 2,
        0 <= i < ROWS,
        0 <= j < COLS,
    ensures
        eval_int(TfAdd.spec_expression(ops, fresh).at(i, j), vars, arrs, tabs) == value(ops[0], i, j, vars, arrs, tabs) + value(ops[1], i, j, vars, arrs, tabs),
        TfAdd.spec_expression(ops, fresh).dims == ops[0].dims,
{
}

/// Subtraction: each cell's value is the difference of the operands' values.
/// The result has the dimensions of the first operand.
pub proof fn law_subtract_subtracts(
    ops: Seq<Grid<IntExpr>>,
    fresh: u64,
    i: int,
    j: int,
    vars: spec_fn(u64) -> int,
    arrs: spec_fn(u64, int) -> int,
    tabs: spec_fn(u64, int, int) -> int,
)
    requires
        ops.len() >= 2,
        0 <= i < ROWS,
        0 <= j < COLS,
    ensures
        eval_int(TfSubtract.spec_expression(ops, fresh).at(i, j), vars, arrs, tabs) == value(ops[0], i, j, vars, arrs, tabs) - value(ops[1], i, j, vars, arrs, tabs),
        TfSubtract.spec_expression(ops, fresh).dims == ops[0].dims,
{
}

/// Multiplication: each cell's value is the product of the operands' values.
/// The result has the dimensions of the first operand.
pub proof fn law_multiply_multiplies(
    ops: Seq<Grid<IntExpr>>,
    fresh: u64,
    i: int,
    j: int,
    vars: spec_fn(u64) -> int,
    arrs: spec_fn(u64, int) -> int,
    tabs: spec_fn(u64, int, int) -> int,
)
    requires
        ops.len() >= 2,
        0 <= i < ROWS,
        0 <= j < COLS,
    ensures
        eval_int(TfMultiply.spec_expression(ops, fresh).at(i, j), vars, arrs, tabs) == value(ops[0], i, j, vars, arrs, tabs) * value(ops[1], i, j, vars, arrs, tabs),
        TfMultiply.spec_expression(ops, fresh).dims == ops[0].dims,
{
}

/// Squaring: each cell's value is the square of the operand's value.
/// The result has the dimensions of the first operand.
pub proof fn law_square_squares(
    ops: Seq<Grid<IntExpr>>,
    fresh: u64,
    i: int,
    j: int,
    vars: spec_fn(u64) -> int,
    arrs: spec_fn(u64, int) -> int,
    tabs: spec_fn(u64, int, int) -> int,
)
    requires
        ops.len() >= 1,
        0 <= i < ROWS,
        0 <= j < COLS,
    ensures
        eval_int(TfSquare.spec_expression(ops, fresh).at(i, j), vars, arrs, tabs) == value(ops[0], i, j, vars, arrs, tabs) * value(ops[0], i, j, vars, arrs, tabs),
        TfSquare.spec_expression(ops, fresh).dims == ops[0].dims,
{
}

/// Casting: each cell keeps the operand's value.
/// The result has the dimensions of the first operand.
pub proof fn law_cast_keeps_values(
    ops: Seq<Grid<IntExpr>>,
    fresh: u64,
    i: int,
    j: int,
    vars: spec_fn(u64) -> int,
    arrs: spec_fn(u64, int) -> int,
    tabs: spec_fn(u64, int, int) -> int,
)
    requires
        ops.len() >= 1,
        0 <= i < ROWS,
        0 <= j < COLS,
    ensures
        eval_int(TfCast.spec_expression(ops, fresh).at(i, j), vars, arrs, tabs) == value(ops[0], i, j, vars, arrs, tabs),
        TfCast.spec_expression(ops, fresh).dims == ops[0].dims,
{
}

/// A constant: each cell keeps the operand's value.
/// The result has the dimensions of the first operand.
pub proof fn law_constant_keeps_values(
    ops: Seq<Grid<IntExpr>>,
    fresh: u64,
    i: int,
    j: int,
    vars: spec_fn(u64) -> int,
    arrs: spec_fn(u64, int) -> int,
    tabs: spec_fn(u64, int, int) -> int,
)
    requires
        ops.len() >= 1,
        0 <= i < ROWS,
        0 <= j < COLS,
    ensures
        eval_int(TfConstant.spec_expression(ops, fresh).at(i, j), vars, arrs, tabs) == value(ops[0], i, j, vars, arrs, tabs),
        TfConstant.spec_expression(ops, fresh).dims == ops[0].dims,
{
}

/// Division: inside the dimensions of `a`, a cell's value is the quotient of the operands' values (a divisor of 0 counting as 1); outside, 0.
/// The result has the dimensions of the first operand.
pub proof fn law_divide_divides(
    ops: Seq<Grid<IntExpr>>,
    fresh: u64,
    i: int,
    j: int,
    vars: spec_fn(u64) -> int,
    arrs: spec_fn(u64, int) -> int,
    tabs: spec_fn(u64, int, int) -> int,
)
    requires
        ops.len() >= 2,
        0 <= i < ROWS,
        0 <= j < COLS,
    ensures
        eval_int(TfDivide.spec_expression(ops, fresh).at(i, j), vars, arrs, tabs) == if inside(ops[0], i, j, vars, arrs, tabs) { value(ops[0], i, j, vars, arrs, tabs) / (if value(ops[1], i, j, vars, arrs, tabs) == 0 { 1int } else { value(ops[1], i, j, vars, arrs, tabs) }) } else { 0int },
        TfDivide.spec_expression(ops, fresh).dims == ops[0].dims,
{
}

/// Equality: 1 where the operands' values are equal inside the dimensions of `a`, else 0.
/// The result has the dimensions of the first operand.
pub proof fn law_equal_compares(
    ops: Seq<Grid<IntExpr>>,
    fresh: u64,
    i: int,
    j: int,
    vars: spec_fn(u64) -> int,
    arrs: spec_fn(u64, int) -> int,
    tabs: spec_fn(u64, int, int) -> int,
)
    requires
        ops.len() >= 2,
        0 <= i < ROWS,
        0 <= j < COLS,
    ensures
        eval_int(TfEqual.spec_expression(ops, fresh).at(i, j), vars, arrs, tabs) == if inside(ops[0], i, j, vars, arrs, tabs) && value(ops[0], i, j, vars, arrs, tabs) == value(ops[1], i, j, vars, arrs, tabs) { 1int } else { 0int },
        TfEqual.spec_expression(ops, fresh).dims == ops[0].dims,
{
}

/// Comparison: 1 where `a`'s value exceeds `b`'s inside the dimensions of `a`, else 0.
/// The result has the dimensions of the first operand.
pub proof fn law_greater_compares(
    ops: Seq<Grid<IntExpr>>,
    fresh: u64,
    i: int,
    j: int,
    vars: spec_fn(u64) -> int,
    arrs: spec_fn(u64, int) -> int,
    tabs: spec_fn(u64, int, int) -> int,
)
    requires
        ops.len() >= 2,
        0 <= i < ROWS,
        0 <= j < COLS,
    ensures
        eval_int(TfGreater.spec_expression(ops, fresh).at(i, j), vars, arrs, tabs) == if inside(ops[0], i, j, vars, arrs, tabs) && value(ops[0], i, j, vars, arrs, tabs) > value(ops[1], i, j, vars, arrs, tabs) { 1int } else { 0int },
        TfGreater.spec_expression(ops, fresh).dims == ops[0].dims,
{
}

/// Inequality: 1 where the operands' values differ inside the dimensions of `a`, else 0.
/// The result has the dimensions of the first operand.
pub proof fn law_not_equal_compares(
    ops: Seq<Grid<IntExpr>>,
    fresh: u64,
    i: int,
    j: int,
    vars: spec_fn(u64) -> int,
    arrs: spec_fn(u64, int) -> int,
    tabs: spec_fn(u64, int, int) -> int,
)
    requires
        ops.len() >= 2,
        0 <= i < ROWS,
        0 <= j < COLS,
    ensures
        eval_int(TfNotEqual.spec_expression(ops, fresh).at(i, j), vars, arrs, tabs) == if inside(ops[0], i, j, vars, arrs, tabs) && value(ops[0], i, j, vars, arrs, tabs) != value(ops[1], i, j, vars, arrs, tabs) { 1int } else { 0int },
        TfNotEqual.spec_expression(ops, fresh).dims == ops[0].dims,
{
}

/// Maximum: inside the dimensions of `a`, the larger of the operands' values; outside, 0.
/// The result has the dimensions of the first operand.
pub proof fn law_maximum_takes_larger(
    ops: Seq<Grid<IntExpr>>,
    fresh: u64,
    i: int,
    j: int,
    vars: spec_fn(u64) -> int,
    arrs: spec_fn(u64, int) -> int,
    tabs: spec_fn(u64, int, int) -> int,
)
    requires
        ops.len() >= 2,
        0 <= i < ROWS,
        0 <= j < COLS,
    ensures
        eval_int(TfMaximum.spec_expression(ops, fresh).at(i, j), vars, arrs, tabs) == if inside(ops[0], i, j, vars, arrs, tabs) { if value(ops[0], i, j, vars, arrs, tabs) > value(ops[1], i, j, vars, arrs, tabs) { value(ops[0], i, j, vars, arrs, tabs) } else { value(ops[1], i, j, vars, arrs, tabs) } } else { 0int },
        TfMaximum.spec_expression(ops, fresh).dims == ops[0].dims,
{
}

/// Minimum: inside the dimensions of `a`, the smaller of the operands' values; outside, 0.
/// The result has the dimensions of the first operand.
pub proof fn law_minimum_takes_smaller(
    ops: Seq<Grid<IntExpr>>,
    fresh: u64,
    i: int,
    j: int,
    vars: spec_fn(u64) -> int,
    arrs: spec_fn(u64, int) -> int,
    tabs: spec_fn(u64, int, int) -> int,
)
    requires
        ops.len() >= 2,
        0 <= i < ROWS,
        0 <= j < COLS,
    ensures
        eval_int(TfMinimum.spec_expression(ops, fresh).at(i, j), vars, arrs, tabs) == if inside(ops[0], i, j, vars, arrs, tabs) { if value(ops[0], i, j, vars, arrs, tabs) < value(ops[1], i, j, vars, arrs, tabs) { value(ops[0], i, j, vars, arrs, tabs) } else { value(ops[1], i, j, vars, arrs, tabs) } } else { 0int },
        TfMinimum.spec_expression(ops, fresh).dims == ops[0].dims,
{
}

/// Zeros: every cell's value is 0.
/// The result's dimensions are the first two cells of the operand's row 0, the shape it gives.
pub proof fn law_zeros_is_zero(
    ops: Seq<Grid<IntExpr>>,
    fresh: u64,
    i: int,
    j: int,
    vars: spec_fn(u64) -> int,
    arrs: spec_fn(u64, int) -> int,
    tabs: spec_fn(u64, int, int) -> int,
)
    requires
        ops.len() >= 1,
        0 <= i < ROWS,
        0 <= j < COLS,
    ensures
        eval_int(TfZeros.spec_expression(ops, fresh).at(i, j), vars, arrs, tabs) == 0int,
        TfZeros.spec_expression(ops, fresh).dims == (ops[0].at(0, 0), ops[0].at(0, 1)),
{
}

} // verus!
