//! Symbolic integer, boolean and array expressions, the terms that the
//! components build, and their meaning under a valuation.

use std::rc::Rc;
use vstd::prelude::*;

use crate::{Grid, Vecs, COLS, ROWS};

verus! {

/// An integer-valued term.
#[derive(Debug)]
pub enum IntExpr {
    /// A literal.
    Const(i64),
    /// A free integer variable, named by a number.
    Var(u64),
    Add(Rc<IntExpr>, Rc<IntExpr>),
    Sub(Rc<IntExpr>, Rc<IntExpr>),
    Mul(Rc<IntExpr>, Rc<IntExpr>),
    /// Integer division in the solver's sense (floor for a positive divisor).
    Div(Rc<IntExpr>, Rc<IntExpr>),
    /// `if c then t else e`.
    Ite(Rc<BoolExpr>, Rc<IntExpr>, Rc<IntExpr>),
    /// The value of an integer array at an index.
    Select(Rc<ArrayExpr>, Rc<IntExpr>),
}

/// A boolean-valued term.
#[derive(Debug)]
pub enum BoolExpr {
    Lit(bool),
    Eq(Rc<IntExpr>, Rc<IntExpr>),
    Lt(Rc<IntExpr>, Rc<IntExpr>),
    Gt(Rc<IntExpr>, Rc<IntExpr>),
    And(Rc<BoolExpr>, Rc<BoolExpr>),
    Or(Rc<BoolExpr>, Rc<BoolExpr>),
    Ite(Rc<BoolExpr>, Rc<BoolExpr>, Rc<BoolExpr>),
}

/// An array from integers to integers.
#[derive(Debug)]
pub enum ArrayExpr {
    /// An unconstrained array, named by a number.
    Fresh(u64),
    /// The array with one index overwritten.
    Store(Rc<ArrayExpr>, Rc<IntExpr>, Rc<IntExpr>),
    /// The row of a table at an index.
    Row(Rc<TableExpr>, Rc<IntExpr>),
}

/// An array from integers to integer arrays.
#[derive(Debug)]
pub enum TableExpr {
    /// An unconstrained table, named by a number.
    Fresh(u64),
    /// The table with one row overwritten.
    Store(Rc<TableExpr>, Rc<IntExpr>, Rc<ArrayExpr>),
}

/// The source of names for the unconstrained arrays that components create.
#[derive(Debug)]
pub struct ExprContext {
    pub next_fresh: u64,
}

impl ExprContext {
    /// A context that has named nothing yet.
    pub fn new() -> (c: ExprContext)
        ensures
            c.next_fresh == 0,
    {
        ExprContext { next_fresh: 0 }
    }
}

// ---------------------------------------------------------------------------
// Term constructors as spec functions
// ---------------------------------------------------------------------------

pub open spec fn e_const(n: int) -> IntExpr {
    IntExpr::Const(n as i64)
}

pub open spec fn e_add(a: IntExpr, b: IntExpr) -> IntExpr {
    IntExpr::Add(Rc::new(a), Rc::new(b))
}

pub open spec fn e_sub(a: IntExpr, b: IntExpr) -> IntExpr {
    IntExpr::Sub(Rc::new(a), Rc::new(b))
}

pub open spec fn e_mul(a: IntExpr, b: IntExpr) -> IntExpr {
    IntExpr::Mul(Rc::new(a), Rc::new(b))
}

pub open spec fn e_div(a: IntExpr, b: IntExpr) -> IntExpr {
    IntExpr::Div(Rc::new(a), Rc::new(b))
}

pub open spec fn e_ite(c: BoolExpr, t: IntExpr, e: IntExpr) -> IntExpr {
    IntExpr::Ite(Rc::new(c), Rc::new(t), Rc::new(e))
}

pub open spec fn e_select(a: ArrayExpr, i: IntExpr) -> IntExpr {
    IntExpr::Select(Rc::new(a), Rc::new(i))
}

pub open spec fn b_eq(a: IntExpr, b: IntExpr) -> BoolExpr {
    BoolExpr::Eq(Rc::new(a), Rc::new(b))
}

pub open spec fn b_lt(a: IntExpr, b: IntExpr) -> BoolExpr {
    BoolExpr::Lt(Rc::new(a), Rc::new(b))
}

pub open spec fn b_gt(a: IntExpr, b: IntExpr) -> BoolExpr {
    BoolExpr::Gt(Rc::new(a), Rc::new(b))
}

pub open spec fn b_and(a: BoolExpr, b: BoolExpr) -> BoolExpr {
    BoolExpr::And(Rc::new(a), Rc::new(b))
}

pub open spec fn b_or(a: BoolExpr, b: BoolExpr) -> BoolExpr {
    BoolExpr::Or(Rc::new(a), Rc::new(b))
}

pub open spec fn b_ite(c: BoolExpr, t: BoolExpr, e: BoolExpr) -> BoolExpr {
    BoolExpr::Ite(Rc::new(c), Rc::new(t), Rc::new(e))
}

pub open spec fn a_store(a: ArrayExpr, i: IntExpr, v: IntExpr) -> ArrayExpr {
    ArrayExpr::Store(Rc::new(a), Rc::new(i), Rc::new(v))
}

pub open spec fn a_row(t: TableExpr, i: IntExpr) -> ArrayExpr {
    ArrayExpr::Row(Rc::new(t), Rc::new(i))
}

pub open spec fn t_store(t: TableExpr, i: IntExpr, a: ArrayExpr) -> TableExpr {
    TableExpr::Store(Rc::new(t), Rc::new(i), Rc::new(a))
}

/// The literal 0.
pub open spec fn zero() -> IntExpr {
    e_const(0)
}

/// The literal 1.
pub open spec fn one() -> IntExpr {
    e_const(1)
}

/// The conjunction of three conditions, grouped to the right.
pub open spec fn and3(p: BoolExpr, q: BoolExpr, r: BoolExpr) -> BoolExpr {
    b_and(p, b_and(q, r))
}

/// `x` capped at `ROWS`: `if x < ROWS then x else ROWS`.
pub open spec fn cap_rows(x: IntExpr) -> IntExpr {
    e_ite(b_lt(x, e_const(ROWS as int)), x, e_const(ROWS as int))
}

/// Whether cell `(i, j)` lies inside the dimensions of `g`.
pub open spec fn in_bounds(g: Grid<IntExpr>, i: int, j: int) -> BoolExpr {
    b_and(b_lt(e_const(i), g.dims.0), b_lt(e_const(j), g.dims.1))
}

/// `ROWS` rows of `ncols` cells, the cell at `(i, j)` being `f(i, j)`.
pub open spec fn table(ncols: nat, f: spec_fn(int, int) -> IntExpr) -> Seq<Seq<IntExpr>> {
    Seq::new(ROWS as nat, |i: int| Seq::new(ncols, |j: int| f(i, j)))
}

// ---------------------------------------------------------------------------
// Meaning of terms
// ---------------------------------------------------------------------------

/// The value of an integer term, given the values of the variables (`vars`),
/// of the fresh arrays (`arrs`, by name and index) and of the fresh tables
/// (`tabs`, by name, row and index).
pub open spec fn eval_int(
    e: IntExpr,
    vars: spec_fn(u64) -> int,
    arrs: spec_fn(u64, int) -> int,
    tabs: spec_fn(u64, int, int) -> int,
) -> int
    decreases e,
{
    match e {
        IntExpr::Const(n) => n as int,
        IntExpr::Var(v) => vars(v),
        IntExpr::Add(a, b) => eval_int(*a, vars, arrs, tabs) + eval_int(*b, vars, arrs, tabs),
        IntExpr::Sub(a, b) => eval_int(*a, vars, arrs, tabs) - eval_int(*b, vars, arrs, tabs),
        IntExpr::Mul(a, b) => eval_int(*a, vars, arrs, tabs) * eval_int(*b, vars, arrs, tabs),
        IntExpr::Div(a, b) => eval_int(*a, vars, arrs, tabs) / eval_int(*b, vars, arrs, tabs),
        IntExpr::Ite(c, t, f) => if eval_bool(*c, vars, arrs, tabs) {
            eval_int(*t, vars, arrs, tabs)
        } else {
            eval_int(*f, vars, arrs, tabs)
        },
        IntExpr::Select(a, i) => eval_select(*a, eval_int(*i, vars, arrs, tabs), vars, arrs, tabs),
    }
}

/// The value of a boolean term.
pub open spec fn eval_bool(
    e: BoolExpr,
    vars: spec_fn(u64) -> int,
    arrs: spec_fn(u64, int) -> int,
    tabs: spec_fn(u64, int, int) -> int,
) -> bool
    decreases e,
{
    match e {
        BoolExpr::Lit(b) => b,
        BoolExpr::Eq(a, b) => eval_int(*a, vars, arrs, tabs) == eval_int(*b, vars, arrs, tabs),
        BoolExpr::Lt(a, b) => eval_int(*a, vars, arrs, tabs) < eval_int(*b, vars, arrs, tabs),
        BoolExpr::Gt(a, b) => eval_int(*a, vars, arrs, tabs) > eval_int(*b, vars, arrs, tabs),
        BoolExpr::And(a, b) => eval_bool(*a, vars, arrs, tabs) && eval_bool(*b, vars, arrs, tabs),
        BoolExpr::Or(a, b) => eval_bool(*a, vars, arrs, tabs) || eval_bool(*b, vars, arrs, tabs),
        BoolExpr::Ite(c, t, f) => if eval_bool(*c, vars, arrs, tabs) {
            eval_bool(*t, vars, arrs, tabs)
        } else {
            eval_bool(*f, vars, arrs, tabs)
        },
    }
}

/// The value of an array term at index `x`.
pub open spec fn eval_select(
    a: ArrayExpr,
    x: int,
    vars: spec_fn(u64) -> int,
    arrs: spec_fn(u64, int) -> int,
    tabs: spec_fn(u64, int, int) -> int,
) -> int
    decreases a,
{
    match a {
        ArrayExpr::Fresh(k) => arrs(k, x),
        ArrayExpr::Store(b, i, v) => if x == eval_int(*i, vars, arrs, tabs) {
            eval_int(*v, vars, arrs, tabs)
        } else {
            eval_select(*b, x, vars, arrs, tabs)
        },
        ArrayExpr::Row(t, i) => eval_row_select(*t, eval_int(*i, vars, arrs, tabs), x, vars, arrs, tabs),
    }
}

/// The value of a table term at row `r`, index `x`.
pub open spec fn eval_row_select(
    t: TableExpr,
    r: int,
    x: int,
    vars: spec_fn(u64) -> int,
    arrs: spec_fn(u64, int) -> int,
    tabs: spec_fn(u64, int, int) -> int,
) -> int
    decreases t,
{
    match t {
        TableExpr::Fresh(k) => tabs(k, r, x),
        TableExpr::Store(b, i, a) => if r == eval_int(*i, vars, arrs, tabs) {
            eval_select(*a, x, vars, arrs, tabs)
        } else {
            eval_row_select(*b, r, x, vars, arrs, tabs)
        },
    }
}

/// A literal within the range of `i64` means itself.
pub broadcast proof fn lemma_eval_const(n: int, vars: spec_fn(u64) -> int, arrs: spec_fn(u64, int) -> int, tabs: spec_fn(u64, int, int) -> int)
    requires
        i64::MIN <= n <= i64::MAX,
    ensures
        #[trigger] eval_int(e_const(n), vars, arrs, tabs) == n,
{
}

/// Meaning of a sum.
pub broadcast proof fn lemma_eval_add(a: IntExpr, b: IntExpr, vars: spec_fn(u64) -> int, arrs: spec_fn(u64, int) -> int, tabs: spec_fn(u64, int, int) -> int)
    ensures
        #[trigger] eval_int(e_add(a, b), vars, arrs, tabs) == eval_int(a, vars, arrs, tabs) + eval_int(b, vars, arrs, tabs),
{
}

/// Meaning of a difference.
pub broadcast proof fn lemma_eval_sub(a: IntExpr, b: IntExpr, vars: spec_fn(u64) -> int, arrs: spec_fn(u64, int) -> int, tabs: spec_fn(u64, int, int) -> int)
    ensures
        #[trigger] eval_int(e_sub(a, b), vars, arrs, tabs) == eval_int(a, vars, arrs, tabs) - eval_int(b, vars, arrs, tabs),
{
}

/// Meaning of a product.
pub broadcast proof fn lemma_eval_mul(a: IntExpr, b: IntExpr, vars: spec_fn(u64) -> int, arrs: spec_fn(u64, int) -> int, tabs: spec_fn(u64, int, int) -> int)
    ensures
        #[trigger] eval_int(e_mul(a, b), vars, arrs, tabs) == eval_int(a, vars, arrs, tabs) * eval_int(b, vars, arrs, tabs),
{
}

/// Meaning of a quotient.
pub broadcast proof fn lemma_eval_div(a: IntExpr, b: IntExpr, vars: spec_fn(u64) -> int, arrs: spec_fn(u64, int) -> int, tabs: spec_fn(u64, int, int) -> int)
    ensures
        #[trigger] eval_int(e_div(a, b), vars, arrs, tabs) == eval_int(a, vars, arrs, tabs) / eval_int(b, vars, arrs, tabs),
{
}

/// Meaning of a choice.
pub broadcast proof fn lemma_eval_ite(c: BoolExpr, t: IntExpr, e: IntExpr, vars: spec_fn(u64) -> int, arrs: spec_fn(u64, int) -> int, tabs: spec_fn(u64, int, int) -> int)
    ensures
        #[trigger] eval_int(e_ite(c, t, e), vars, arrs, tabs) == if eval_bool(c, vars, arrs, tabs) { eval_int(t, vars, arrs, tabs) } else { eval_int(e, vars, arrs, tabs) },
{
}

/// Meaning of a read from an array.
pub broadcast proof fn lemma_eval_select(a: ArrayExpr, i: IntExpr, vars: spec_fn(u64) -> int, arrs: spec_fn(u64, int) -> int, tabs: spec_fn(u64, int, int) -> int)
    ensures
        #[trigger] eval_int(e_select(a, i), vars, arrs, tabs) == eval_select(a, eval_int(i, vars, arrs, tabs), vars, arrs, tabs),
{
}

/// Meaning of an equality.
pub broadcast proof fn lemma_eval_eq(a: IntExpr, b: IntExpr, vars: spec_fn(u64) -> int, arrs: spec_fn(u64, int) -> int, tabs: spec_fn(u64, int, int) -> int)
    ensures
        #[trigger] eval_bool(b_eq(a, b), vars, arrs, tabs) == (eval_int(a, vars, arrs, tabs) == eval_int(b, vars, arrs, tabs)),
{
}

/// Meaning of a comparison.
pub broadcast proof fn lemma_eval_lt(a: IntExpr, b: IntExpr, vars: spec_fn(u64) -> int, arrs: spec_fn(u64, int) -> int, tabs: spec_fn(u64, int, int) -> int)
    ensures
        #[trigger] eval_bool(b_lt(a, b), vars, arrs, tabs) == (eval_int(a, vars, arrs, tabs) < eval_int(b, vars, arrs, tabs)),
{
}

/// Meaning of a comparison.
pub broadcast proof fn lemma_eval_gt(a: IntExpr, b: IntExpr, vars: spec_fn(u64) -> int, arrs: spec_fn(u64, int) -> int, tabs: spec_fn(u64, int, int) -> int)
    ensures
        #[trigger] eval_bool(b_gt(a, b), vars, arrs, tabs) == (eval_int(a, vars, arrs, tabs) > eval_int(b, vars, arrs, tabs)),
{
}

/// Meaning of a conjunction.
pub broadcast proof fn lemma_eval_and(a: BoolExpr, b: BoolExpr, vars: spec_fn(u64) -> int, arrs: spec_fn(u64, int) -> int, tabs: spec_fn(u64, int, int) -> int)
    ensures
        #[trigger] eval_bool(b_and(a, b), vars, arrs, tabs) == (eval_bool(a, vars, arrs, tabs) && eval_bool(b, vars, arrs, tabs)),
{
}

/// Meaning of a disjunction.
pub broadcast proof fn lemma_eval_or(a: BoolExpr, b: BoolExpr, vars: spec_fn(u64) -> int, arrs: spec_fn(u64, int) -> int, tabs: spec_fn(u64, int, int) -> int)
    ensures
        #[trigger] eval_bool(b_or(a, b), vars, arrs, tabs) == (eval_bool(a, vars, arrs, tabs) || eval_bool(b, vars, arrs, tabs)),
{
}

/// Meaning of a boolean choice.
pub broadcast proof fn lemma_eval_bite(c: BoolExpr, t: BoolExpr, e: BoolExpr, vars: spec_fn(u64) -> int, arrs: spec_fn(u64, int) -> int, tabs: spec_fn(u64, int, int) -> int)
    ensures
        #[trigger] eval_bool(b_ite(c, t, e), vars, arrs, tabs) == if eval_bool(c, vars, arrs, tabs) { eval_bool(t, vars, arrs, tabs) } else { eval_bool(e, vars, arrs, tabs) },
{
}

/// Meaning of a read after a store.
pub broadcast proof fn lemma_eval_store(a: ArrayExpr, i: IntExpr, v: IntExpr, x: int, vars: spec_fn(u64) -> int, arrs: spec_fn(u64, int) -> int, tabs: spec_fn(u64, int, int) -> int)
    ensures
        #[trigger] eval_select(a_store(a, i, v), x, vars, arrs, tabs) == if x == eval_int(i, vars, arrs, tabs) { eval_int(v, vars, arrs, tabs) } else { eval_select(a, x, vars, arrs, tabs) },
{
}

/// Meaning of a read from a table row.
pub broadcast proof fn lemma_eval_row(t: TableExpr, i: IntExpr, x: int, vars: spec_fn(u64) -> int, arrs: spec_fn(u64, int) -> int, tabs: spec_fn(u64, int, int) -> int)
    ensures
        #[trigger] eval_select(a_row(t, i), x, vars, arrs, tabs) == eval_row_select(t, eval_int(i, vars, arrs, tabs), x, vars, arrs, tabs),
{
}

/// Meaning of a read after a table store.
pub broadcast proof fn lemma_eval_table_store(t: TableExpr, i: IntExpr, a: ArrayExpr, r: int, x: int, vars: spec_fn(u64) -> int, arrs: spec_fn(u64, int) -> int, tabs: spec_fn(u64, int, int) -> int)
    ensures
        #[trigger] eval_row_select(t_store(t, i, a), r, x, vars, arrs, tabs) == if r == eval_int(i, vars, arrs, tabs) { eval_select(a, x, vars, arrs, tabs) } else { eval_row_select(t, r, x, vars, arrs, tabs) },
{
}

/// The meaning of each kind of term, one step at a time.
pub broadcast group group_eval {
    lemma_eval_const,
    lemma_eval_add,
    lemma_eval_sub,
    lemma_eval_mul,
    lemma_eval_div,
    lemma_eval_ite,
    lemma_eval_select,
    lemma_eval_eq,
    lemma_eval_lt,
    lemma_eval_gt,
    lemma_eval_and,
    lemma_eval_or,
    lemma_eval_bite,
    lemma_eval_store,
    lemma_eval_row,
    lemma_eval_table_store,
}

// ---------------------------------------------------------------------------
// Names of the fresh arrays in terms
// ---------------------------------------------------------------------------

/// Whether the integer term reads the fresh array or table named `k`.
pub open spec fn int_mentions(e: IntExpr, k: u64) -> bool
    decreases e,
{
    match e {
        IntExpr::Const(_) => false,
        IntExpr::Var(_) => false,
        IntExpr::Add(a, b) => int_mentions(*a, k) || int_mentions(*b, k),
        IntExpr::Sub(a, b) => int_mentions(*a, k) || int_mentions(*b, k),
        IntExpr::Mul(a, b) => int_mentions(*a, k) || int_mentions(*b, k),
        IntExpr::Div(a, b) => int_mentions(*a, k) || int_mentions(*b, k),
        IntExpr::Ite(c, t, f) => bool_mentions(*c, k) || int_mentions(*t, k) || int_mentions(*f, k),
        IntExpr::Select(a, i) => array_mentions(*a, k) || int_mentions(*i, k),
    }
}

/// Whether the boolean term reads the fresh array or table named `k`.
pub open spec fn bool_mentions(e: BoolExpr, k: u64) -> bool
    decreases e,
{
    match e {
        BoolExpr::Lit(_) => false,
        BoolExpr::Eq(a, b) => int_mentions(*a, k) || int_mentions(*b, k),
        BoolExpr::Lt(a, b) => int_mentions(*a, k) || int_mentions(*b, k),
        BoolExpr::Gt(a, b) => int_mentions(*a, k) || int_mentions(*b, k),
        BoolExpr::And(a, b) => bool_mentions(*a, k) || bool_mentions(*b, k),
        BoolExpr::Or(a, b) => bool_mentions(*a, k) || bool_mentions(*b, k),
        BoolExpr::Ite(c, t, f) => bool_mentions(*c, k) || bool_mentions(*t, k) || bool_mentions(*f, k),
    }
}

/// Whether the array term reads the fresh array or table named `k`.
pub open spec fn array_mentions(a: ArrayExpr, k: u64) -> bool
    decreases a,
{
    match a {
        ArrayExpr::Fresh(n) => n == k,
        ArrayExpr::Store(b, i, v) => array_mentions(*b, k) || int_mentions(*i, k) || int_mentions(*v, k),
        ArrayExpr::Row(t, i) => table_mentions(*t, k) || int_mentions(*i, k),
    }
}

/// Whether the table term reads the fresh array or table named `k`.
pub open spec fn table_mentions(t: TableExpr, k: u64) -> bool
    decreases t,
{
    match t {
        TableExpr::Fresh(n) => n == k,
        TableExpr::Store(b, i, a) => table_mentions(*b, k) || int_mentions(*i, k) || array_mentions(*a, k),
    }
}

pub broadcast proof fn lemma_mentions_const(n: int, k: u64)
    ensures
        #[trigger] int_mentions(e_const(n), k) == false,
{
}

pub broadcast proof fn lemma_mentions_add(a: IntExpr, b: IntExpr, k: u64)
    ensures
        #[trigger] int_mentions(e_add(a, b), k) == (int_mentions(a, k) || int_mentions(b, k)),
{
}

pub broadcast proof fn lemma_mentions_sub(a: IntExpr, b: IntExpr, k: u64)
    ensures
        #[trigger] int_mentions(e_sub(a, b), k) == (int_mentions(a, k) || int_mentions(b, k)),
{
}

pub broadcast proof fn lemma_mentions_mul(a: IntExpr, b: IntExpr, k: u64)
    ensures
        #[trigger] int_mentions(e_mul(a, b), k) == (int_mentions(a, k) || int_mentions(b, k)),
{
}

pub broadcast proof fn lemma_mentions_div(a: IntExpr, b: IntExpr, k: u64)
    ensures
        #[trigger] int_mentions(e_div(a, b), k) == (int_mentions(a, k) || int_mentions(b, k)),
{
}

pub broadcast proof fn lemma_mentions_ite(c: BoolExpr, t: IntExpr, e: IntExpr, k: u64)
    ensures
        #[trigger] int_mentions(e_ite(c, t, e), k) == (bool_mentions(c, k) || int_mentions(t, k) || int_mentions(e, k)),
{
}

pub broadcast proof fn lemma_mentions_select(a: ArrayExpr, i: IntExpr, k: u64)
    ensures
        #[trigger] int_mentions(e_select(a, i), k) == (array_mentions(a, k) || int_mentions(i, k)),
{
}

pub broadcast proof fn lemma_mentions_eq(a: IntExpr, b: IntExpr, k: u64)
    ensures
        #[trigger] bool_mentions(b_eq(a, b), k) == (int_mentions(a, k) || int_mentions(b, k)),
{
}

pub broadcast proof fn lemma_mentions_lt(a: IntExpr, b: IntExpr, k: u64)
    ensures
        #[trigger] bool_mentions(b_lt(a, b), k) == (int_mentions(a, k) || int_mentions(b, k)),
{
}

pub broadcast proof fn lemma_mentions_gt(a: IntExpr, b: IntExpr, k: u64)
    ensures
        #[trigger] bool_mentions(b_gt(a, b), k) == (int_mentions(a, k) || int_mentions(b, k)),
{
}

pub broadcast proof fn lemma_mentions_and(a: BoolExpr, b: BoolExpr, k: u64)
    ensures
        #[trigger] bool_mentions(b_and(a, b), k) == (bool_mentions(a, k) || bool_mentions(b, k)),
{
}

pub broadcast proof fn lemma_mentions_or(a: BoolExpr, b: BoolExpr, k: u64)
    ensures
        #[trigger] bool_mentions(b_or(a, b), k) == (bool_mentions(a, k) || bool_mentions(b, k)),
{
}

pub broadcast proof fn lemma_mentions_bite(c: BoolExpr, t: BoolExpr, e: BoolExpr, k: u64)
    ensures
        #[trigger] bool_mentions(b_ite(c, t, e), k) == (bool_mentions(c, k) || bool_mentions(t, k) || bool_mentions(e, k)),
{
}

pub broadcast proof fn lemma_mentions_store(a: ArrayExpr, i: IntExpr, v: IntExpr, k: u64)
    ensures
        #[trigger] array_mentions(a_store(a, i, v), k) == (array_mentions(a, k) || int_mentions(i, k) || int_mentions(v, k)),
{
}

pub broadcast proof fn lemma_mentions_row(t: TableExpr, i: IntExpr, k: u64)
    ensures
        #[trigger] array_mentions(a_row(t, i), k) == (table_mentions(t, k) || int_mentions(i, k)),
{
}

pub broadcast proof fn lemma_mentions_table_store(t: TableExpr, i: IntExpr, a: ArrayExpr, k: u64)
    ensures
        #[trigger] table_mentions(t_store(t, i, a), k) == (table_mentions(t, k) || int_mentions(i, k) || array_mentions(a, k)),
{
}

/// Which fresh names each kind of term reads, one step at a time.
pub broadcast group group_mentions {
    lemma_mentions_const,
    lemma_mentions_add,
    lemma_mentions_sub,
    lemma_mentions_mul,
    lemma_mentions_div,
    lemma_mentions_ite,
    lemma_mentions_select,
    lemma_mentions_eq,
    lemma_mentions_lt,
    lemma_mentions_gt,
    lemma_mentions_and,
    lemma_mentions_or,
    lemma_mentions_bite,
    lemma_mentions_store,
    lemma_mentions_row,
    lemma_mentions_table_store,
}

// ---------------------------------------------------------------------------
// Executable constructors
// ---------------------------------------------------------------------------

impl IntExpr {
    /// A copy of the term; its subterms are shared.
    pub fn dup(&self) -> (r: IntExpr)
        ensures
            r == *self,
    {
        match self {
            IntExpr::Const(n) => IntExpr::Const(*n),
            IntExpr::Var(v) => IntExpr::Var(*v),
            IntExpr::Add(a, b) => IntExpr::Add(a.clone(), b.clone()),
            IntExpr::Sub(a, b) => IntExpr::Sub(a.clone(), b.clone()),
            IntExpr::Mul(a, b) => IntExpr::Mul(a.clone(), b.clone()),
            IntExpr::Div(a, b) => IntExpr::Div(a.clone(), b.clone()),
            IntExpr::Ite(c, t, e) => IntExpr::Ite(c.clone(), t.clone(), e.clone()),
            IntExpr::Select(a, i) => IntExpr::Select(a.clone(), i.clone()),
        }
    }

    pub fn lit(n: i64) -> (r: IntExpr)
        ensures
            r == e_const(n as int),
    {
        IntExpr::Const(n)
    }

    /// The literal for a cell index.
    pub fn index(n: usize) -> (r: IntExpr)
        requires
            n <= COLS + 1,
        ensures
            r == e_const(n as int),
    {
        IntExpr::Const(n as i64)
    }

    pub fn add(a: IntExpr, b: IntExpr) -> (r: IntExpr)
        ensures
            r == e_add(a, b),
    {
        IntExpr::Add(Rc::new(a), Rc::new(b))
    }

    pub fn sub(a: IntExpr, b: IntExpr) -> (r: IntExpr)
        ensures
            r == e_sub(a, b),
    {
        IntExpr::Sub(Rc::new(a), Rc::new(b))
    }

    pub fn mul(a: IntExpr, b: IntExpr) -> (r: IntExpr)
        ensures
            r == e_mul(a, b),
    {
        IntExpr::Mul(Rc::new(a), Rc::new(b))
    }

    pub fn div(a: IntExpr, b: IntExpr) -> (r: IntExpr)
        ensures
            r == e_div(a, b),
    {
        IntExpr::Div(Rc::new(a), Rc::new(b))
    }

    pub fn ite(c: BoolExpr, t: IntExpr, e: IntExpr) -> (r: IntExpr)
        ensures
            r == e_ite(c, t, e),
    {
        IntExpr::Ite(Rc::new(c), Rc::new(t), Rc::new(e))
    }

    pub fn select(a: ArrayExpr, i: IntExpr) -> (r: IntExpr)
        ensures
            r == e_select(a, i),
    {
        IntExpr::Select(Rc::new(a), Rc::new(i))
    }
}

impl BoolExpr {
    /// A copy of the term; its subterms are shared.
    pub fn dup(&self) -> (r: BoolExpr)
        ensures
            r == *self,
    {
        match self {
            BoolExpr::Lit(b) => BoolExpr::Lit(*b),
            BoolExpr::Eq(a, b) => BoolExpr::Eq(a.clone(), b.clone()),
            BoolExpr::Lt(a, b) => BoolExpr::Lt(a.clone(), b.clone()),
            BoolExpr::Gt(a, b) => BoolExpr::Gt(a.clone(), b.clone()),
            BoolExpr::And(a, b) => BoolExpr::And(a.clone(), b.clone()),
            BoolExpr::Or(a, b) => BoolExpr::Or(a.clone(), b.clone()),
            BoolExpr::Ite(c, t, e) => BoolExpr::Ite(c.clone(), t.clone(), e.clone()),
        }
    }

    pub fn eq(a: IntExpr, b: IntExpr) -> (r: BoolExpr)
        ensures
            r == b_eq(a, b),
    {
        BoolExpr::Eq(Rc::new(a), Rc::new(b))
    }

    pub fn lt(a: IntExpr, b: IntExpr) -> (r: BoolExpr)
        ensures
            r == b_lt(a, b),
    {
        BoolExpr::Lt(Rc::new(a), Rc::new(b))
    }

    pub fn gt(a: IntExpr, b: IntExpr) -> (r: BoolExpr)
        ensures
            r == b_gt(a, b),
    {
        BoolExpr::Gt(Rc::new(a), Rc::new(b))
    }

    pub fn and(a: BoolExpr, b: BoolExpr) -> (r: BoolExpr)
        ensures
            r == b_and(a, b),
    {
        BoolExpr::And(Rc::new(a), Rc::new(b))
    }

    pub fn or(a: BoolExpr, b: BoolExpr) -> (r: BoolExpr)
        ensures
            r == b_or(a, b),
    {
        BoolExpr::Or(Rc::new(a), Rc::new(b))
    }

    pub fn ite(c: BoolExpr, t: BoolExpr, e: BoolExpr) -> (r: BoolExpr)
        ensures
            r == b_ite(c, t, e),
    {
        BoolExpr::Ite(Rc::new(c), Rc::new(t), Rc::new(e))
    }
}

impl ArrayExpr {
    /// A copy of the term; its subterms are shared.
    pub fn dup(&self) -> (r: ArrayExpr)
        ensures
            r == *self,
    {
        match self {
            ArrayExpr::Fresh(k) => ArrayExpr::Fresh(*k),
            ArrayExpr::Store(a, i, v) => ArrayExpr::Store(a.clone(), i.clone(), v.clone()),
            ArrayExpr::Row(t, i) => ArrayExpr::Row(t.clone(), i.clone()),
        }
    }

    pub fn store(a: ArrayExpr, i: IntExpr, v: IntExpr) -> (r: ArrayExpr)
        ensures
            r == a_store(a, i, v),
    {
        ArrayExpr::Store(Rc::new(a), Rc::new(i), Rc::new(v))
    }

    pub fn row(t: TableExpr, i: IntExpr) -> (r: ArrayExpr)
        ensures
            r == a_row(t, i),
    {
        ArrayExpr::Row(Rc::new(t), Rc::new(i))
    }
}

impl TableExpr {
    pub fn store(t: TableExpr, i: IntExpr, a: ArrayExpr) -> (r: TableExpr)
        ensures
            r == t_store(t, i, a),
    {
        TableExpr::Store(Rc::new(t), Rc::new(i), Rc::new(a))
    }
}

/// The integer literal `val`; the bit width plays no part in an integer encoding.
pub fn int_from_i64(val: i64, _bit_width: u32) -> (r: IntExpr)
    ensures
        r == e_const(val as int),
{
    IntExpr::Const(val)
}

/// The literal 0.
pub fn zero_expr(bit_width: u32) -> (r: IntExpr)
    ensures
        r == zero(),
{
    int_from_i64(0, bit_width)
}

/// The literal 1.
pub fn one_expr(bit_width: u32) -> (r: IntExpr)
    ensures
        r == one(),
{
    int_from_i64(1, bit_width)
}

/// The conjunction of three conditions, grouped to the right.
pub fn and3_expr(p: BoolExpr, q: BoolExpr, r: BoolExpr) -> (e: BoolExpr)
    ensures
        e == and3(p, q, r),
{
    BoolExpr::and(p, BoolExpr::and(q, r))
}

/// `x` capped at `ROWS`.
pub fn cap_rows_expr(x: IntExpr) -> (r: IntExpr)
    ensures
        r == cap_rows(x),
{
    let limit = IntExpr::index(ROWS);
    IntExpr::ite(BoolExpr::lt(x.dup(), limit.dup()), x, limit)
}

/// Whether cell `(i, j)` lies inside the dimensions of `g`.
pub fn in_bounds_expr(g: &Vecs<IntExpr>, i: usize, j: usize) -> (r: BoolExpr)
    requires
        i <= COLS + 1,
        j <= COLS + 1,
    ensures
        r == in_bounds(g@, i as int, j as int),
{
    BoolExpr::and(
        BoolExpr::lt(IntExpr::index(i), g.dims.0.dup()),
        BoolExpr::lt(IntExpr::index(j), g.dims.1.dup()),
    )
}

impl Vecs<IntExpr> {
    /// A copy of the cell at `(i, j)`.
    pub fn cell(&self, i: usize, j: usize) -> (r: IntExpr)
        requires
            self@.well_shaped(),
            i < ROWS,
            j < COLS,
        ensures
            r == self@.at(i as int, j as int),
    {
        self.vecs[i][j].dup()
    }

    /// A copy of the first dimension.
    pub fn dim0(&self) -> (r: IntExpr)
        ensures
            r == self@.dims.0,
    {
        self.dims.0.dup()
    }

    /// A copy of the second dimension.
    pub fn dim1(&self) -> (r: IntExpr)
        ensures
            r == self@.dims.1,
    {
        self.dims.1.dup()
    }
}

/// Builds `ROWS` rows of `ncols` cells, the cell at `(i, j)` being `f(i, j)`;
/// `spec_f` states what `f` computes.
pub(crate) fn build_grid<F: Fn(usize, usize) -> IntExpr>(
    ncols: usize,
    f: F,
    Ghost(spec_f): Ghost<spec_fn(int, int) -> IntExpr>,
) -> (g: Vec<Vec<IntExpr>>)
    requires
        ncols <= COLS + 1,
        forall|i: usize, j: usize| i < ROWS && j < ncols ==> #[trigger] f.requires((i, j)),
        forall|i: usize, j: usize, r: IntExpr|
            i < ROWS && j < ncols && #[trigger] f.ensures((i, j), r) ==> r == spec_f(i as int, j as int),
    ensures
        g@.map_values(|r: Vec<IntExpr>| r@) == table(ncols as nat, spec_f),
{
    let mut g: Vec<Vec<IntExpr>> = Vec::new();
    let mut i: usize = 0;
    while i < ROWS
        invariant
            i <= ROWS,
            ncols <= COLS + 1,
            g@.len() == i,
            forall|k: int| 0 <= k < i ==> (#[trigger] g@[k])@ == Seq::new(ncols as nat, |j: int| spec_f(k, j)),
            forall|i: usize, j: usize| i < ROWS && j < ncols ==> #[trigger] f.requires((i, j)),
            forall|i: usize, j: usize, r: IntExpr|
                i < ROWS && j < ncols && #[trigger] f.ensures((i, j), r) ==> r == spec_f(i as int, j as int),
        decreases ROWS - i,
    {
        let mut row: Vec<IntExpr> = Vec::new();
        let mut j: usize = 0;
        while j < ncols
            invariant
                i < ROWS,
                j <= ncols,
                row@.len() == j,
                forall|k: int| 0 <= k < j ==> #[trigger] row@[k] == spec_f(i as int, k),
                forall|i: usize, j: usize| i < ROWS && j < ncols ==> #[trigger] f.requires((i, j)),
                forall|i: usize, j: usize, r: IntExpr|
                    i < ROWS && j < ncols && #[trigger] f.ensures((i, j), r) ==> r == spec_f(i as int, j as int),
            decreases ncols - j,
        {
            let e = f(i, j);
            row.push(e);
            j += 1;
        }
        assert(row@ =~= Seq::new(ncols as nat, |j: int| spec_f(i as int, j)));
        g.push(row);
        i += 1;
    }
    let ghost m = g@.map_values(|r: Vec<IntExpr>| r@);
    assert(m =~= table(ncols as nat, spec_f)) by {
        assert forall|k: int| 0 <= k < ROWS implies #[trigger] m[k] == table(ncols as nat, spec_f)[k] by {
            assert(g@[k]@ == Seq::new(ncols as nat, |j: int| spec_f(k, j)));
        }
    }
    g
}

} // verus!
