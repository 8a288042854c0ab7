//! Component-based synthesis of tensor programs.
//!
//! A synthesis problem is a `Program` written with a `ProgramBuilder`;
//! each TensorFlow-style operator is a `Component` that can rebuild its
//! `Operator` from operand ids and encode its meaning as a symbolic
//! integer expression over a fixed-size grid of cells.

pub mod expr;
pub mod operator;
pub mod builder;
pub mod component;
pub mod components;
pub mod dispatch;
pub mod laws;

pub use builder::ProgramBuilder;
pub use component::Component;
pub use expr::{ArrayExpr, BoolExpr, ExprContext, IntExpr, TableExpr};
pub use operator::Operator;

use vstd::prelude::*;

verus! {

/// Number of rows of every encoded tensor.
pub const ROWS: usize = 4;

/// Number of columns of every encoded tensor.
pub const COLS: usize = 10;

/// Identifier of an instruction in a program: its position.
#[derive(Clone, Copy, Debug, PartialEq, Eq, Structural)]
pub struct Id(pub u32);

/// One step of a program: the id it defines and the operator computing it.
#[derive(Clone, Copy, Debug, PartialEq, Eq, Structural)]
pub struct Instruction {
    pub result: Id,
    pub operator: Operator,
}

/// A straight-line program together with the concrete values of its inputs.
#[derive(Debug)]
pub struct Program {
    pub instructions: Vec<Instruction>,
    pub inputs: Vec<Vec<Vec<i64>>>,
}

/// A two-dimensional tensor: its (symbolic) dimensions and its cells, row by row.
#[derive(Debug)]
pub struct Vecs<T> {
    pub dims: (T, T),
    pub vecs: Vec<Vec<T>>,
}

/// The mathematical value of a `Vecs`: dimensions and rows of cells.
pub struct Grid<T> {
    pub dims: (T, T),
    pub cells: Seq<Seq<T>>,
}

impl<T> View for Vecs<T> {
    type V = Grid<T>;

    open spec fn view(&self) -> Grid<T> {
        Grid {
            dims: self.dims,
            cells: self.vecs@.map_values(|r: Vec<T>| r@),
        }
    }
}

impl<T> Grid<T> {
    /// At least `ROWS` rows, each of the first `ROWS` rows with at least `COLS` cells:
    /// every cell that an operator reads is there.
    pub open spec fn well_shaped(self) -> bool {
        &&& self.cells.len() >= ROWS
        &&& forall|i: int| 0 <= i < ROWS ==> #[trigger] self.cells[i].len() >= COLS
    }

    /// The cell at row `i`, column `j`.
    pub open spec fn at(self, i: int, j: int) -> T {
        self.cells[i][j]
    }
}

} // verus!
